use tantex::field_config::FieldConfig;
use tantex::tantex_error::TantexError;

fn reason(e: &TantexError) -> (String, String) {
    e.to_reason()
}

#[test]
fn build_is_deterministic_on_identical_inputs() {
    let kinds = ["i64", "u64", "string", "text", "trigram", "bytes", "facet", "zzz"];
    for kind in kinds {
        for stored in [false, true] {
            for fast in [false, true] {
                let first = FieldConfig::build(kind, stored, fast);
                let second = FieldConfig::build(kind, stored, fast);
                match (first, second) {
                    (Ok(a), Ok(b)) => assert_eq!(a, b),
                    (Err(a), Err(b)) => assert_eq!(reason(&a), reason(&b)),
                    _ => panic!("accept/reject outcome changed between identical runs"),
                }
            }
        }
    }
}

#[test]
fn integer_kinds_accept_every_flag_combination() {
    for kind in ["i64", "u64"] {
        for stored in [false, true] {
            for fast in [false, true] {
                assert!(FieldConfig::build(kind, stored, fast).is_ok());
            }
        }
    }
    assert_eq!(
        FieldConfig::build("i64", true, true).unwrap(),
        FieldConfig::I64 { stored: true, fast: true }
    );
    assert_eq!(
        FieldConfig::build("u64", false, false).unwrap(),
        FieldConfig::U64 { stored: false, fast: false }
    );
}

#[test]
fn fast_is_rejected_for_every_non_integer_kind() {
    for kind in ["string", "text", "trigram", "bytes", "facet", "zzz"] {
        for stored in [false, true] {
            let e = FieldConfig::build(kind, stored, true).unwrap_err();
            let (tag, detail) = e.to_reason();
            assert_eq!(tag, "cannot_be_fast");
            assert_eq!(detail, kind);
        }
    }
}

#[test]
fn text_not_stored_fast_is_rejected_as_cannot_be_fast() {
    let e = FieldConfig::build("text", false, true).unwrap_err();
    assert_eq!(e.to_reason().0, "cannot_be_fast");
}

#[test]
fn stored_bytes_always_rejects() {
    let no_fast = FieldConfig::build("bytes", true, false).unwrap_err();
    assert_eq!(no_fast.to_reason().0, "cannot_be_stored");
    assert_eq!(no_fast.to_reason().1, "bytes");
    let with_fast = FieldConfig::build("bytes", true, true).unwrap_err();
    assert_eq!(with_fast.to_reason().0, "cannot_be_fast");
}

#[test]
fn unstored_bytes_is_accepted() {
    assert_eq!(FieldConfig::build("bytes", false, false).unwrap(), FieldConfig::Bytes);
}

#[test]
fn unknown_kind_rejects_with_the_exact_string() {
    for kind in ["zzz", "int", "f64", "TEXT", ""] {
        let e = FieldConfig::build(kind, false, false).unwrap_err();
        let (tag, detail) = e.to_reason();
        assert_eq!(tag, "invalid_type");
        assert_eq!(detail, kind);
    }
}

#[test]
fn text_like_kinds_accept_with_and_without_stored() {
    assert_eq!(
        FieldConfig::build("text", true, false).unwrap(),
        FieldConfig::Text { stored: true }
    );
    assert_eq!(
        FieldConfig::build("string", false, false).unwrap(),
        FieldConfig::Str { stored: false }
    );
    assert_eq!(
        FieldConfig::build("trigram", true, false).unwrap(),
        FieldConfig::Trigram { stored: true }
    );
    assert_eq!(FieldConfig::build("facet", true, false).unwrap(), FieldConfig::Facet);
}
