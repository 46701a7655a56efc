use tantex::host_value::{term_to_i64, term_to_string, term_to_u64, HostValue};
use tantex::tantex_error::TantexError;

#[test]
fn eight_byte_magnitude_decodes_to_the_exact_unsigned_value() {
    // Little-endian magnitude: 0x0807060504030201.
    let magnitude = vec![0x01u8, 0x02, 0x03, 0x04, 0x05, 0x06, 0x07, 0x08];
    let value = HostValue::Big { negative: false, magnitude };
    assert_eq!(term_to_u64(&value).unwrap(), 0x0807060504030201u64);
}

#[test]
fn eight_byte_magnitude_of_all_ones_is_u64_max() {
    let magnitude = vec![0xFFu8; 8];
    let value = HostValue::Big { negative: false, magnitude };
    assert_eq!(term_to_u64(&value).unwrap(), u64::MAX);
}

#[test]
fn nine_byte_magnitude_rejects_on_both_integer_paths() {
    let magnitude = vec![0x01u8; 9];
    let value = HostValue::Big { negative: false, magnitude };
    let signed = term_to_i64(&value).unwrap_err();
    assert_eq!(signed.to_reason().0, "exceeded_8_bytes");
    let unsigned = term_to_u64(&value).unwrap_err();
    assert_eq!(unsigned.to_reason().0, "exceeded_8_bytes");
    assert!(matches!(unsigned, TantexError::Exceeded8Bytes(bytes) if bytes.len() == 9));
}

#[test]
fn negative_big_integer_decodes_to_the_negated_value() {
    let value = HostValue::Big { negative: true, magnitude: vec![0x07] };
    assert_eq!(term_to_i64(&value).unwrap(), -7);
    let zero = HostValue::Big { negative: true, magnitude: vec![] };
    assert_eq!(term_to_i64(&zero).unwrap(), 0);
    let min = HostValue::Big {
        negative: true,
        magnitude: vec![0x00, 0x00, 0x00, 0x00, 0x00, 0x00, 0x00, 0x80],
    };
    assert_eq!(term_to_i64(&min).unwrap(), i64::MIN);
}

#[test]
fn negative_input_never_becomes_unsigned() {
    let big = HostValue::Big { negative: true, magnitude: vec![0x07] };
    assert_eq!(term_to_u64(&big).unwrap_err().to_reason().0, "term_cannot_be_uint64");
    let native = HostValue::Int(-1);
    assert_eq!(term_to_u64(&native).unwrap_err().to_reason().0, "term_cannot_be_uint64");
}

#[test]
fn native_integers_pass_straight_through() {
    assert_eq!(term_to_i64(&HostValue::Int(-42)).unwrap(), -42);
    assert_eq!(term_to_u64(&HostValue::Int(42)).unwrap(), 42);
}

#[test]
fn non_numeric_values_are_rejected_as_integers() {
    let value = HostValue::Binary(b"seven".to_vec());
    assert_eq!(term_to_i64(&value).unwrap_err().to_reason().0, "term_cannot_be_int64");
    assert_eq!(term_to_u64(&value).unwrap_err().to_reason().0, "term_cannot_be_uint64");
}

#[test]
fn utf8_binaries_decode_to_their_text() {
    let value = HostValue::Binary(vec![0xC3, 0xA9, b'!']);
    assert_eq!(term_to_string(&value).unwrap(), "\u{e9}!");
    let list = HostValue::Bytes(b"plain".to_vec());
    assert_eq!(term_to_string(&list).unwrap(), "plain");
}

#[test]
fn invalid_utf8_rejects_carrying_the_offending_bytes() {
    let value = HostValue::Binary(vec![0xFF, 0x00]);
    let e = term_to_string(&value).unwrap_err();
    assert_eq!(e.to_reason().0, "invalid_utf8");
    assert!(matches!(e, TantexError::InvalidUTF8(bytes) if bytes == vec![0xFF, 0x00]));
}

#[test]
fn integers_are_rejected_as_text() {
    let e = term_to_string(&HostValue::Int(7)).unwrap_err();
    assert_eq!(e.to_reason().0, "term_cannot_be_string");
}
