use tantex::doc_action::Document;
use tantex::host_value::HostValue;
use tantex::field_config::FieldConfig;
use tantex::schema_index::SchemaIndex;
use tantex::tantex_error::TantexError;

#[test]
fn write_documents_before_open_index_fails_with_wrong_phase() {
    let schema_index = SchemaIndex::new();
    let docs = vec![Document::Serialized("{}".to_string())];
    let e = schema_index.write_documents(docs, 50_000_000).unwrap_err();
    assert_eq!(e.to_reason().0, "index_not_found");

    let mut finalized = SchemaIndex::new();
    finalized.add_field("title", FieldConfig::Text { stored: true }).unwrap();
    finalized.finalize_schema().unwrap();
    let docs = vec![Document::Serialized("{}".to_string())];
    let e = finalized.write_documents(docs, 50_000_000).unwrap_err();
    assert_eq!(e.to_reason().0, "index_not_found");
}

#[test]
fn open_index_before_finalize_schema_fails_with_wrong_phase() {
    let mut schema_index = SchemaIndex::new();
    schema_index.add_field("title", FieldConfig::Text { stored: true }).unwrap();
    let e = schema_index.open_index("/tmp").unwrap_err();
    assert_eq!(e.to_reason().0, "schema_not_found");
}

#[test]
fn finalize_schema_twice_fails_on_the_second_call() {
    let mut schema_index = SchemaIndex::new();
    schema_index.add_field("id", FieldConfig::U64 { stored: true, fast: true }).unwrap();
    assert!(schema_index.finalize_schema().is_ok());
    let e = schema_index.finalize_schema().unwrap_err();
    assert_eq!(e.to_reason().0, "schema_builder_not_found");
}

#[test]
fn add_field_after_finalize_fails_with_wrong_phase() {
    let mut schema_index = SchemaIndex::new();
    schema_index.add_field("id", FieldConfig::U64 { stored: true, fast: true }).unwrap();
    schema_index.finalize_schema().unwrap();
    let e = schema_index.add_field("title", FieldConfig::Text { stored: true }).unwrap_err();
    assert!(matches!(e, TantexError::SchemaBuilderNotFound));
}

#[test]
fn blank_field_name_is_rejected() {
    let mut schema_index = SchemaIndex::new();
    let e = schema_index.add_field("", FieldConfig::Text { stored: true }).unwrap_err();
    assert_eq!(e.to_reason().0, "name_cannot_be_blank");
}

#[test]
fn searches_before_any_phase_advance_fail_with_wrong_phase() {
    let schema_index = SchemaIndex::new();
    let e = schema_index
        .limit_search(vec!["title".to_string()], "hello", 10)
        .unwrap_err();
    assert_eq!(e.to_reason().0, "schema_not_found");
    let e = schema_index.fetch_one_by_text("title", "hello").unwrap_err();
    assert_eq!(e.to_reason().0, "schema_not_found");
}

#[test]
fn searches_on_a_finalized_but_unopened_index_fail_with_index_missing() {
    let mut schema_index = SchemaIndex::new();
    schema_index.add_field("title", FieldConfig::Text { stored: true }).unwrap();
    schema_index.finalize_schema().unwrap();
    let e = schema_index
        .limit_search(vec!["title".to_string()], "hello", 10)
        .unwrap_err();
    assert_eq!(e.to_reason().0, "index_not_found");
}

#[test]
fn open_index_at_a_missing_location_reports_the_path() {
    let mut schema_index = SchemaIndex::new();
    schema_index.add_field("title", FieldConfig::Text { stored: true }).unwrap();
    schema_index.finalize_schema().unwrap();
    let e = schema_index.open_index("/nonexistent/location/for/tantex").unwrap_err();
    let (tag, detail) = e.to_reason();
    assert_eq!(tag, "path_does_not_exist");
    assert_eq!(detail, "/nonexistent/location/for/tantex");
}

#[test]
fn has_field_named_sees_exactly_the_declared_names() {
    let mut schema_index = SchemaIndex::new();
    schema_index.add_field("title", FieldConfig::Text { stored: true }).unwrap();
    assert!(schema_index.has_field_named("title"));
    assert!(!schema_index.has_field_named("body"));
    schema_index.finalize_schema().unwrap();
    assert!(schema_index.has_field_named("title"));
}

#[test]
fn document_writable_rules_out_trigram_keys_only() {
    let mut schema_index = SchemaIndex::new();
    schema_index.add_field("excerpt", FieldConfig::Trigram { stored: false }).unwrap();
    schema_index.add_field("title", FieldConfig::Text { stored: true }).unwrap();
    let trigram_doc = Document::Mapping(vec![(
        HostValue::Binary(b"excerpt".to_vec()),
        HostValue::Binary(b"text".to_vec()),
    )]);
    assert!(!schema_index.document_writable(&trigram_doc));
    let text_doc = Document::Mapping(vec![(
        HostValue::Binary(b"title".to_vec()),
        HostValue::Binary(b"text".to_vec()),
    )]);
    assert!(schema_index.document_writable(&text_doc));
    let serialized = Document::Serialized("{}".to_string());
    assert!(schema_index.document_writable(&serialized));
}

#[test]
fn phase_accessors_track_the_machine() {
    let mut schema_index = SchemaIndex::new();
    assert!(schema_index.in_building_phase());
    assert!(!schema_index.in_opened_phase());
    schema_index.add_field("title", FieldConfig::Text { stored: true }).unwrap();
    schema_index.finalize_schema().unwrap();
    assert!(!schema_index.in_building_phase());
    assert!(!schema_index.in_opened_phase());
}
