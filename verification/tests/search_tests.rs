use tantex::doc_action::Document;
use tantex::field_config::FieldConfig;
use tantex::host_value::HostValue;
use tantex::schema_index::SchemaIndex;

const HEAP: usize = 50_000_000;

fn opened_index(dir: &tempfile::TempDir) -> SchemaIndex {
    let mut schema_index = SchemaIndex::new();
    schema_index.add_field("title", FieldConfig::build("text", true, false).unwrap()).unwrap();
    schema_index.add_field("id", FieldConfig::build("u64", true, true).unwrap()).unwrap();
    schema_index.finalize_schema().unwrap();
    schema_index.open_index(dir.path().to_str().unwrap()).unwrap();
    schema_index
}

#[test]
fn serialized_round_trip_through_search_and_term_lookup() {
    let dir = tempfile::tempdir().unwrap();
    let schema_index = opened_index(&dir);
    let doc = Document::Serialized(r#"{"title": "hello world", "id": 7}"#.to_string());
    schema_index.write_documents(vec![doc], HEAP).unwrap();

    let found = schema_index
        .limit_search(vec!["title".to_string()], "hello", 10)
        .unwrap();
    assert_eq!(found.len(), 1);
    assert!(found[0].contains("hello world"));
    assert!(found[0].contains('7'));

    let by_term = schema_index.find_one_by_term("id", &HostValue::Int(7)).unwrap();
    assert_eq!(by_term, found[0]);

    let missing = schema_index.find_one_by_term("id", &HostValue::Int(8)).unwrap_err();
    assert_eq!(missing.to_reason().0, "document_not_found");
}

#[test]
fn mapping_round_trip_keeps_text_and_integers() {
    let dir = tempfile::tempdir().unwrap();
    let schema_index = opened_index(&dir);
    let pairs = vec![
        (
            HostValue::Binary(b"title".to_vec()),
            HostValue::Binary(b"unique zebra".to_vec()),
        ),
        (
            HostValue::Binary(b"id".to_vec()),
            HostValue::Big { negative: false, magnitude: vec![42] },
        ),
    ];
    schema_index.write_documents(vec![Document::Mapping(pairs)], HEAP).unwrap();

    let by_term = schema_index.find_one_by_term("id", &HostValue::Int(42)).unwrap();
    assert!(by_term.contains("unique zebra"));
    assert!(by_term.contains("42"));

    let by_text = schema_index.fetch_one_by_text("title", "zebra").unwrap();
    assert_eq!(by_text, by_term);
}

#[test]
fn limit_zero_yields_an_empty_result_not_an_error() {
    let dir = tempfile::tempdir().unwrap();
    let schema_index = opened_index(&dir);
    let doc = Document::Serialized(r#"{"title": "hello world", "id": 7}"#.to_string());
    schema_index.write_documents(vec![doc], HEAP).unwrap();
    let found = schema_index
        .limit_search(vec!["title".to_string()], "hello", 0)
        .unwrap();
    assert!(found.is_empty());
}

#[test]
fn limit_caps_the_number_of_results() {
    let dir = tempfile::tempdir().unwrap();
    let schema_index = opened_index(&dir);
    let docs = vec![
        Document::Serialized(r#"{"title": "shared word one", "id": 1}"#.to_string()),
        Document::Serialized(r#"{"title": "shared word two", "id": 2}"#.to_string()),
        Document::Serialized(r#"{"title": "shared word three", "id": 3}"#.to_string()),
    ];
    schema_index.write_documents(docs, HEAP).unwrap();
    let found = schema_index
        .limit_search(vec!["title".to_string()], "shared", 2)
        .unwrap();
    assert_eq!(found.len(), 2);
}

#[test]
fn unknown_field_in_the_search_list_fails_before_execution() {
    let dir = tempfile::tempdir().unwrap();
    let schema_index = opened_index(&dir);
    let e = schema_index
        .limit_search(vec!["title".to_string(), "missing".to_string()], "hello", 10)
        .unwrap_err();
    let (tag, detail) = e.to_reason();
    assert_eq!(tag, "field_not_found");
    assert_eq!(detail, "missing");
}

#[test]
fn fetch_one_by_text_with_no_match_reports_document_not_found() {
    let dir = tempfile::tempdir().unwrap();
    let schema_index = opened_index(&dir);
    let e = schema_index.fetch_one_by_text("title", "absent").unwrap_err();
    assert_eq!(e.to_reason().0, "document_not_found");
}

#[test]
fn term_lookup_type_mismatch_names_the_expected_type_and_field() {
    let dir = tempfile::tempdir().unwrap();
    let schema_index = opened_index(&dir);
    let e = schema_index
        .find_one_by_term("id", &HostValue::Binary(b"seven".to_vec()))
        .unwrap_err();
    let (tag, detail) = e.to_reason();
    assert_eq!(tag, "invalid_field_data");
    assert_eq!(detail, "u64: id");
    let e = schema_index.find_one_by_term("id", &HostValue::Int(-3)).unwrap_err();
    assert_eq!(e.to_reason().0, "invalid_field_data");
}

#[test]
fn invalid_json_document_is_rejected_with_the_document() {
    let dir = tempfile::tempdir().unwrap();
    let schema_index = opened_index(&dir);
    let doc = Document::Serialized("not json".to_string());
    let e = schema_index.write_documents(vec![doc], HEAP).unwrap_err();
    let (tag, detail) = e.to_reason();
    assert_eq!(tag, "invalid_document_json");
    assert!(detail.contains("not json"));
}

#[test]
fn mapping_with_an_unknown_key_is_rejected_before_commit() {
    let dir = tempfile::tempdir().unwrap();
    let schema_index = opened_index(&dir);
    let pairs = vec![(
        HostValue::Binary(b"missing".to_vec()),
        HostValue::Binary(b"value".to_vec()),
    )];
    let e = schema_index.write_documents(vec![Document::Mapping(pairs)], HEAP).unwrap_err();
    let (tag, detail) = e.to_reason();
    assert_eq!(tag, "field_not_found");
    assert_eq!(detail, "missing");
    let found = schema_index
        .limit_search(vec!["title".to_string()], "value", 10)
        .unwrap();
    assert!(found.is_empty());
}

#[test]
fn mapping_with_an_overlong_magnitude_is_rejected() {
    let dir = tempfile::tempdir().unwrap();
    let schema_index = opened_index(&dir);
    let pairs = vec![(
        HostValue::Binary(b"id".to_vec()),
        HostValue::Big { negative: false, magnitude: vec![1u8; 9] },
    )];
    let e = schema_index.write_documents(vec![Document::Mapping(pairs)], HEAP).unwrap_err();
    assert_eq!(e.to_reason().0, "exceeded_8_bytes");
}

#[test]
fn opening_twice_is_refused() {
    let dir = tempfile::tempdir().unwrap();
    let mut schema_index = opened_index(&dir);
    let e = schema_index.open_index(dir.path().to_str().unwrap()).unwrap_err();
    assert_eq!(e.to_reason().0, "schema_not_found");
}

#[test]
fn reopening_an_existing_index_at_the_same_path_succeeds() {
    let dir = tempfile::tempdir().unwrap();
    {
        let schema_index = opened_index(&dir);
        let doc = Document::Serialized(r#"{"title": "durable entry", "id": 11}"#.to_string());
        schema_index.write_documents(vec![doc], HEAP).unwrap();
    }
    let mut second = SchemaIndex::new();
    second.add_field("title", FieldConfig::build("text", true, false).unwrap()).unwrap();
    second.add_field("id", FieldConfig::build("u64", true, true).unwrap()).unwrap();
    second.finalize_schema().unwrap();
    second.open_index(dir.path().to_str().unwrap()).unwrap();
    let found = second.find_one_by_term("id", &HostValue::Int(11)).unwrap();
    assert!(found.contains("durable entry"));
}

#[test]
fn malformed_pattern_is_classified_as_invalid_query() {
    let dir = tempfile::tempdir().unwrap();
    let schema_index = opened_index(&dir);
    let e = schema_index
        .limit_search(vec!["title".to_string()], "title:[unclosed TO", 10)
        .unwrap_err();
    let (tag, detail) = e.to_reason();
    assert_eq!(tag, "invalid_query_format");
    assert_eq!(detail, "title:[unclosed TO");
}

#[test]
fn facet_and_bytes_fields_are_not_searchable_by_term() {
    let dir = tempfile::tempdir().unwrap();
    let mut schema_index = SchemaIndex::new();
    schema_index.add_field("tags", FieldConfig::build("facet", false, false).unwrap()).unwrap();
    schema_index.add_field("blob", FieldConfig::build("bytes", false, false).unwrap()).unwrap();
    schema_index.finalize_schema().unwrap();
    schema_index.open_index(dir.path().to_str().unwrap()).unwrap();
    let e = schema_index
        .find_one_by_term("tags", &HostValue::Binary(b"a".to_vec()))
        .unwrap_err();
    let (tag, detail) = e.to_reason();
    assert_eq!(tag, "type_cannot_be_searched");
    assert_eq!(detail, "facet");
    let e = schema_index
        .find_one_by_term("blob", &HostValue::Binary(b"a".to_vec()))
        .unwrap_err();
    assert_eq!(e.to_reason().1, "bytes");
}

#[test]
fn facet_field_in_a_mapping_is_an_unhandled_combination() {
    let dir = tempfile::tempdir().unwrap();
    let mut schema_index = SchemaIndex::new();
    schema_index.add_field("tags", FieldConfig::build("facet", false, false).unwrap()).unwrap();
    schema_index.finalize_schema().unwrap();
    schema_index.open_index(dir.path().to_str().unwrap()).unwrap();
    let pairs = vec![(
        HostValue::Binary(b"tags".to_vec()),
        HostValue::Binary(b"/a/b".to_vec()),
    )];
    let e = schema_index.write_documents(vec![Document::Mapping(pairs)], HEAP).unwrap_err();
    let (tag, detail) = e.to_reason();
    assert_eq!(tag, "unhandled_doc_action_combo");
    assert_eq!(detail, "facet: binary");
}

#[test]
fn bytes_field_takes_only_raw_byte_sequences() {
    let dir = tempfile::tempdir().unwrap();
    let mut schema_index = SchemaIndex::new();
    schema_index.add_field("blob", FieldConfig::build("bytes", false, false).unwrap()).unwrap();
    schema_index.finalize_schema().unwrap();
    schema_index.open_index(dir.path().to_str().unwrap()).unwrap();
    let good = vec![(
        HostValue::Binary(b"blob".to_vec()),
        HostValue::Bytes(vec![1, 2, 3]),
    )];
    schema_index.write_documents(vec![Document::Mapping(good)], HEAP).unwrap();
    let bad = vec![(HostValue::Binary(b"blob".to_vec()), HostValue::Int(3))];
    let e = schema_index.write_documents(vec![Document::Mapping(bad)], HEAP).unwrap_err();
    let (tag, detail) = e.to_reason();
    assert_eq!(tag, "unhandled_doc_action_combo");
    assert_eq!(detail, "bytes: integer");
}

#[test]
fn opening_at_a_file_rather_than_a_directory_fails_to_create() {
    let file = tempfile::NamedTempFile::new().unwrap();
    let mut schema_index = SchemaIndex::new();
    schema_index.add_field("title", FieldConfig::build("text", true, false).unwrap()).unwrap();
    schema_index.finalize_schema().unwrap();
    let e = schema_index.open_index(file.path().to_str().unwrap()).unwrap_err();
    let (tag, detail) = e.to_reason();
    assert_eq!(tag, "failed_to_create_index");
    assert!(detail.contains(file.path().to_str().unwrap()));
}

#[test]
fn search_runs_over_the_requested_fields_only() {
    let dir = tempfile::tempdir().unwrap();
    let mut schema_index = SchemaIndex::new();
    schema_index.add_field("title", FieldConfig::build("text", true, false).unwrap()).unwrap();
    schema_index.add_field("body", FieldConfig::build("text", true, false).unwrap()).unwrap();
    schema_index.finalize_schema().unwrap();
    schema_index.open_index(dir.path().to_str().unwrap()).unwrap();
    let doc = Document::Serialized(
        r#"{"title": "hello world", "body": "plain prose"}"#.to_string(),
    );
    schema_index.write_documents(vec![doc], HEAP).unwrap();
    let over_body = schema_index
        .limit_search(vec!["body".to_string()], "hello", 10)
        .unwrap();
    assert!(over_body.is_empty());
    let over_title = schema_index
        .limit_search(vec!["title".to_string()], "hello", 10)
        .unwrap();
    assert_eq!(over_title.len(), 1);
}

#[test]
fn reopening_with_a_different_schema_is_refused() {
    let dir = tempfile::tempdir().unwrap();
    {
        let schema_index = opened_index(&dir);
        let doc = Document::Serialized(r#"{"title": "kept", "id": 5}"#.to_string());
        schema_index.write_documents(vec![doc], HEAP).unwrap();
    }
    let mut second = SchemaIndex::new();
    second.add_field("other", FieldConfig::build("text", true, false).unwrap()).unwrap();
    second.finalize_schema().unwrap();
    let e = second.open_index(dir.path().to_str().unwrap()).unwrap_err();
    let (tag, detail) = e.to_reason();
    assert_eq!(tag, "failed_to_create_index");
    assert!(detail.contains("different schema"));
}

#[test]
fn an_opened_index_reports_the_opened_phase() {
    let dir = tempfile::tempdir().unwrap();
    let schema_index = opened_index(&dir);
    assert!(schema_index.in_opened_phase());
    assert!(!schema_index.in_building_phase());
}
