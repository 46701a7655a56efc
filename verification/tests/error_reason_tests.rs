use tantex::tantex_error::TantexError;
use tantex::token_type::TokenType;

#[test]
fn every_error_kind_renders_its_stable_tag() {
    let cases: Vec<(TantexError, &str)> = vec![
        (TantexError::TypeCannotBeFast("text".into()), "cannot_be_fast"),
        (TantexError::InvalidType("zzz".into()), "invalid_type"),
        (TantexError::TypeIsNotStored("bytes".into()), "cannot_be_stored"),
        (TantexError::NameCannotBeBlank, "name_cannot_be_blank"),
        (TantexError::PathDoesNotExist("/p".into()), "path_does_not_exist"),
        (
            TantexError::FailedToCreateIndex("/p".into(), "why".into()),
            "failed_to_create_index",
        ),
        (
            TantexError::FailedToCreateIndexWriter("why".into()),
            "failed_to_create_index_writer",
        ),
        (TantexError::FailedToWriteToIndex("why".into()), "failed_to_write_to_index"),
        (TantexError::FailedToLoadSearchers("why".into()), "failed_to_load_searchers"),
        (TantexError::FieldNotFound("title".into()), "field_not_found"),
        (TantexError::DocumentNotFound, "document_not_found"),
        (TantexError::InvalidQuery("a AND".into()), "invalid_query_format"),
        (TantexError::SearchExecutionFailed("why".into()), "search_execution_failed"),
        (
            TantexError::DocumentRetrievalFailed("why".into()),
            "document_retrieval_failed",
        ),
        (
            TantexError::InvalidDocumentJSON("{".into(), "why".into()),
            "invalid_document_json",
        ),
        (TantexError::SchemaBuilderNotFound, "schema_builder_not_found"),
        (TantexError::SchemaNotFound, "schema_not_found"),
        (TantexError::IndexNotFound, "index_not_found"),
        (
            TantexError::TypeCannotBeSearched(TokenType::Facet),
            "type_cannot_be_searched",
        ),
        (
            TantexError::InvalidFieldData(TokenType::U64, "id".into()),
            "invalid_field_data",
        ),
        (TantexError::DocumentMustBeMap("tuple".into()), "document_must_be_map"),
        (
            TantexError::UnhandledDocActionCombo("facet: binary".into()),
            "unhandled_doc_action_combo",
        ),
        (TantexError::InvalidUTF8(vec![0xFF]), "invalid_utf8"),
        (TantexError::Exceeded8Bytes(vec![0; 9]), "exceeded_8_bytes"),
        (TantexError::TermCannotBeInt64("binary".into()), "term_cannot_be_int64"),
        (TantexError::TermCannotBeUInt64("binary".into()), "term_cannot_be_uint64"),
        (TantexError::TermCannotBeString("integer".into()), "term_cannot_be_string"),
    ];
    for (e, tag) in cases {
        assert_eq!(e.to_reason().0, tag);
    }
}

#[test]
fn details_carry_the_offending_payload() {
    assert_eq!(TantexError::InvalidType("zzz".to_string()).to_reason().1, "zzz");
    assert_eq!(
        TantexError::FailedToCreateIndex("/p".to_string(), "why".to_string()).to_reason().1,
        "/p: why"
    );
    assert_eq!(
        TantexError::InvalidFieldData(TokenType::I64, "id".to_string()).to_reason().1,
        "i64: id"
    );
    assert_eq!(
        TantexError::TypeCannotBeSearched(TokenType::Bytes).to_reason().1,
        "bytes"
    );
    assert_eq!(TantexError::NameCannotBeBlank.to_reason().1, "");
}
