//! The closed error taxonomy.  Every operation of this library returns
//! either a success value or one of these kinds; engine-internal errors are
//! wrapped with their diagnostic text preserved, never passed through.

use vstd::prelude::*;
use vstd::string::StringExecFns;

use crate::token_type::TokenType;

verus! {

/// Every failure this library can report.  Engine errors arrive as
/// pre-rendered diagnostic strings; values that failed to coerce carry the
/// offending payload.
#[derive(Debug)]
pub enum TantexError {
    /// The field kind does not support fast random access.
    TypeCannotBeFast(String),
    /// The field kind string is not one of the known kinds.
    InvalidType(String),
    /// The field kind cannot be marked stored.
    TypeIsNotStored(String),
    /// A field name must be non-empty.
    NameCannotBeBlank,
    /// The parent location of the index path is absent.
    PathDoesNotExist(String),
    /// Opening or creating the index failed: path, then engine diagnostic.
    FailedToCreateIndex(String, String),
    /// The engine refused to open a writer session.
    FailedToCreateIndexWriter(String),
    /// The commit step failed; nothing was made durable.
    FailedToWriteToIndex(String),
    /// Commit succeeded but refreshing the readers failed: the documents
    /// are durable yet not visible to subsequent reads.
    FailedToLoadSearchers(String),
    /// No declared field has this name.
    FieldNotFound(String),
    /// A point lookup matched no document: a normal, expected outcome.
    DocumentNotFound,
    /// The pattern did not parse under the engine's query grammar.
    InvalidQuery(String),
    /// The engine failed while executing a search.
    SearchExecutionFailed(String),
    /// The engine failed while hydrating a ranked hit.
    DocumentRetrievalFailed(String),
    /// A serialized document did not parse: the document, then the
    /// engine diagnostic.
    InvalidDocumentJSON(String, String),
    /// The operation needs the schema builder, but the phase has moved on.
    SchemaBuilderNotFound,
    /// The operation needs a finalized schema and there is none.
    SchemaNotFound,
    /// The operation needs an opened index and there is none.
    IndexNotFound,
    /// Exact-term lookups only work on integer and string fields.
    TypeCannotBeSearched(TokenType),
    /// The raw lookup value does not match the field's declared type:
    /// expected type, then field name.
    InvalidFieldData(TokenType, String),
    /// An inbound document must be a key-to-value mapping.
    DocumentMustBeMap(String),
    /// No decoding rule covers this token type and value shape.
    UnhandledDocActionCombo(String),
    /// A textual value was not valid UTF-8; carries the offending bytes.
    InvalidUTF8(Vec<u8>),
    /// A big-integer magnitude was longer than eight bytes; carries the
    /// magnitude.
    Exceeded8Bytes(Vec<u8>),
    /// The value cannot be read as a signed 64-bit integer.
    TermCannotBeInt64(String),
    /// The value cannot be read as an unsigned 64-bit integer.
    TermCannotBeUInt64(String),
    /// The value cannot be read as a UTF-8 string.
    TermCannotBeString(String),
}

impl TantexError {
    /// The stable machine-checkable tag of this failure kind.
    pub open spec fn tag_spec(self) -> Seq<char> {
        match self {
            TantexError::TypeCannotBeFast(_) => "cannot_be_fast"@,
            TantexError::InvalidType(_) => "invalid_type"@,
            TantexError::TypeIsNotStored(_) => "cannot_be_stored"@,
            TantexError::NameCannotBeBlank => "name_cannot_be_blank"@,
            TantexError::PathDoesNotExist(_) => "path_does_not_exist"@,
            TantexError::FailedToCreateIndex(_, _) => "failed_to_create_index"@,
            TantexError::FailedToCreateIndexWriter(_) => "failed_to_create_index_writer"@,
            TantexError::FailedToWriteToIndex(_) => "failed_to_write_to_index"@,
            TantexError::FailedToLoadSearchers(_) => "failed_to_load_searchers"@,
            TantexError::FieldNotFound(_) => "field_not_found"@,
            TantexError::DocumentNotFound => "document_not_found"@,
            TantexError::InvalidQuery(_) => "invalid_query_format"@,
            TantexError::SearchExecutionFailed(_) => "search_execution_failed"@,
            TantexError::DocumentRetrievalFailed(_) => "document_retrieval_failed"@,
            TantexError::InvalidDocumentJSON(_, _) => "invalid_document_json"@,
            TantexError::SchemaBuilderNotFound => "schema_builder_not_found"@,
            TantexError::SchemaNotFound => "schema_not_found"@,
            TantexError::IndexNotFound => "index_not_found"@,
            TantexError::TypeCannotBeSearched(_) => "type_cannot_be_searched"@,
            TantexError::InvalidFieldData(_, _) => "invalid_field_data"@,
            TantexError::DocumentMustBeMap(_) => "document_must_be_map"@,
            TantexError::UnhandledDocActionCombo(_) => "unhandled_doc_action_combo"@,
            TantexError::InvalidUTF8(_) => "invalid_utf8"@,
            TantexError::Exceeded8Bytes(_) => "exceeded_8_bytes"@,
            TantexError::TermCannotBeInt64(_) => "term_cannot_be_int64"@,
            TantexError::TermCannotBeUInt64(_) => "term_cannot_be_uint64"@,
            TantexError::TermCannotBeString(_) => "term_cannot_be_string"@,
        }
    }

    /// The free-form detail rendered beside the tag.
    pub open spec fn detail_spec(self) -> Seq<char> {
        match self {
            TantexError::TypeCannotBeFast(kind) => kind@,
            TantexError::InvalidType(kind) => kind@,
            TantexError::TypeIsNotStored(kind) => kind@,
            TantexError::NameCannotBeBlank => Seq::<char>::empty(),
            TantexError::PathDoesNotExist(path) => path@,
            TantexError::FailedToCreateIndex(path, detail) => path@ + ": "@ + detail@,
            TantexError::FailedToCreateIndexWriter(detail) => detail@,
            TantexError::FailedToWriteToIndex(detail) => detail@,
            TantexError::FailedToLoadSearchers(detail) => detail@,
            TantexError::FieldNotFound(name) => name@,
            TantexError::DocumentNotFound => Seq::<char>::empty(),
            TantexError::InvalidQuery(pattern) => pattern@,
            TantexError::SearchExecutionFailed(detail) => detail@,
            TantexError::DocumentRetrievalFailed(detail) => detail@,
            TantexError::InvalidDocumentJSON(doc, detail) => doc@ + ": "@ + detail@,
            TantexError::SchemaBuilderNotFound => Seq::<char>::empty(),
            TantexError::SchemaNotFound => Seq::<char>::empty(),
            TantexError::IndexNotFound => Seq::<char>::empty(),
            TantexError::TypeCannotBeSearched(token) => token.name_spec(),
            TantexError::InvalidFieldData(token, name) => token.name_spec() + ": "@ + name@,
            TantexError::DocumentMustBeMap(detail) => detail@,
            TantexError::UnhandledDocActionCombo(detail) => detail@,
            TantexError::InvalidUTF8(_) => "value is not valid utf-8"@,
            TantexError::Exceeded8Bytes(_) => "magnitude longer than eight bytes"@,
            TantexError::TermCannotBeInt64(detail) => detail@,
            TantexError::TermCannotBeUInt64(detail) => detail@,
            TantexError::TermCannotBeString(detail) => detail@,
        }
    }

    /// Renders the failure as its stable (tag, detail) pair, the form in
    /// which every error crosses the call boundary.
    pub fn to_reason(&self) -> (r: (String, String))
        ensures
            r.0@ == self.tag_spec(),
            r.1@ == self.detail_spec(),
    {
        match self {
            TantexError::TypeCannotBeFast(kind) => (
                String::from_str("cannot_be_fast"),
                kind.clone(),
            ),
            TantexError::InvalidType(kind) => (String::from_str("invalid_type"), kind.clone()),
            TantexError::TypeIsNotStored(kind) => (
                String::from_str("cannot_be_stored"),
                kind.clone(),
            ),
            TantexError::NameCannotBeBlank => (
                String::from_str("name_cannot_be_blank"),
                String::new(),
            ),
            TantexError::PathDoesNotExist(path) => (
                String::from_str("path_does_not_exist"),
                path.clone(),
            ),
            TantexError::FailedToCreateIndex(path, detail) => (
                String::from_str("failed_to_create_index"),
                path.clone().concat(": ").concat(detail.as_str()),
            ),
            TantexError::FailedToCreateIndexWriter(detail) => (
                String::from_str("failed_to_create_index_writer"),
                detail.clone(),
            ),
            TantexError::FailedToWriteToIndex(detail) => (
                String::from_str("failed_to_write_to_index"),
                detail.clone(),
            ),
            TantexError::FailedToLoadSearchers(detail) => (
                String::from_str("failed_to_load_searchers"),
                detail.clone(),
            ),
            TantexError::FieldNotFound(name) => (
                String::from_str("field_not_found"),
                name.clone(),
            ),
            TantexError::DocumentNotFound => (
                String::from_str("document_not_found"),
                String::new(),
            ),
            TantexError::InvalidQuery(pattern) => (
                String::from_str("invalid_query_format"),
                pattern.clone(),
            ),
            TantexError::SearchExecutionFailed(detail) => (
                String::from_str("search_execution_failed"),
                detail.clone(),
            ),
            TantexError::DocumentRetrievalFailed(detail) => (
                String::from_str("document_retrieval_failed"),
                detail.clone(),
            ),
            TantexError::InvalidDocumentJSON(doc, detail) => (
                String::from_str("invalid_document_json"),
                doc.clone().concat(": ").concat(detail.as_str()),
            ),
            TantexError::SchemaBuilderNotFound => (
                String::from_str("schema_builder_not_found"),
                String::new(),
            ),
            TantexError::SchemaNotFound => (String::from_str("schema_not_found"), String::new()),
            TantexError::IndexNotFound => (String::from_str("index_not_found"), String::new()),
            TantexError::TypeCannotBeSearched(token) => (
                String::from_str("type_cannot_be_searched"),
                token.name(),
            ),
            TantexError::InvalidFieldData(token, name) => (
                String::from_str("invalid_field_data"),
                token.name().concat(": ").concat(name.as_str()),
            ),
            TantexError::DocumentMustBeMap(detail) => (
                String::from_str("document_must_be_map"),
                detail.clone(),
            ),
            TantexError::UnhandledDocActionCombo(detail) => (
                String::from_str("unhandled_doc_action_combo"),
                detail.clone(),
            ),
            TantexError::InvalidUTF8(_) => (
                String::from_str("invalid_utf8"),
                String::from_str("value is not valid utf-8"),
            ),
            TantexError::Exceeded8Bytes(_) => (
                String::from_str("exceeded_8_bytes"),
                String::from_str("magnitude longer than eight bytes"),
            ),
            TantexError::TermCannotBeInt64(detail) => (
                String::from_str("term_cannot_be_int64"),
                detail.clone(),
            ),
            TantexError::TermCannotBeUInt64(detail) => (
                String::from_str("term_cannot_be_uint64"),
                detail.clone(),
            ),
            TantexError::TermCannotBeString(detail) => (
                String::from_str("term_cannot_be_string"),
                detail.clone(),
            ),
        }
    }
}

} // verus!
