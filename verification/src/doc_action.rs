//! Encoding one caller-supplied document — a key-to-value mapping in the
//! host's dynamic value model — into typed field additions, field by
//! field against the declared schema, failing on the first invalid pair.

use vstd::prelude::*;

use tantivy::schema::Field;
use tantivy::TantivyDocument;

use crate::engine::{doc_add_bytes, doc_add_i64, doc_add_text, doc_add_u64, doc_entries, new_document};
use crate::field_config::FieldConfig;
use crate::host_value::{
    i64_spec, string_spec, term_to_i64, term_to_string, term_to_u64, u64_spec, CoerceRejection,
    HostValue, HostValueModel,
};
use crate::schema_index::FieldEntry;
use crate::tantex_error::TantexError;
use crate::token_type::TokenType;
use vstd::string::StringExecFns;

use crate::utils::{
    distinct_names, fetch_entry_index, lemma_config_unique, model_config, model_has_field, model_of,
    resolved_handle_ok,
};

verus! {

/// One typed addition to an engine document.
pub enum DocAction {
    AddText(Field, String),
    AddBytes(Field, Vec<u8>),
    AddI64(Field, i64),
    AddU64(Field, u64),
}

/// One caller-supplied document: either a pre-serialized textual form for
/// the engine's parser, or a key-to-value mapping to be encoded field by
/// field.
pub enum Document {
    Serialized(String),
    Mapping(Vec<(HostValue, HostValue)>),
}

/// The semantic category a declared field decodes inbound values under.
pub open spec fn token_of_config(config: FieldConfig) -> TokenType {
    match config {
        FieldConfig::I64 { .. } => TokenType::I64,
        FieldConfig::U64 { .. } => TokenType::U64,
        FieldConfig::Text { .. } => TokenType::Text,
        FieldConfig::Str { .. } => TokenType::Str,
        FieldConfig::Trigram { .. } => TokenType::Str,
        FieldConfig::Facet => TokenType::Facet,
        FieldConfig::Bytes => TokenType::Bytes,
    }
}

/// A typed addition as plain values.
pub enum ActionModel {
    Text(Seq<char>),
    Bytes(Seq<u8>),
    I64(int),
    U64(int),
}

/// Why a (key, value) pair fails to encode.
pub enum EncodeFailure {
    /// The key's bytes are not valid UTF-8.
    KeyNotUtf8,
    /// The key has no textual shape.
    KeyNotText,
    /// No declared field bears the key's name.
    UnknownField(Seq<char>),
    /// A textual value's bytes are not valid UTF-8.
    ValueNotUtf8,
    /// The value has no textual shape though the field wants text.
    ValueNotText,
    /// An integer magnitude is longer than eight bytes.
    MagnitudeTooLong,
    /// The value has no signed 64-bit reading.
    NotSigned64,
    /// The value has no unsigned 64-bit reading.
    NotUnsigned64,
    /// No decoding rule covers this token type and value shape.
    Unhandled,
}

/// What encoding one (key, value) pair comes to: the key is read as text
/// and resolved to a declared field, and the value is decoded under the
/// field's token type — text and exact-match fields take text, bytes
/// fields take a raw byte sequence with no coercion, integer fields take
/// the signed or unsigned reading, and anything else is unhandled.
pub open spec fn action_spec(
    model: Seq<(Seq<char>, FieldConfig)>,
    key: HostValueModel,
    value: HostValueModel,
) -> Result<ActionModel, EncodeFailure> {
    match string_spec(key) {
        Err(CoerceRejection::NotUtf8) => Err(EncodeFailure::KeyNotUtf8),
        Err(_) => Err(EncodeFailure::KeyNotText),
        Ok(k) => if !model_has_field(model, k) {
            Err(EncodeFailure::UnknownField(k))
        } else {
            match token_of_config(model_config(model, k)) {
                TokenType::Text => text_action_spec(value),
                TokenType::Str => text_action_spec(value),
                TokenType::Bytes => match value {
                    HostValueModel::Bytes(b) => Ok(ActionModel::Bytes(b)),
                    _ => Err(EncodeFailure::Unhandled),
                },
                TokenType::I64 => match i64_spec(value) {
                    Ok(x) => Ok(ActionModel::I64(x)),
                    Err(CoerceRejection::TooLong) => Err(EncodeFailure::MagnitudeTooLong),
                    Err(_) => Err(EncodeFailure::NotSigned64),
                },
                TokenType::U64 => match u64_spec(value) {
                    Ok(x) => Ok(ActionModel::U64(x)),
                    Err(CoerceRejection::TooLong) => Err(EncodeFailure::MagnitudeTooLong),
                    Err(_) => Err(EncodeFailure::NotUnsigned64),
                },
                TokenType::Facet => Err(EncodeFailure::Unhandled),
            }
        },
    }
}

/// The value decoded as text for a text-like field.
pub open spec fn text_action_spec(value: HostValueModel) -> Result<ActionModel, EncodeFailure> {
    match string_spec(value) {
        Ok(s) => Ok(ActionModel::Text(s)),
        Err(CoerceRejection::NotUtf8) => Err(EncodeFailure::ValueNotUtf8),
        Err(_) => Err(EncodeFailure::ValueNotText),
    }
}

/// Whether the bytes are exactly the textual payload of the value.
pub open spec fn carries_bytes_of(v: HostValueModel, b: Seq<u8>) -> bool {
    ||| v matches HostValueModel::Binary(bb) && b == bb
    ||| v matches HostValueModel::Bytes(bb) && b == bb
}

/// The (field, payload) entry one typed addition puts into a document.
pub open spec fn action_entry(action: DocAction) -> (Field, ActionModel) {
    match action {
        DocAction::AddText(f, t) => (f, ActionModel::Text(t@)),
        DocAction::AddBytes(f, b) => (f, ActionModel::Bytes(b@)),
        DocAction::AddI64(f, v) => (f, ActionModel::I64(v as int)),
        DocAction::AddU64(f, v) => (f, ActionModel::U64(v as int)),
    }
}

/// The entries a sequence of typed additions puts into a document, in
/// order.
pub open spec fn entries_of_actions(actions: Seq<DocAction>) -> Seq<(Field, ActionModel)> {
    actions.map_values(|a: DocAction| action_entry(a))
}

/// Whether the key stays away from trigram fields, whose inbound decoding
/// the schema's own rules rule out.
pub open spec fn key_avoids_trigram(
    model: Seq<(Seq<char>, FieldConfig)>,
    key: HostValueModel,
) -> bool {
    match string_spec(key) {
        Ok(k) => model_has_field(model, k) ==> !(model_config(model, k) is Trigram),
        Err(_) => true,
    }
}

/// Whether the action is the one `action_spec` asks for, attached to the
/// right field's handle.
pub open spec fn action_matches(
    entries: Seq<FieldEntry>,
    key: HostValueModel,
    value: HostValueModel,
    action: DocAction,
) -> bool {
    match action_spec(model_of(entries), key, value) {
        Err(_) => false,
        Ok(a) => {
            &&& (string_spec(key) matches Ok(k) && match action {
                DocAction::AddText(f, _) => resolved_handle_ok(entries, k, f),
                DocAction::AddBytes(f, _) => resolved_handle_ok(entries, k, f),
                DocAction::AddI64(f, _) => resolved_handle_ok(entries, k, f),
                DocAction::AddU64(f, _) => resolved_handle_ok(entries, k, f),
            })
            &&& match a {
                ActionModel::Text(s) => action matches DocAction::AddText(_, t) && t@ == s,
                ActionModel::Bytes(b) => action matches DocAction::AddBytes(_, v) && v@ == b,
                ActionModel::I64(x) => action matches DocAction::AddI64(_, v) && v as int == x,
                ActionModel::U64(x) => action matches DocAction::AddU64(_, v) && v as int == x,
            }
        },
    }
}

impl DocAction {
    /// Encodes one (key, value) pair against the declared schema, exactly
    /// as `action_spec` says, reporting each failure under its own error
    /// kind.
    pub fn build(fields: &Vec<FieldEntry>, key: &HostValue, value: &HostValue) -> (r: Result<
        DocAction,
        TantexError,
    >)
        requires
            distinct_names(model_of(fields@)),
            key_avoids_trigram(model_of(fields@), key@),
        ensures
            r is Ok <==> action_spec(model_of(fields@), key@, value@) is Ok,
            r matches Ok(a) ==> action_matches(fields@, key@, value@, a),
            action_spec(model_of(fields@), key@, value@) matches Err(failure) ==> match failure {
                EncodeFailure::KeyNotUtf8 => (r matches Err(TantexError::InvalidUTF8(b))
                    && carries_bytes_of(key@, b@)),
                EncodeFailure::KeyNotText => r matches Err(TantexError::TermCannotBeString(_)),
                EncodeFailure::UnknownField(k) => r matches Err(TantexError::FieldNotFound(n))
                    && n@ == k,
                EncodeFailure::ValueNotUtf8 => (r matches Err(TantexError::InvalidUTF8(b))
                    && carries_bytes_of(value@, b@)),
                EncodeFailure::ValueNotText => r matches Err(TantexError::TermCannotBeString(_)),
                EncodeFailure::MagnitudeTooLong => (r matches Err(TantexError::Exceeded8Bytes(m))
                    && value@ matches HostValueModel::Big { magnitude, .. } && m@ == magnitude),
                EncodeFailure::NotSigned64 => r matches Err(TantexError::TermCannotBeInt64(_)),
                EncodeFailure::NotUnsigned64 => r matches Err(TantexError::TermCannotBeUInt64(_)),
                EncodeFailure::Unhandled => r matches Err(TantexError::UnhandledDocActionCombo(_)),
            },
    {
        let ghost model = model_of(fields@);
        let key_string = match term_to_string(key) {
            Ok(s) => s,
            Err(e) => {
                return Err(e);
            },
        };
        let idx = match fetch_entry_index(fields, key_string.as_str()) {
            Some(i) => i,
            None => {
                return Err(TantexError::FieldNotFound(key_string));
            },
        };
        let config = fields[idx].config;
        let handle = fields[idx].handle;
        proof {
            assert(model[idx as int].0 == key_string@);
            lemma_config_unique(model, key_string@, idx as int);
            assert(model_config(model, key_string@) == config);
        }
        let token = TokenType::from_field_type(&config.engine_type());
        proof {
            reveal_strlit("default");
            reveal_strlit("raw");
            assert("default"@.len() == 7);
            assert("raw"@.len() == 3);
        }
        match token {
            TokenType::Text => match term_to_string(value) {
                Ok(t) => Ok(DocAction::AddText(handle, t)),
                Err(e) => Err(e),
            },
            TokenType::Str => match term_to_string(value) {
                Ok(t) => Ok(DocAction::AddText(handle, t)),
                Err(e) => Err(e),
            },
            TokenType::Bytes => match value {
                HostValue::Bytes(b) => Ok(DocAction::AddBytes(handle, b.clone())),
                _ => Err(
                    TantexError::UnhandledDocActionCombo(
                        token.name().concat(": ").concat(value.describe().as_str()),
                    ),
                ),
            },
            TokenType::I64 => match term_to_i64(value) {
                Ok(x) => Ok(DocAction::AddI64(handle, x)),
                Err(e) => Err(e),
            },
            TokenType::U64 => match term_to_u64(value) {
                Ok(x) => Ok(DocAction::AddU64(handle, x)),
                Err(e) => Err(e),
            },
            TokenType::Facet => Err(
                TantexError::UnhandledDocActionCombo(
                    token.name().concat(": ").concat(value.describe().as_str()),
                ),
            ),
        }
    }
}

/// Whether every pair of the mapping encodes.
pub open spec fn mapping_encodes(
    model: Seq<(Seq<char>, FieldConfig)>,
    pairs: Seq<(HostValue, HostValue)>,
) -> bool {
    forall|i: int|
        0 <= i < pairs.len() ==> action_spec(model, #[trigger] pairs[i].0@, pairs[i].1@) is Ok
}

/// Whether every key of the mapping stays away from trigram fields.
pub open spec fn mapping_keys_ok(
    model: Seq<(Seq<char>, FieldConfig)>,
    pairs: Seq<(HostValue, HostValue)>,
) -> bool {
    forall|i: int| 0 <= i < pairs.len() ==> key_avoids_trigram(model, #[trigger] pairs[i].0@)
}

/// Encodes a whole mapping into typed additions, stopping at the first
/// pair that fails with that pair's own error; on success every pair's
/// addition stands at its pair's position.
pub fn build_actions(fields: &Vec<FieldEntry>, pairs: &Vec<(HostValue, HostValue)>) -> (r: Result<
    Vec<DocAction>,
    TantexError,
>)
    requires
        distinct_names(model_of(fields@)),
        mapping_keys_ok(model_of(fields@), pairs@),
    ensures
        r is Ok <==> mapping_encodes(model_of(fields@), pairs@),
        r matches Err(e) ==> (e is FieldNotFound || e is InvalidUTF8 || e is TermCannotBeString
            || e is TermCannotBeInt64 || e is TermCannotBeUInt64 || e is Exceeded8Bytes
            || e is UnhandledDocActionCombo),
        r matches Ok(actions) ==> actions@.len() == pairs@.len() && (forall|i: int|
            0 <= i < pairs@.len() ==> action_matches(
                fields@,
                pairs@[i].0@,
                pairs@[i].1@,
                #[trigger] actions@[i],
            )),
{
    let ghost model = model_of(fields@);
    let mut actions: Vec<DocAction> = Vec::new();
    let mut k: usize = 0;
    while k < pairs.len()
        invariant
            k <= pairs@.len(),
            model == model_of(fields@),
            distinct_names(model),
            mapping_keys_ok(model, pairs@),
            actions@.len() == k,
            forall|i: int|
                0 <= i < k ==> action_matches(
                    fields@,
                    pairs@[i].0@,
                    pairs@[i].1@,
                    #[trigger] actions@[i],
                ),
            forall|i: int|
                0 <= i < k ==> action_spec(model, #[trigger] pairs@[i].0@, pairs@[i].1@) is Ok,
        decreases pairs@.len() - k,
    {
        let pair = &pairs[k];
        match DocAction::build(fields, &pair.0, &pair.1) {
            Ok(action) => {
                actions.push(action);
            },
            Err(e) => {
                return Err(e);
            },
        }
        k = k + 1;
    }
    Ok(actions)
}

/// Whether some document of the sequence is the serialized form with this
/// text.
pub open spec fn serialized_among(documents: Seq<Document>, d: Seq<char>) -> bool {
    exists|i: int|
        0 <= i < documents.len() && ((#[trigger] documents[i]) matches Document::Serialized(s)
            && s@ == d)
}

/// Whether a caller-supplied document encodes: serialized forms go to the
/// engine's parser, so only mappings are judged here.
pub open spec fn doc_encodes(model: Seq<(Seq<char>, FieldConfig)>, d: Document) -> bool {
    match d {
        Document::Serialized(_) => true,
        Document::Mapping(pairs) => mapping_encodes(model, pairs@),
    }
}

/// Whether a caller-supplied document's keys stay away from trigram
/// fields.
pub open spec fn doc_keys_ok(model: Seq<(Seq<char>, FieldConfig)>, d: Document) -> bool {
    match d {
        Document::Serialized(_) => true,
        Document::Mapping(pairs) => mapping_keys_ok(model, pairs@),
    }
}

/// Replays typed additions into a fresh engine document, which then
/// holds exactly the additions' entries, in order.
pub fn apply_actions(actions: &Vec<DocAction>) -> (d: TantivyDocument)
    ensures
        doc_entries(d) == entries_of_actions(actions@),
{
    let mut doc = new_document();
    let mut k: usize = 0;
    proof {
        assert(entries_of_actions(actions@.subrange(0, 0)) =~= Seq::<(
            Field,
            ActionModel,
        )>::empty());
    }
    while k < actions.len()
        invariant
            k <= actions@.len(),
            doc_entries(doc) == entries_of_actions(actions@.subrange(0, k as int)),
        decreases actions@.len() - k,
    {
        match &actions[k] {
            DocAction::AddText(field, text) => doc_add_text(&mut doc, *field, text.as_str()),
            DocAction::AddBytes(field, bytes) => doc_add_bytes(&mut doc, *field, bytes),
            DocAction::AddI64(field, value) => doc_add_i64(&mut doc, *field, *value),
            DocAction::AddU64(field, value) => doc_add_u64(&mut doc, *field, *value),
        }
        proof {
            assert(entries_of_actions(actions@.subrange(0, k + 1)) =~= entries_of_actions(
                actions@.subrange(0, k as int),
            ).push(action_entry(actions@[k as int])));
        }
        k = k + 1;
    }
    proof {
        assert(actions@.subrange(0, actions@.len() as int) =~= actions@);
    }
    doc
}

} // verus!
