//! The stateful lifecycle owner: schema builder, then finalized schema,
//! then opened index.  The machine is strictly forward-only and single
//! use; every operation is valid in exactly one phase and reports a
//! wrong-phase error in the others.

use vstd::prelude::*;

use tantivy::schema::{Field, Schema, SchemaBuilder};
use tantivy::{Index, IndexReader};

use crate::doc_action::{
    apply_actions, build_actions, doc_encodes, doc_keys_ok, key_avoids_trigram, serialized_among,
    Document,
};
use crate::engine::{
    builder_add_bytes_field, builder_add_facet_field, builder_add_i64_field,
    builder_add_text_field, builder_add_u64_field, builder_build, builder_field_names,
    builder_fields, document_to_json, fetch_doc, field_of_schema, index_reader, index_writer,
    lemma_doc_within_transfer, lemma_same_fields_symmetric, new_schema_builder, parse_document,
    query_fields_of, query_parser_for_index, reader_reload, reader_schema, reader_searcher,
    same_fields, schema_of_index, searcher_schema, term_field, term_from_i64, term_from_text,
    term_from_u64, term_query, writer_add_document, writer_commit,
};
use crate::field_config::{
    build_int_options, build_string_options, build_text_options, build_trigram_options,
    FieldConfig,
};
use crate::host_value::{
    i64_spec, string_spec, term_to_i64, term_to_string, term_to_u64, u64_spec, HostValue,
};
use crate::index::open_or_create_index;
use crate::tantex_error::TantexError;
use crate::token_type::TokenType;
use crate::utils::{
    distinct_names, fetch_entry_index, fetch_field, fetch_schema_fields, first_unknown,
    hit_or_not_found, lemma_config_unique, model_config, model_has_field, model_of, names_of,
    parse_query, search_with_limit,
};

verus! {

/// One declared field: its name, its validated configuration, and the
/// engine's handle for it.
pub struct FieldEntry {
    pub name: String,
    pub config: FieldConfig,
    pub handle: Field,
}

/// The lifecycle phase; each variant carries exactly the data valid for
/// that phase.
pub enum Phase {
    /// The schema is still being built.
    Building { builder: SchemaBuilder, fields: Vec<FieldEntry> },
    /// The schema is finalized; no index is open yet.
    Finalized { schema: Schema, fields: Vec<FieldEntry> },
    /// The index at `index_path` is open for reads and writer sessions.
    Opened {
        schema: Schema,
        fields: Vec<FieldEntry>,
        index: Index,
        reader: IndexReader,
        index_path: String,
    },
}

/// The schema/index lifecycle owner.
pub struct SchemaIndex {
    phase: Phase,
}

impl SchemaIndex {
    /// The declared fields, in declaration order.
    pub closed spec fn entries(self) -> Seq<FieldEntry> {
        match self.phase {
            Phase::Building { fields, .. } => fields@,
            Phase::Finalized { fields, .. } => fields@,
            Phase::Opened { fields, .. } => fields@,
        }
    }

    /// The declared schema as plain values: each field's name and its
    /// configuration, in declaration order.
    pub open spec fn fields_model(self) -> Seq<(Seq<char>, FieldConfig)> {
        model_of(self.entries())
    }

    /// Whether some declared field bears this name.
    pub open spec fn has_field(self, name: Seq<char>) -> bool {
        model_has_field(self.fields_model(), name)
    }

    pub closed spec fn is_building(self) -> bool {
        self.phase is Building
    }

    pub closed spec fn is_finalized(self) -> bool {
        self.phase is Finalized
    }

    pub closed spec fn is_opened(self) -> bool {
        self.phase is Opened
    }

    /// The path the index was opened at.
    pub closed spec fn path_model(self) -> Seq<char> {
        match self.phase {
            Phase::Opened { index_path, .. } => index_path@,
            _ => Seq::<char>::empty(),
        }
    }

    /// Well-formedness: field names are distinct and non-blank; while
    /// building, the engine's builder holds exactly the declared names and
    /// every declared handle; once finalized, every declared handle is a
    /// field of the schema; and once opened, the index carries the same
    /// fields as the schema and the reader serves the index's schema —
    /// the couplings under which the engine's by-id lookups cannot trip.
    pub closed spec fn wf(self) -> bool {
        &&& distinct_names(self.fields_model())
        &&& (forall|i: int|
            0 <= i < self.fields_model().len() ==> (#[trigger] self.fields_model()[i].0).len() > 0)
        &&& (self.phase matches Phase::Building { builder, fields } ==> ((forall|n: Seq<char>|
            builder_field_names(builder).contains(n) <==> self.has_field(n)) && (forall|k: int|
            0 <= k < fields@.len() ==> builder_fields(builder).contains(
                (#[trigger] fields@[k]).handle,
            ))))
        &&& (self.phase matches Phase::Finalized { schema, fields } ==> (forall|k: int|
            0 <= k < fields@.len() ==> field_of_schema((#[trigger] fields@[k]).handle, schema)))
        &&& (self.phase matches Phase::Opened { schema, fields, index, reader, .. } ==> ((forall|
            k: int,
        |
            0 <= k < fields@.len() ==> field_of_schema((#[trigger] fields@[k]).handle, schema))
            && same_fields(schema, schema_of_index(index)) && reader_schema(reader)
            == schema_of_index(index)))
    }

    /// The machine is always in exactly one phase, and never returns to
    /// an earlier one: once `finalize_schema` succeeds the builder is
    /// gone, so a second call fails, and once `open_index` succeeds the
    /// machine is no longer finalized, so a second open fails too.
    pub proof fn lemma_one_phase(self)
        ensures
            self.is_building() ==> !self.is_finalized() && !self.is_opened(),
            self.is_finalized() ==> !self.is_building() && !self.is_opened(),
            self.is_opened() ==> !self.is_building() && !self.is_finalized(),
            self.is_building() || self.is_finalized() || self.is_opened(),
    {
    }

    /// A fresh lifecycle in the building phase with no fields declared.
    pub fn new() -> (s: SchemaIndex)
        ensures
            s.wf(),
            s.is_building(),
            s.fields_model() == Seq::<(Seq<char>, FieldConfig)>::empty(),
    {
        let s = SchemaIndex {
            phase: Phase::Building { builder: new_schema_builder(), fields: Vec::new() },
        };
        proof {
            assert(s.entries() =~= Seq::<FieldEntry>::empty());
            assert(s.fields_model() =~= Seq::<(Seq<char>, FieldConfig)>::empty());
        }
        s
    }

    /// Whether some declared field bears this name, for callers that must
    /// rule out a duplicate before declaring a field.
    pub fn has_field_named(&self, name: &str) -> (r: bool)
        ensures
            r == self.has_field(name@),
    {
        let fields = match &self.phase {
            Phase::Building { fields, .. } => fields,
            Phase::Finalized { fields, .. } => fields,
            Phase::Opened { fields, .. } => fields,
        };
        proof {
            assert(model_of(fields@) == self.fields_model());
        }
        match fetch_entry_index(fields, name) {
            Some(_) => true,
            None => false,
        }
    }

    /// Whether the machine is still in the building phase, for callers
    /// that must test a building-phase precondition before a call.
    pub fn in_building_phase(&self) -> (r: bool)
        ensures
            r == self.is_building(),
    {
        match &self.phase {
            Phase::Building { .. } => true,
            _ => false,
        }
    }

    /// Whether an index is open, for callers that must test an
    /// opened-phase precondition before a call.
    pub fn in_opened_phase(&self) -> (r: bool)
        ensures
            r == self.is_opened(),
    {
        match &self.phase {
            Phase::Opened { .. } => true,
            _ => false,
        }
    }

    /// Whether the document can be encoded against the declared schema as
    /// far as its keys go: no key may resolve to a trigram field, whose
    /// inbound decoding the schema's own rules rule out.
    pub fn document_writable(&self, document: &Document) -> (r: bool)
        requires
            self.wf(),
        ensures
            r == doc_keys_ok(self.fields_model(), *document),
    {
        let fields = match &self.phase {
            Phase::Building { fields, .. } => fields,
            Phase::Finalized { fields, .. } => fields,
            Phase::Opened { fields, .. } => fields,
        };
        proof {
            assert(model_of(fields@) == self.fields_model());
        }
        let pairs = match document {
            Document::Serialized(_) => {
                return true;
            },
            Document::Mapping(pairs) => pairs,
        };
        proof {
            assert(*document matches Document::Mapping(p) && p@ == pairs@);
        }
        let ghost model = self.fields_model();
        let mut k: usize = 0;
        while k < pairs.len()
            invariant
                k <= pairs@.len(),
                self.wf(),
                model == self.fields_model(),
                model == model_of(fields@),
                doc_keys_ok(model, *document) == crate::doc_action::mapping_keys_ok(model, pairs@),
                forall|i: int| 0 <= i < k ==> key_avoids_trigram(model, #[trigger] pairs@[i].0@),
            decreases pairs@.len() - k,
        {
            match term_to_string(&pairs[k].0) {
                Err(_) => {},
                Ok(key) => {
                    match fetch_entry_index(fields, key.as_str()) {
                        None => {},
                        Some(idx) => {
                            proof {
                                assert(model[idx as int].0 == key@);
                                lemma_config_unique(model, key@, idx as int);
                            }
                            match fields[idx].config {
                                FieldConfig::Trigram { .. } => {
                                    proof {
                                        assert(model_config(model, key@) is Trigram);
                                        assert(!key_avoids_trigram(model, pairs@[k as int].0@));
                                        assert(!crate::doc_action::mapping_keys_ok(
                                            model,
                                            pairs@,
                                        )) by {
                                            assert(0 <= k < pairs@.len());
                                            assert(!key_avoids_trigram(
                                                model,
                                                pairs@[k as int].0@,
                                            ));
                                        }
                                    }
                                    return false;
                                },
                                _ => {},
                            }
                        },
                    }
                },
            }
            k = k + 1;
        }
        true
    }

    /// Declares one field.  Valid only while building; a blank name is
    /// rejected first.  On success the field is appended to the declared
    /// schema.  A name may be declared only once and must not start with
    /// `-`: the engine panics on a duplicate or invalid name, so both are
    /// ruled out, and the host boundary tests them before calling.
    pub fn add_field(&mut self, name: &str, field_config: FieldConfig) -> (r: Result<
        (),
        TantexError,
    >)
        requires
            old(self).wf(),
            old(self).is_building() && name@.len() > 0 ==> name@[0] != '-' && !old(
                self,
            ).has_field(name@),
        ensures
            final(self).wf(),
            final(self).is_building() == old(self).is_building(),
            final(self).is_finalized() == old(self).is_finalized(),
            final(self).is_opened() == old(self).is_opened(),
            r matches Err(TantexError::NameCannotBeBlank) <==> name@.len() == 0,
            name@.len() == 0 ==> *final(self) == *old(self),
            name@.len() > 0 ==> (r matches Err(TantexError::SchemaBuilderNotFound) <==> !old(
                self,
            ).is_building()),
            name@.len() > 0 && !old(self).is_building() ==> *final(self) == *old(self),
            name@.len() > 0 && old(self).is_building() ==> (r is Ok && final(self).fields_model()
                == old(self).fields_model().push((name@, field_config))),
    {
        if name.is_empty() {
            return Err(TantexError::NameCannotBeBlank);
        }
        match &self.phase {
            Phase::Building { .. } => {},
            _ => {
                return Err(TantexError::SchemaBuilderNotFound);
            },
        }
        let mut ph = Phase::Building { builder: new_schema_builder(), fields: Vec::new() };
        core::mem::swap(&mut self.phase, &mut ph);
        match ph {
            Phase::Building { mut builder, mut fields } => {
                let handle = match field_config {
                    FieldConfig::I64 { stored, fast } => builder_add_i64_field(
                        &mut builder,
                        name,
                        build_int_options(stored, fast),
                    ),
                    FieldConfig::U64 { stored, fast } => builder_add_u64_field(
                        &mut builder,
                        name,
                        build_int_options(stored, fast),
                    ),
                    FieldConfig::Text { stored } => builder_add_text_field(
                        &mut builder,
                        name,
                        build_text_options(stored),
                    ),
                    FieldConfig::Str { stored } => builder_add_text_field(
                        &mut builder,
                        name,
                        build_string_options(stored),
                    ),
                    FieldConfig::Trigram { stored } => builder_add_text_field(
                        &mut builder,
                        name,
                        build_trigram_options(stored),
                    ),
                    FieldConfig::Facet => builder_add_facet_field(&mut builder, name),
                    FieldConfig::Bytes => builder_add_bytes_field(&mut builder, name),
                };
                fields.push(FieldEntry { name: name.to_owned(), config: field_config, handle });
                let ghost builder_after = builder;
                let ghost fields_after = fields@;
                self.phase = Phase::Building { builder, fields };
                proof {
                    let oldm = old(self).fields_model();
                    let newm = self.fields_model();
                    assert(newm =~= oldm.push((name@, field_config)));
                    assert forall|n: Seq<char>|
                        self.has_field(n) <==> (old(self).has_field(n) || n == name@) by {
                        if self.has_field(n) {
                            let i = choose|i: int|
                                0 <= i < newm.len() && #[trigger] newm[i].0 == n;
                            if i < newm.len() - 1 {
                                assert(oldm[i].0 == n);
                            }
                        }
                        if old(self).has_field(n) {
                            let i = choose|i: int|
                                0 <= i < oldm.len() && #[trigger] oldm[i].0 == n;
                            assert(newm[i].0 == n);
                        }
                        if n == name@ {
                            assert(newm[newm.len() - 1].0 == n);
                        }
                    }
                    assert forall|i: int, j: int|
                        0 <= i < j < newm.len() implies #[trigger] newm[i].0
                        != #[trigger] newm[j].0 by {
                        if j < newm.len() - 1 {
                            assert(oldm[i].0 != oldm[j].0);
                        } else {
                            assert(newm[j].0 == name@);
                            if newm[i].0 == name@ {
                                assert(oldm[i].0 == name@);
                                assert(old(self).has_field(name@));
                            }
                        }
                    }
                    assert forall|i: int|
                        0 <= i < newm.len() implies (#[trigger] newm[i].0).len() > 0 by {
                        if i == newm.len() - 1 {
                            assert(newm[i].0 == name@);
                        } else {
                            assert(oldm[i].0.len() > 0);
                        }
                    }
                    assert(self.phase matches Phase::Building { builder: b2, fields: f2 } && b2
                        == builder_after && f2@ == fields_after);
                    assert forall|k: int|
                        0 <= k < fields_after.len() implies builder_fields(
                        builder_after,
                    ).contains((#[trigger] fields_after[k]).handle) by {
                        if k < fields_after.len() - 1 {
                            assert(old(self).phase matches Phase::Building {
                                builder: b0,
                                fields: f0,
                            } && builder_fields(b0).contains(f0@[k].handle) && f0@[k]
                                == fields_after[k]);
                        }
                    }
                }
                Ok(())
            },
            _ => unreached(),
        }
    }

    /// Finalizes the schema: consumes the builder exactly once, moving
    /// the machine from building to finalized; in any other phase the
    /// builder is gone and the call fails.
    pub fn finalize_schema(&mut self) -> (r: Result<(), TantexError>)
        requires
            old(self).wf(),
        ensures
            final(self).wf(),
            final(self).fields_model() == old(self).fields_model(),
            r matches Err(TantexError::SchemaBuilderNotFound) <==> !old(self).is_building(),
            old(self).is_building() ==> (r is Ok && final(self).is_finalized()),
            !old(self).is_building() ==> *final(self) == *old(self),
    {
        match &self.phase {
            Phase::Building { .. } => {},
            _ => {
                return Err(TantexError::SchemaBuilderNotFound);
            },
        }
        let mut ph = Phase::Building { builder: new_schema_builder(), fields: Vec::new() };
        core::mem::swap(&mut self.phase, &mut ph);
        match ph {
            Phase::Building { builder, fields } => {
                let ghost builder_snapshot = builder;
                let schema = builder_build(builder);
                self.phase = Phase::Finalized { schema, fields };
                proof {
                    assert forall|k: int|
                        0 <= k < fields@.len() implies field_of_schema(
                        (#[trigger] fields@[k]).handle,
                        schema,
                    ) by {
                        assert(builder_fields(builder_snapshot).contains(fields@[k].handle));
                    }
                }
                Ok(())
            },
            _ => unreached(),
        }
    }

    /// Opens an existing on-disk index at `path`, or creates a fresh one
    /// there from the finalized schema.  Valid exactly once, in the
    /// finalized phase: before finalizing, and after a successful open,
    /// the call fails with the schema-missing error.  On failure the
    /// machine stays finalized and may be retried.
    pub fn open_index(&mut self, index_path: &str) -> (r: Result<(), TantexError>)
        requires
            old(self).wf(),
        ensures
            final(self).wf(),
            final(self).fields_model() == old(self).fields_model(),
            r matches Err(TantexError::SchemaNotFound) <==> !old(self).is_finalized(),
            !old(self).is_finalized() ==> *final(self) == *old(self),
            old(self).is_finalized() && r is Ok ==> final(self).is_opened()
                && final(self).path_model() == index_path@,
            old(self).is_finalized() && r is Err ==> (final(self).is_finalized() && (r matches Err(
                e,
            ) ==> ((e matches TantexError::PathDoesNotExist(p) && p@ == index_path@) || (
            e matches TantexError::FailedToCreateIndex(p, _) && p@ == index_path@)))),
    {
        match &self.phase {
            Phase::Finalized { .. } => {},
            _ => {
                return Err(TantexError::SchemaNotFound);
            },
        }
        let index = match &self.phase {
            Phase::Finalized { schema, .. } => match open_or_create_index(index_path, schema) {
                Ok(index) => index,
                Err(e) => {
                    return Err(e);
                },
            },
            _ => unreached(),
        };
        let reader = match index_reader(&index) {
            Ok(reader) => reader,
            Err(detail) => {
                return Err(TantexError::FailedToCreateIndex(index_path.to_owned(), detail));
            },
        };
        let mut ph = Phase::Building { builder: new_schema_builder(), fields: Vec::new() };
        core::mem::swap(&mut self.phase, &mut ph);
        match ph {
            Phase::Finalized { schema, fields } => {
                self.phase = Phase::Opened {
                    schema,
                    fields,
                    index,
                    reader,
                    index_path: index_path.to_owned(),
                };
                Ok(())
            },
            _ => unreached(),
        }
    }

    /// Writes the documents in a fresh writer session sized by
    /// `heap_size`, in the order supplied, then commits, then refreshes
    /// the readers.  Valid only with an opened index, and only then are
    /// mapping keys decoded, so only then must they stay off trigram
    /// fields.  Encoding stops at the first invalid document, so an
    /// ill-encoded batch never reaches the commit and nothing is made
    /// durable; a failed reader refresh is reported even though the
    /// commit already succeeded.  On success the last-committed
    /// generation stamp comes back.
    pub fn write_documents(&self, documents: Vec<Document>, heap_size: usize) -> (r: Result<
        u64,
        TantexError,
    >)
        requires
            self.wf(),
            self.is_opened() ==> forall|i: int|
                0 <= i < documents@.len() ==> doc_keys_ok(
                    self.fields_model(),
                    #[trigger] documents@[i],
                ),
        ensures
            r matches Err(TantexError::IndexNotFound) <==> !self.is_opened(),
            (exists|i: int|
                0 <= i < documents@.len() && !doc_encodes(
                    self.fields_model(),
                    #[trigger] documents@[i],
                )) ==> (r is Err && !(r matches Err(TantexError::FailedToWriteToIndex(_))) && !(
            r matches Err(TantexError::FailedToLoadSearchers(_)))),
            r is Ok ==> self.is_opened() && (forall|i: int|
                0 <= i < documents@.len() ==> doc_encodes(
                    self.fields_model(),
                    #[trigger] documents@[i],
                )),
            r matches Err(e) ==> (e is IndexNotFound || e is FailedToCreateIndexWriter
                || e is InvalidDocumentJSON || e is FieldNotFound || e is InvalidUTF8
                || e is TermCannotBeString || e is TermCannotBeInt64 || e is TermCannotBeUInt64
                || e is Exceeded8Bytes || e is UnhandledDocActionCombo
                || e is FailedToWriteToIndex || e is FailedToLoadSearchers),
            r matches Err(TantexError::InvalidDocumentJSON(d, _)) ==> serialized_among(
                documents@,
                d@,
            ),
    {
        let (schema, fields, index, reader) = match &self.phase {
            Phase::Opened { schema, fields, index, reader, .. } => (schema, fields, index, reader),
            _ => {
                return Err(TantexError::IndexNotFound);
            },
        };
        proof {
            assert(model_of(fields@) == self.fields_model());
        }
        let mut writer = match index_writer(index, heap_size) {
            Ok(writer) => writer,
            Err(detail) => {
                return Err(TantexError::FailedToCreateIndexWriter(detail));
            },
        };
        let mut k: usize = 0;
        while k < documents.len()
            invariant
                k <= documents@.len(),
                self.wf(),
                self.is_opened(),
                model_of(fields@) == self.fields_model(),
                forall|i: int|
                    0 <= i < documents@.len() ==> doc_keys_ok(
                        self.fields_model(),
                        #[trigger] documents@[i],
                    ),
                forall|i: int|
                    0 <= i < k ==> doc_encodes(self.fields_model(), #[trigger] documents@[i]),
            decreases documents@.len() - k,
        {
            match &documents[k] {
                Document::Serialized(json) => match parse_document(schema, json.as_str()) {
                    Ok(doc) => {
                        let _ = writer_add_document(&writer, doc);
                    },
                    Err(detail) => {
                        return Err(TantexError::InvalidDocumentJSON(json.clone(), detail));
                    },
                },
                Document::Mapping(pairs) => match build_actions(fields, pairs) {
                    Ok(actions) => {
                        let doc = apply_actions(&actions);
                        let _ = writer_add_document(&writer, doc);
                    },
                    Err(e) => {
                        return Err(e);
                    },
                },
            }
            k = k + 1;
        }
        let stamp = match writer_commit(&mut writer) {
            Ok(stamp) => stamp,
            Err(detail) => {
                return Err(TantexError::FailedToWriteToIndex(detail));
            },
        };
        match reader_reload(reader) {
            Ok(()) => Ok(stamp),
            Err(detail) => Err(TantexError::FailedToLoadSearchers(detail)),
        }
    }

    /// Resolves the requested fields, parses the pattern against them,
    /// and runs a bounded search, hydrating each ranked hit to its
    /// serialized form.  Valid only with an opened index; an unknown
    /// field name fails first, before any query is parsed or executed; a
    /// limit of zero yields an empty result, not an error; a single
    /// failed hydration aborts the whole call.
    pub fn limit_search(&self, field_strings: Vec<String>, pattern: &str, limit: usize) -> (r:
        Result<Vec<String>, TantexError>)
        requires
            self.wf(),
        ensures
            r matches Err(TantexError::SchemaNotFound) <==> self.is_building(),
            r matches Err(TantexError::IndexNotFound) <==> self.is_finalized(),
            self.is_opened() ==> match first_unknown(
                self.fields_model(),
                names_of(field_strings@),
            ) {
                Some(n) => r matches Err(TantexError::FieldNotFound(m)) && m@ == n,
                None => {
                    &&& (r matches Ok(docs) ==> docs@.len() <= limit)
                    &&& (limit == 0 ==> ((r matches Ok(docs) && docs@.len() == 0) || (r matches Err(
                        TantexError::InvalidQuery(p),
                    ) && p@ == pattern@)))
                    &&& (r matches Err(e) ==> ((e matches TantexError::InvalidQuery(p) && p@
                        == pattern@) || e is SearchExecutionFailed || e is DocumentRetrievalFailed))
                },
            },
    {
        let (schema, fields, index, reader) = match &self.phase {
            Phase::Building { .. } => {
                return Err(TantexError::SchemaNotFound);
            },
            Phase::Finalized { .. } => {
                return Err(TantexError::IndexNotFound);
            },
            Phase::Opened { schema, fields, index, reader, .. } => (schema, fields, index, reader),
        };
        proof {
            assert(model_of(fields@) == self.fields_model());
        }
        let handles = match fetch_schema_fields(fields, &field_strings) {
            Ok(handles) => handles,
            Err(e) => {
                return Err(e);
            },
        };
        proof {
            assert(same_fields(*schema, schema_of_index(*index)));
            assert forall|k: int|
                0 <= k < handles@.len() implies field_of_schema(
                #[trigger] handles@[k],
                schema_of_index(*index),
            ) by {
                let j = choose|j: int|
                    0 <= j < fields@.len() && #[trigger] fields@[j].name@ == field_strings@[k]@
                        && fields@[j].handle == handles@[k];
                assert(field_of_schema(fields@[j].handle, *schema));
            }
        }
        let parser = query_parser_for_index(index, handles);
        let query = match parse_query(&parser, pattern) {
            Ok(query) => query,
            Err(e) => {
                return Err(e);
            },
        };
        let searcher = reader_searcher(reader);
        proof {
            assert(searcher_schema(searcher) == schema_of_index(*index));
            lemma_same_fields_symmetric(*schema, schema_of_index(*index));
        }
        let hits = match search_with_limit(&searcher, &query, limit) {
            Ok(hits) => hits,
            Err(e) => {
                return Err(e);
            },
        };
        let mut json_docs: Vec<String> = Vec::new();
        let mut k: usize = 0;
        while k < hits.len()
            invariant
                k <= hits@.len(),
                json_docs@.len() == k,
                self.is_opened(),
                !self.is_building(),
                !self.is_finalized(),
                hits@.len() <= limit,
                limit == 0 ==> hits@.len() == 0,
                first_unknown(self.fields_model(), names_of(field_strings@)) is None,
                forall|i: int|
                    0 <= i < hits@.len() ==> crate::engine::address_of_searcher(
                        #[trigger] hits@[i],
                        searcher,
                    ),
                same_fields(searcher_schema(searcher), *schema),
            decreases hits@.len() - k,
        {
            match fetch_doc(&searcher, &hits[k]) {
                Ok(doc) => {
                    proof {
                        lemma_doc_within_transfer(doc, searcher_schema(searcher), *schema);
                    }
                    json_docs.push(document_to_json(schema, &doc))
                },
                Err(detail) => {
                    return Err(TantexError::DocumentRetrievalFailed(detail));
                },
            }
            k = k + 1;
        }
        Ok(json_docs)
    }

    /// Looks one document up by an exact text term on the named field.
    /// Valid only with an opened index; an unknown field fails with
    /// field-not-found; zero hits is the normal document-not-found
    /// outcome, never an empty success.
    pub fn fetch_one_by_text(&self, field_name: &str, text: &str) -> (r: Result<
        String,
        TantexError,
    >)
        requires
            self.wf(),
        ensures
            r matches Err(TantexError::SchemaNotFound) <==> self.is_building(),
            r matches Err(TantexError::IndexNotFound) <==> self.is_finalized(),
            self.is_opened() && !self.has_field(field_name@) ==> (r matches Err(
                TantexError::FieldNotFound(n),
            ) && n@ == field_name@),
            self.is_opened() && self.has_field(field_name@) ==> (r matches Err(e) ==> (
            e is SearchExecutionFailed || e is DocumentNotFound || e is DocumentRetrievalFailed)),
    {
        let (schema, fields, index_ref, reader) = match &self.phase {
            Phase::Building { .. } => {
                return Err(TantexError::SchemaNotFound);
            },
            Phase::Finalized { .. } => {
                return Err(TantexError::IndexNotFound);
            },
            Phase::Opened { schema, fields, index, reader, .. } => (schema, fields, index, reader),
        };
        proof {
            assert(model_of(fields@) == self.fields_model());
        }
        let handle = match fetch_field(fields, field_name) {
            Ok(handle) => handle,
            Err(e) => {
                return Err(e);
            },
        };
        proof {
            assert(same_fields(*schema, schema_of_index(*index_ref)));
            let j = choose|j: int|
                0 <= j < fields@.len() && #[trigger] fields@[j].name@ == field_name@
                    && fields@[j].handle == handle;
            assert(field_of_schema(fields@[j].handle, *schema));
            assert(field_of_schema(handle, schema_of_index(*index_ref)));
        }
        let term = term_from_text(handle, text);
        let query = term_query(term);
        let searcher = reader_searcher(reader);
        proof {
            assert(searcher_schema(searcher) == schema_of_index(*index_ref));
            assert(field_of_schema(term_field(term), searcher_schema(searcher)));
            assert(query_fields_of(query, searcher_schema(searcher)));
            lemma_same_fields_symmetric(*schema, schema_of_index(*index_ref));
        }
        let hits = match search_with_limit(&searcher, &query, 1) {
            Ok(hits) => hits,
            Err(e) => {
                return Err(e);
            },
        };
        let first = match hit_or_not_found(&hits) {
            Ok(first) => first,
            Err(e) => {
                return Err(e);
            },
        };
        match fetch_doc(&searcher, first) {
            Ok(doc) => {
                proof {
                    lemma_doc_within_transfer(doc, searcher_schema(searcher), *schema);
                }
                Ok(document_to_json(schema, &doc))
            },
            Err(detail) => Err(TantexError::DocumentRetrievalFailed(detail)),
        }
    }

    /// Looks one document up by an exact term built from a raw host
    /// value.  The value must already match the field's declared type —
    /// integer fields take the signed or unsigned reading, text-like
    /// fields take text — and a mismatch is reported as invalid field
    /// data naming the expected type; bytes and facet fields are not
    /// searchable by exact term.  The field and the value are judged
    /// before the phase, so an unknown field or a mismatch is reported
    /// even while no index is open.
    pub fn find_one_by_term(&self, field_name: &str, value: &HostValue) -> (r: Result<
        String,
        TantexError,
    >)
        requires
            self.wf(),
        ensures
            r matches Err(TantexError::SchemaNotFound) <==> self.is_building(),
            self.is_opened() ==> !(r matches Err(TantexError::IndexNotFound)),
            !self.is_building() && !self.has_field(field_name@) ==> (r matches Err(
                TantexError::FieldNotFound(n),
            ) && n@ == field_name@),
            !self.is_building() && self.has_field(field_name@) ==> match model_config(
                self.fields_model(),
                field_name@,
            ) {
                FieldConfig::I64 { .. } => {
                    &&& (i64_spec(value@) is Err ==> (r matches Err(TantexError::InvalidFieldData(
                        t,
                        n,
                    )) && t == TokenType::I64 && n@ == field_name@))
                    &&& (i64_spec(value@) is Ok && self.is_finalized() ==> r matches Err(
                        TantexError::IndexNotFound,
                    ))
                    &&& (i64_spec(value@) is Ok && self.is_opened() ==> (r matches Err(e) ==> (
                    e is SearchExecutionFailed || e is DocumentNotFound
                        || e is DocumentRetrievalFailed)))
                },
                FieldConfig::U64 { .. } => {
                    &&& (u64_spec(value@) is Err ==> (r matches Err(TantexError::InvalidFieldData(
                        t,
                        n,
                    )) && t == TokenType::U64 && n@ == field_name@))
                    &&& (u64_spec(value@) is Ok && self.is_finalized() ==> r matches Err(
                        TantexError::IndexNotFound,
                    ))
                    &&& (u64_spec(value@) is Ok && self.is_opened() ==> (r matches Err(e) ==> (
                    e is SearchExecutionFailed || e is DocumentNotFound
                        || e is DocumentRetrievalFailed)))
                },
                FieldConfig::Facet => r matches Err(TantexError::TypeCannotBeSearched(t)) && t
                    == TokenType::Facet,
                FieldConfig::Bytes => r matches Err(TantexError::TypeCannotBeSearched(t)) && t
                    == TokenType::Bytes,
                _ => {
                    &&& (string_spec(value@) is Err ==> (r matches Err(
                        TantexError::InvalidFieldData(t, n),
                    ) && t == TokenType::Str && n@ == field_name@))
                    &&& (string_spec(value@) is Ok && self.is_finalized() ==> r matches Err(
                        TantexError::IndexNotFound,
                    ))
                    &&& (string_spec(value@) is Ok && self.is_opened() ==> (r matches Err(e) ==> (
                    e is SearchExecutionFailed || e is DocumentNotFound
                        || e is DocumentRetrievalFailed)))
                },
            },
    {
        let fields = match &self.phase {
            Phase::Building { .. } => {
                return Err(TantexError::SchemaNotFound);
            },
            Phase::Finalized { fields, .. } => fields,
            Phase::Opened { fields, .. } => fields,
        };
        proof {
            assert(model_of(fields@) == self.fields_model());
        }
        let idx = match fetch_entry_index(fields, field_name) {
            Some(idx) => idx,
            None => {
                return Err(TantexError::FieldNotFound(field_name.to_owned()));
            },
        };
        let config = fields[idx].config;
        let handle = fields[idx].handle;
        proof {
            assert(self.fields_model()[idx as int].0 == field_name@);
            lemma_config_unique(self.fields_model(), field_name@, idx as int);
        }
        let term = match config {
            FieldConfig::I64 { .. } => match term_to_i64(value) {
                Ok(x) => term_from_i64(handle, x),
                Err(_) => {
                    return Err(
                        TantexError::InvalidFieldData(TokenType::I64, field_name.to_owned()),
                    );
                },
            },
            FieldConfig::U64 { .. } => match term_to_u64(value) {
                Ok(x) => term_from_u64(handle, x),
                Err(_) => {
                    return Err(
                        TantexError::InvalidFieldData(TokenType::U64, field_name.to_owned()),
                    );
                },
            },
            FieldConfig::Facet => {
                return Err(TantexError::TypeCannotBeSearched(TokenType::Facet));
            },
            FieldConfig::Bytes => {
                return Err(TantexError::TypeCannotBeSearched(TokenType::Bytes));
            },
            _ => match term_to_string(value) {
                Ok(s) => term_from_text(handle, s.as_str()),
                Err(_) => {
                    return Err(
                        TantexError::InvalidFieldData(TokenType::Str, field_name.to_owned()),
                    );
                },
            },
        };
        let (schema, reader) = match &self.phase {
            Phase::Opened { schema, reader, .. } => (schema, reader),
            _ => {
                return Err(TantexError::IndexNotFound);
            },
        };
        let query = term_query(term);
        let searcher = reader_searcher(reader);
        let hits = match search_with_limit(&searcher, &query, 1) {
            Ok(hits) => hits,
            Err(e) => {
                return Err(e);
            },
        };
        let first = match hit_or_not_found(&hits) {
            Ok(first) => first,
            Err(e) => {
                return Err(e);
            },
        };
        match fetch_doc(&searcher, first) {
            Ok(doc) => Ok(document_to_json(schema, &doc)),
            Err(detail) => Err(TantexError::DocumentRetrievalFailed(detail)),
        }
    }
}

} // verus!
