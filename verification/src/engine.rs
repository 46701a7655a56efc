//! The trusted boundary to the tantivy engine.
//!
//! Everything the library asks of the engine goes through the items here:
//! each wrapper makes one engine call (plus the conversion of its
//! arguments and result) and states only what the engine's own source and
//! documentation show.  Besides the calls' results, the contracts track
//! how the engine's opaque values belong together — which schema a field,
//! a parser, a searcher, a query, an address or a document is tied to —
//! because the engine looks fields, segments and documents up by raw id
//! and panics on a foreign one.  Every wrapper that would panic on a
//! foreign pairing requires the pairing it relies on; the names below
//! state the pairings, and the lifecycle owner's invariant discharges
//! them.

use vstd::prelude::*;

use crate::doc_action::ActionModel;
use tantivy::query::{Query, QueryParser, TermQuery};
use tantivy::schema::{
    BytesOptions, Document, FacetOptions, Field, IndexRecordOption, NumericOptions, Schema,
    SchemaBuilder, Term, TextFieldIndexing, TextOptions,
};
use tantivy::{DocAddress, Index, IndexReader, IndexWriter, Searcher, TantivyDocument};

verus! {

#[verifier::external_type_specification]
#[verifier::external_body]
pub struct ExSchemaBuilder(SchemaBuilder);

#[verifier::external_type_specification]
#[verifier::external_body]
pub struct ExSchema(Schema);

#[verifier::external_type_specification]
#[verifier::external_body]
pub struct ExField(Field);

#[verifier::external_type_specification]
#[verifier::external_body]
pub struct ExNumericOptions(NumericOptions);

#[verifier::external_type_specification]
#[verifier::external_body]
pub struct ExTextOptions(TextOptions);

#[verifier::external_type_specification]
#[verifier::external_body]
pub struct ExIndex(Index);

#[verifier::external_type_specification]
#[verifier::external_body]
pub struct ExIndexReader(IndexReader);

/// A writer session of the engine, held opaquely: the engine's writer
/// type is generic over its document type, which Verus refuses to
/// declare.
#[verifier::external_body]
pub struct WriterHandle {
    inner: IndexWriter<TantivyDocument>,
}

#[verifier::external_type_specification]
#[verifier::external_body]
pub struct ExSearcher(Searcher);

#[verifier::external_type_specification]
#[verifier::external_body]
pub struct ExQueryParser(QueryParser);

/// An exact-match term of the engine, held opaquely: the engine's term
/// type is generic over its byte storage, which Verus refuses to
/// declare.
#[verifier::external_body]
pub struct EngineTerm {
    inner: Term,
}

#[verifier::external_type_specification]
#[verifier::external_body]
pub struct ExDocAddress(DocAddress);

#[verifier::external_type_specification]
#[verifier::external_body]
pub struct ExTantivyDocument(TantivyDocument);

/// A parsed query, held behind the engine's query trait.
#[verifier::external_body]
pub struct ParsedQuery {
    inner: Box<dyn Query>,
}

/// The names of the fields added to a schema builder so far.
pub uninterp spec fn builder_field_names(b: SchemaBuilder) -> Set<Seq<char>>;

/// The field handles a schema builder has given out so far.
pub uninterp spec fn builder_fields(b: SchemaBuilder) -> Set<Field>;

/// Whether the handle denotes a field of the schema.
pub uninterp spec fn field_of_schema(f: Field, s: Schema) -> bool;

/// The schema an index carries.  A schema is an immutable shared handle,
/// so every retrieval from the same index denotes the same schema value.
pub uninterp spec fn schema_of_index(i: Index) -> Schema;

/// The schema a reader pool serves.
pub uninterp spec fn reader_schema(r: IndexReader) -> Schema;

/// The schema a searcher resolves fields and documents under.
pub uninterp spec fn searcher_schema(s: Searcher) -> Schema;

/// Whether a query parser's default fields belong to its own schema, the
/// condition under which parsing cannot trip over a foreign field.
pub uninterp spec fn parser_wf(p: QueryParser) -> bool;

/// The schema a query parser resolves fields under.
pub uninterp spec fn parser_schema(p: QueryParser) -> Schema;

/// Whether every field the query touches is a field of the schema.
pub uninterp spec fn query_fields_of(q: ParsedQuery, s: Schema) -> bool;

/// The field an exact-match term was built for.
pub uninterp spec fn term_field(t: EngineTerm) -> Field;

/// Whether the address came from a search on this searcher, so that its
/// segment ordinal is one of the searcher's segments.
pub uninterp spec fn address_of_searcher(a: DocAddress, s: Searcher) -> bool;

/// Whether the document carries this field.
pub uninterp spec fn doc_has_field(d: TantivyDocument, f: Field) -> bool;

/// Whether every field the document carries is a field of the schema.
pub open spec fn doc_within_schema(d: TantivyDocument, s: Schema) -> bool {
    forall|f: Field| #[trigger] doc_has_field(d, f) ==> field_of_schema(f, s)
}

/// Whether the two schemas declare the same field handles.
pub open spec fn same_fields(a: Schema, b: Schema) -> bool {
    forall|f: Field| #[trigger] field_of_schema(f, a) <==> field_of_schema(f, b)
}

/// Declaring the same fields is symmetric.
pub proof fn lemma_same_fields_symmetric(a: Schema, b: Schema)
    requires
        same_fields(a, b),
    ensures
        same_fields(b, a),
{
    assert forall|f: Field| #[trigger] field_of_schema(f, b) <==> field_of_schema(f, a) by {
        assert(field_of_schema(f, a) <==> field_of_schema(f, b));
    }
}

/// Declaring the same fields carries over a middle schema.
pub proof fn lemma_same_fields_transitive(a: Schema, b: Schema, c: Schema)
    requires
        same_fields(a, b),
        same_fields(b, c),
    ensures
        same_fields(a, c),
{
    assert forall|f: Field| #[trigger] field_of_schema(f, a) <==> field_of_schema(f, c) by {
        assert(field_of_schema(f, a) <==> field_of_schema(f, b));
        assert(field_of_schema(f, b) <==> field_of_schema(f, c));
    }
}

/// A document within one of two schemas declaring the same fields is
/// within the other.
pub proof fn lemma_doc_within_transfer(d: TantivyDocument, a: Schema, b: Schema)
    requires
        doc_within_schema(d, a),
        same_fields(a, b),
    ensures
        doc_within_schema(d, b),
{
    assert forall|f: Field| #[trigger] doc_has_field(d, f) implies field_of_schema(f, b) by {
        assert(field_of_schema(f, a));
    }
}

/// Relies on `Schema::builder`: a fresh builder holds no fields.
#[verifier::external_body]
pub(crate) fn new_schema_builder() -> (b: SchemaBuilder)
    ensures
        builder_field_names(b) == Set::<Seq<char>>::empty(),
{
    Schema::builder()
}

/// Relies on `NumericOptions::set_indexed` on the default options: an
/// indexed integer column.
#[verifier::external_body]
pub(crate) fn numeric_options_indexed() -> NumericOptions {
    NumericOptions::default().set_indexed()
}

/// Relies on `NumericOptions::set_stored`.
#[verifier::external_body]
pub(crate) fn numeric_options_stored(options: NumericOptions) -> NumericOptions {
    options.set_stored()
}

/// Relies on `NumericOptions::set_fast`.
#[verifier::external_body]
pub(crate) fn numeric_options_fast(options: NumericOptions) -> NumericOptions {
    options.set_fast()
}

/// Relies on the `TEXT` constant: tokenized, analyzed text options with
/// the "default" tokenizer.
#[verifier::external_body]
pub(crate) fn text_options_tokenized() -> TextOptions {
    tantivy::schema::TEXT
}

/// Relies on the `STRING` constant: exact-match text options with the
/// "raw" tokenizer.
#[verifier::external_body]
pub(crate) fn text_options_raw() -> TextOptions {
    tantivy::schema::STRING
}

/// Relies on `TextOptions::set_indexing_options` with a
/// `TextFieldIndexing` whose tokenizer is "trigram" and whose record
/// option keeps frequencies and positions: substring-oriented indexing.
#[verifier::external_body]
pub(crate) fn text_options_trigram() -> TextOptions {
    let indexing = TextFieldIndexing::default().set_tokenizer("trigram").set_index_option(
        IndexRecordOption::WithFreqsAndPositions,
    );
    TextOptions::default().set_indexing_options(indexing)
}

/// Relies on `TextOptions::set_stored`.
#[verifier::external_body]
pub(crate) fn text_options_stored(options: TextOptions) -> TextOptions {
    options.set_stored()
}

/// Relies on `SchemaBuilder::add_u64_field`: registers the named field and
/// returns its handle.  The engine panics on a duplicate name and asserts
/// `is_valid_field_name` (non-empty, not starting with `-`), so the name
/// must be new and valid.
#[verifier::external_body]
pub(crate) fn builder_add_u64_field(
    b: &mut SchemaBuilder,
    name: &str,
    options: NumericOptions,
) -> (f: Field)
    requires
        name@.len() > 0,
        name@[0] != '-',
        !builder_field_names(*old(b)).contains(name@),
    ensures
        builder_field_names(*final(b)) == builder_field_names(*old(b)).insert(name@),
        builder_fields(*final(b)) == builder_fields(*old(b)).insert(f),
{
    b.add_u64_field(name, options)
}

/// Relies on `SchemaBuilder::add_i64_field`; the name must be new and
/// valid (non-empty, not starting with `-`), the engine panics otherwise.
#[verifier::external_body]
pub(crate) fn builder_add_i64_field(
    b: &mut SchemaBuilder,
    name: &str,
    options: NumericOptions,
) -> (f: Field)
    requires
        name@.len() > 0,
        name@[0] != '-',
        !builder_field_names(*old(b)).contains(name@),
    ensures
        builder_field_names(*final(b)) == builder_field_names(*old(b)).insert(name@),
        builder_fields(*final(b)) == builder_fields(*old(b)).insert(f),
{
    b.add_i64_field(name, options)
}

/// Relies on `SchemaBuilder::add_text_field`; the name must be new and
/// valid (non-empty, not starting with `-`), the engine panics otherwise.
#[verifier::external_body]
pub(crate) fn builder_add_text_field(
    b: &mut SchemaBuilder,
    name: &str,
    options: TextOptions,
) -> (f: Field)
    requires
        name@.len() > 0,
        name@[0] != '-',
        !builder_field_names(*old(b)).contains(name@),
    ensures
        builder_field_names(*final(b)) == builder_field_names(*old(b)).insert(name@),
        builder_fields(*final(b)) == builder_fields(*old(b)).insert(f),
{
    b.add_text_field(name, options)
}

/// Relies on `SchemaBuilder::add_bytes_field` with indexed bytes options;
/// the name must be new and valid (non-empty, not starting with `-`), the
/// engine panics otherwise.
#[verifier::external_body]
pub(crate) fn builder_add_bytes_field(b: &mut SchemaBuilder, name: &str) -> (f: Field)
    requires
        name@.len() > 0,
        name@[0] != '-',
        !builder_field_names(*old(b)).contains(name@),
    ensures
        builder_field_names(*final(b)) == builder_field_names(*old(b)).insert(name@),
        builder_fields(*final(b)) == builder_fields(*old(b)).insert(f),
{
    b.add_bytes_field(name, BytesOptions::default().set_indexed())
}

/// Relies on `SchemaBuilder::add_facet_field` with the default facet
/// options; the name must be new and valid (non-empty, not starting with
/// `-`), the engine panics otherwise.
#[verifier::external_body]
pub(crate) fn builder_add_facet_field(b: &mut SchemaBuilder, name: &str) -> (f: Field)
    requires
        name@.len() > 0,
        name@[0] != '-',
        !builder_field_names(*old(b)).contains(name@),
    ensures
        builder_field_names(*final(b)) == builder_field_names(*old(b)).insert(name@),
        builder_fields(*final(b)) == builder_fields(*old(b)).insert(f),
{
    b.add_facet_field(name, FacetOptions::default())
}

/// Relies on `SchemaBuilder::build`: finalizes the immutable schema, in
/// which every handle the builder gave out denotes a field (field ids are
/// positional and building keeps them).
#[verifier::external_body]
pub(crate) fn builder_build(b: SchemaBuilder) -> (s: Schema)
    ensures
        forall|f: Field| builder_fields(b).contains(f) ==> #[trigger] field_of_schema(f, s),
{
    b.build()
}

/// Relies on `Schema::clone`: the clone of the shared immutable handle
/// declares the same fields.
#[verifier::external_body]
pub(crate) fn clone_schema(schema: &Schema) -> (r: Schema)
    ensures
        same_fields(r, *schema),
{
    schema.clone()
}

/// Relies on `Index::schema`: the schema the index was opened with.
#[verifier::external_body]
pub(crate) fn index_schema(index: &Index) -> (r: Schema)
    ensures
        r == schema_of_index(*index),
{
    index.schema()
}

/// Relies on `Schema`'s derived `PartialEq`: whether the two schemas
/// declare the same field entries with the same options — under which
/// they declare the same field handles.
#[verifier::external_body]
pub(crate) fn schema_eq(a: &Schema, b: &Schema) -> (r: bool)
    ensures
        r ==> same_fields(*a, *b),
{
    a == b
}

/// What opening or creating an on-disk index came to.
pub enum OpenOutcome {
    /// The index is ready.
    Opened(Index),
    /// The directory at the path does not exist.
    PathMissing,
    /// Any other engine failure, rendered as text.
    Failed(String),
}

/// Relies on `Index::open_in_dir`: opens an existing index.  A missing
/// directory is reported as `OpenDirectoryError::DoesNotExist`, and a
/// directory holding no index yet as a missing `meta.json`
/// (`OpenReadError::FileDoesNotExist`); either way there is nothing to
/// open and creation should be tried.
#[verifier::external_body]
pub(crate) fn try_open_in_dir(path: &str) -> OpenOutcome {
    match Index::open_in_dir(path) {
        Ok(index) => OpenOutcome::Opened(index),
        Err(tantivy::TantivyError::OpenDirectoryError(
            tantivy::directory::error::OpenDirectoryError::DoesNotExist(_),
        )) => OpenOutcome::PathMissing,
        Err(tantivy::TantivyError::OpenReadError(
            tantivy::directory::error::OpenReadError::FileDoesNotExist(_),
        )) => OpenOutcome::PathMissing,
        Err(e) => OpenOutcome::Failed(format!("{e:?}")),
    }
}

/// Relies on `Index::create_in_dir`: creates a fresh index carrying
/// exactly the given schema's fields in an existing directory; a missing
/// directory is reported as `OpenDirectoryError::DoesNotExist`.
#[verifier::external_body]
pub(crate) fn try_create_in_dir(path: &str, schema: Schema) -> (outcome: OpenOutcome)
    ensures
        outcome matches OpenOutcome::Opened(i) ==> same_fields(schema, schema_of_index(i)),
{
    match Index::create_in_dir(path, schema) {
        Ok(index) => OpenOutcome::Opened(index),
        Err(tantivy::TantivyError::OpenDirectoryError(
            tantivy::directory::error::OpenDirectoryError::DoesNotExist(_),
        )) => OpenOutcome::PathMissing,
        Err(e) => OpenOutcome::Failed(format!("{e:?}")),
    }
}

/// Relies on `Index::reader`: a reader pool over the index's current
/// searchable state, serving the index's own schema.
#[verifier::external_body]
pub(crate) fn index_reader(index: &Index) -> (r: Result<IndexReader, String>)
    ensures
        r matches Ok(reader) ==> reader_schema(reader) == schema_of_index(*index),
{
    match index.reader() {
        Ok(reader) => Ok(reader),
        Err(e) => Err(format!("{e:?}")),
    }
}

/// Relies on `IndexReader::reload`: makes documents committed since the
/// last reload visible to subsequent searchers.
#[verifier::external_body]
pub(crate) fn reader_reload(reader: &IndexReader) -> Result<(), String> {
    match reader.reload() {
        Ok(()) => Ok(()),
        Err(e) => Err(format!("{e:?}")),
    }
}

/// Relies on `IndexReader::searcher`: a searcher over a consistent
/// segment set, resolving fields under the reader's schema.
#[verifier::external_body]
pub(crate) fn reader_searcher(reader: &IndexReader) -> (r: Searcher)
    ensures
        searcher_schema(r) == reader_schema(*reader),
{
    reader.searcher()
}

/// Relies on `Index::writer`: a writer session with the given overall
/// memory budget; the engine refuses budgets outside its bounds and a
/// second concurrent writer.
#[verifier::external_body]
pub(crate) fn index_writer(index: &Index, heap_size: usize) -> Result<WriterHandle, String> {
    match index.writer::<TantivyDocument>(heap_size) {
        Ok(writer) => Ok(WriterHandle { inner: writer }),
        Err(e) => Err(format!("{e:?}")),
    }
}

/// Relies on `IndexWriter::add_document`: queues the document and returns
/// its operation stamp; nothing is durable before commit.
#[verifier::external_body]
pub(crate) fn writer_add_document(
    writer: &WriterHandle,
    doc: TantivyDocument,
) -> Result<u64, String> {
    match writer.inner.add_document(doc) {
        Ok(stamp) => Ok(stamp),
        Err(e) => Err(format!("{e:?}")),
    }
}

/// Relies on `IndexWriter::commit`: makes every queued document durable,
/// all or nothing, and returns the commit's operation stamp.
#[verifier::external_body]
pub(crate) fn writer_commit(writer: &mut WriterHandle) -> Result<u64, String> {
    match writer.inner.commit() {
        Ok(stamp) => Ok(stamp),
        Err(e) => Err(format!("{e:?}")),
    }
}

/// An engine document's field values: each addition's target field and
/// its typed payload, in the order added.
pub uninterp spec fn doc_entries(d: TantivyDocument) -> Seq<(Field, ActionModel)>;

/// Relies on `TantivyDocument::new`: an empty document.
#[verifier::external_body]
pub(crate) fn new_document() -> (d: TantivyDocument)
    ensures
        doc_entries(d) == Seq::<(Field, ActionModel)>::empty(),
{
    TantivyDocument::new()
}

/// Relies on `TantivyDocument::add_text`: appends the text under the
/// field.
#[verifier::external_body]
pub(crate) fn doc_add_text(doc: &mut TantivyDocument, field: Field, text: &str)
    ensures
        doc_entries(*final(doc)) == doc_entries(*old(doc)).push(
            (field, ActionModel::Text(text@)),
        ),
        doc_has_field(*final(doc), field),
{
    doc.add_text(field, text)
}

/// Relies on `TantivyDocument::add_i64`: appends the integer under the
/// field.
#[verifier::external_body]
pub(crate) fn doc_add_i64(doc: &mut TantivyDocument, field: Field, value: i64)
    ensures
        doc_entries(*final(doc)) == doc_entries(*old(doc)).push(
            (field, ActionModel::I64(value as int)),
        ),
        doc_has_field(*final(doc), field),
{
    doc.add_i64(field, value)
}

/// Relies on `TantivyDocument::add_u64`: appends the integer under the
/// field.
#[verifier::external_body]
pub(crate) fn doc_add_u64(doc: &mut TantivyDocument, field: Field, value: u64)
    ensures
        doc_entries(*final(doc)) == doc_entries(*old(doc)).push(
            (field, ActionModel::U64(value as int)),
        ),
        doc_has_field(*final(doc), field),
{
    doc.add_u64(field, value)
}

/// Relies on `TantivyDocument::add_bytes`: appends the bytes under the
/// field.
#[verifier::external_body]
pub(crate) fn doc_add_bytes(doc: &mut TantivyDocument, field: Field, bytes: &Vec<u8>)
    ensures
        doc_entries(*final(doc)) == doc_entries(*old(doc)).push(
            (field, ActionModel::Bytes(bytes@)),
        ),
        doc_has_field(*final(doc), field),
{
    doc.add_bytes(field, bytes.clone())
}

/// Relies on `TantivyDocument::parse_json`: parses a serialized document
/// against the schema, rejecting unknown fields and mistyped values.
#[verifier::external_body]
pub(crate) fn parse_document(
    schema: &Schema,
    json: &str,
) -> Result<TantivyDocument, String> {
    match TantivyDocument::parse_json(schema, json) {
        Ok(doc) => Ok(doc),
        Err(e) => Err(format!("{e:?}")),
    }
}

/// Relies on `Document::to_json`: the document's stored values as JSON.
/// The document must carry only fields of the given schema: the name
/// lookup panics on a foreign field id.
#[verifier::external_body]
pub(crate) fn document_to_json(schema: &Schema, doc: &TantivyDocument) -> (r: String)
    requires
        doc_within_schema(*doc, *schema),
{
    doc.to_json(schema)
}

/// Relies on `QueryParser::for_index`: a parser over the index's schema
/// whose default fields are the given handles.  The handles must belong
/// to that schema: parsing resolves them by raw id and panics on a
/// foreign one.
#[verifier::external_body]
pub(crate) fn query_parser_for_index(index: &Index, fields: Vec<Field>) -> (r: QueryParser)
    requires
        forall|k: int|
            0 <= k < fields@.len() ==> field_of_schema(#[trigger] fields@[k], schema_of_index(*index)),
    ensures
        parser_wf(r),
        parser_schema(r) == schema_of_index(*index),
{
    QueryParser::for_index(index, fields)
}

/// Relies on `QueryParser::parse_query`: succeeds exactly when the
/// pattern is well-formed under the engine's query grammar, and every
/// field the parsed query touches is resolved from the parser's own
/// schema.  The parser's default fields must belong to that schema, else
/// their lookup panics.
#[verifier::external_body]
pub(crate) fn try_parse_query(parser: &QueryParser, pattern: &str) -> (r: Option<ParsedQuery>)
    requires
        parser_wf(*parser),
    ensures
        r matches Some(q) ==> query_fields_of(q, parser_schema(*parser)),
{
    match parser.parse_query(pattern) {
        Ok(query) => Some(ParsedQuery { inner: query }),
        Err(_) => None,
    }
}

/// Relies on `Term::from_field_i64`: a term for exactly this field.
#[verifier::external_body]
pub(crate) fn term_from_i64(field: Field, value: i64) -> (r: EngineTerm)
    ensures
        term_field(r) == field,
{
    EngineTerm { inner: Term::from_field_i64(field, value) }
}

/// Relies on `Term::from_field_u64`: a term for exactly this field.
#[verifier::external_body]
pub(crate) fn term_from_u64(field: Field, value: u64) -> (r: EngineTerm)
    ensures
        term_field(r) == field,
{
    EngineTerm { inner: Term::from_field_u64(field, value) }
}

/// Relies on `Term::from_field_text`: a term for exactly this field.
#[verifier::external_body]
pub(crate) fn term_from_text(field: Field, text: &str) -> (r: EngineTerm)
    ensures
        term_field(r) == field,
{
    EngineTerm { inner: Term::from_field_text(field, text) }
}

/// Relies on `TermQuery::new` with basic index record options: an
/// exact-match query touching only the term's field, so it stays within
/// any schema that field belongs to.
#[verifier::external_body]
pub(crate) fn term_query(term: EngineTerm) -> (r: ParsedQuery)
    ensures
        forall|s: Schema| #[trigger] field_of_schema(term_field(term), s) ==> query_fields_of(r, s),
{
    ParsedQuery { inner: Box::new(TermQuery::new(term.inner, IndexRecordOption::Basic)) }
}

/// Relies on `Searcher::search` with a `TopDocs::with_limit` collector:
/// at most `limit` hits come back, ranked by descending score, each an
/// address of this searcher.  The collector panics on a limit of zero,
/// and the weighting panics on a query whose fields are foreign to the
/// searcher's schema, so both are ruled out.  The scores are dropped;
/// only the document addresses are handed on.
#[verifier::external_body]
pub(crate) fn search_top(
    searcher: &Searcher,
    query: &ParsedQuery,
    limit: usize,
) -> (r: Result<Vec<DocAddress>, String>)
    requires
        limit >= 1,
        query_fields_of(*query, searcher_schema(*searcher)),
    ensures
        r matches Ok(hits) ==> hits@.len() <= limit && (forall|k: int|
            0 <= k < hits@.len() ==> address_of_searcher(#[trigger] hits@[k], *searcher)),
{
    let collector = tantivy::collector::TopDocs::with_limit(limit);
    match searcher.search(query.inner.as_ref(), &collector) {
        Ok(found) => Ok(found.into_iter().map(|hit| hit.1).collect()),
        Err(e) => Err(format!("{e:?}")),
    }
}

/// Relies on `Searcher::doc`: hydrates the document at the address,
/// whose fields all belong to the searcher's schema.  The address must
/// come from a search on this same searcher: the segment lookup panics
/// on a foreign one.
#[verifier::external_body]
pub(crate) fn fetch_doc(
    searcher: &Searcher,
    address: &DocAddress,
) -> (r: Result<TantivyDocument, String>)
    requires
        address_of_searcher(*address, *searcher),
    ensures
        r matches Ok(doc) ==> doc_within_schema(doc, searcher_schema(*searcher)),
{
    match searcher.doc::<TantivyDocument>(*address) {
        Ok(doc) => Ok(doc),
        Err(e) => Err(format!("{e:?}")),
    }
}

} // verus!
