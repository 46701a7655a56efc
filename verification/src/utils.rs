//! Field resolution, query parsing and bounded search: the helpers shared
//! by the query and marshaling paths.

use vstd::prelude::*;

use tantivy::query::QueryParser;
use tantivy::schema::Field;
use tantivy::{DocAddress, Searcher};

use crate::engine::{
    address_of_searcher, parser_schema, parser_wf, query_fields_of, search_top, searcher_schema,
    try_parse_query, ParsedQuery,
};
use crate::field_config::FieldConfig;
use crate::schema_index::FieldEntry;
use crate::tantex_error::TantexError;

verus! {

/// String equality over the character views, for dispatching on field
/// kind names and resolving field names.
pub fn str_eq(a: &str, b: &str) -> (r: bool)
    ensures
        r == (a@ == b@),
{
    let owned_a: String = a.to_owned();
    let owned_b: String = b.to_owned();
    owned_a == owned_b
}

/// The declared schema as plain values: each entry's name and its
/// configuration.
pub open spec fn model_of(entries: Seq<FieldEntry>) -> Seq<(Seq<char>, FieldConfig)> {
    entries.map_values(|e: FieldEntry| (e.name@, e.config))
}

/// Whether some declared field bears this name.
pub open spec fn model_has_field(model: Seq<(Seq<char>, FieldConfig)>, name: Seq<char>) -> bool {
    exists|i: int| 0 <= i < model.len() && #[trigger] model[i].0 == name
}

/// No two declared fields bear the same name.
pub open spec fn distinct_names(model: Seq<(Seq<char>, FieldConfig)>) -> bool {
    forall|i: int, j: int|
        0 <= i < j < model.len() ==> #[trigger] model[i].0 != #[trigger] model[j].0
}

/// The configuration of the field bearing this name.
pub open spec fn model_config(model: Seq<(Seq<char>, FieldConfig)>, name: Seq<char>) -> FieldConfig {
    let i = choose|i: int| 0 <= i < model.len() && #[trigger] model[i].0 == name;
    model[i].1
}

/// Under distinct names, any entry bearing the name settles the
/// configuration the name resolves to.
pub proof fn lemma_config_unique(model: Seq<(Seq<char>, FieldConfig)>, name: Seq<char>, i: int)
    requires
        distinct_names(model),
        0 <= i < model.len(),
        model[i].0 == name,
    ensures
        model_config(model, name) == model[i].1,
{
    let j = choose|j: int| 0 <= j < model.len() && #[trigger] model[j].0 == name;
    if i != j {
        assert(model[i].0 != model[j].0);
    }
}

/// Whether the handle is the one of a declared field bearing this name.
pub open spec fn resolved_handle_ok(entries: Seq<FieldEntry>, name: Seq<char>, f: Field) -> bool {
    exists|i: int|
        0 <= i < entries.len() && #[trigger] entries[i].name@ == name && entries[i].handle == f
}

/// The names a sequence of strings denotes.
pub open spec fn names_of(strings: Seq<String>) -> Seq<Seq<char>> {
    strings.map_values(|s: String| s@)
}

/// The first requested name that no declared field bears, if any.
pub open spec fn first_unknown(
    model: Seq<(Seq<char>, FieldConfig)>,
    names: Seq<Seq<char>>,
) -> Option<Seq<char>>
    decreases names.len(),
{
    if names.len() == 0 {
        None
    } else if !model_has_field(model, names[0]) {
        Some(names[0])
    } else {
        first_unknown(model, names.drop_first())
    }
}

/// Finds the position of the field bearing this name, if any.
pub fn fetch_entry_index(fields: &Vec<FieldEntry>, field_name: &str) -> (r: Option<usize>)
    ensures
        r matches Some(i) ==> i < fields@.len() && fields@[i as int].name@ == field_name@,
        r is None <==> !model_has_field(model_of(fields@), field_name@),
{
    let ghost model = model_of(fields@);
    let mut k: usize = 0;
    while k < fields.len()
        invariant
            k <= fields@.len(),
            model == model_of(fields@),
            forall|i: int| 0 <= i < k ==> #[trigger] model[i].0 != field_name@,
        decreases fields@.len() - k,
    {
        if str_eq(fields[k].name.as_str(), field_name) {
            proof {
                assert(model[k as int].0 == field_name@);
            }
            return Some(k);
        }
        proof {
            assert(model[k as int].0 == fields@[k as int].name@);
        }
        k = k + 1;
    }
    None
}

/// Resolves a field name to the engine's handle for it, reporting an
/// unknown name as field-not-found carrying that name.
pub fn fetch_field(fields: &Vec<FieldEntry>, field_name: &str) -> (r: Result<Field, TantexError>)
    ensures
        r is Ok <==> model_has_field(model_of(fields@), field_name@),
        r matches Ok(f) ==> resolved_handle_ok(fields@, field_name@, f),
        r matches Err(e) ==> (e matches TantexError::FieldNotFound(n) && n@ == field_name@),
{
    match fetch_entry_index(fields, field_name) {
        Some(i) => Ok(fields[i].handle),
        None => Err(TantexError::FieldNotFound(field_name.to_owned())),
    }
}

/// Resolves every requested field name, failing fast on the first unknown
/// one with field-not-found carrying that exact name.
pub fn fetch_schema_fields(fields: &Vec<FieldEntry>, field_strings: &Vec<String>) -> (r: Result<
    Vec<Field>,
    TantexError,
>)
    ensures
        r is Ok <==> first_unknown(model_of(fields@), names_of(field_strings@)) is None,
        r matches Err(e) ==> (first_unknown(model_of(fields@), names_of(field_strings@)) matches
        Some(n) && e matches TantexError::FieldNotFound(m) && m@ == n),
        r matches Ok(handles) ==> handles@.len() == field_strings@.len() && (forall|i: int|
            0 <= i < handles@.len() ==> resolved_handle_ok(
                fields@,
                field_strings@[i]@,
                #[trigger] handles@[i],
            )),
{
    let ghost model = model_of(fields@);
    let ghost names = names_of(field_strings@);
    let mut handles: Vec<Field> = Vec::new();
    let mut k: usize = 0;
    proof {
        assert(names.subrange(0, names.len() as int) =~= names);
    }
    while k < field_strings.len()
        invariant
            k <= field_strings@.len(),
            model == model_of(fields@),
            names == names_of(field_strings@),
            handles@.len() == k,
            forall|i: int|
                0 <= i < k ==> resolved_handle_ok(
                    fields@,
                    field_strings@[i]@,
                    #[trigger] handles@[i],
                ),
            first_unknown(model, names) == first_unknown(
                model,
                names.subrange(k as int, names.len() as int),
            ),
        decreases field_strings@.len() - k,
    {
        proof {
            assert(names[k as int] == field_strings@[k as int]@);
            assert(names.subrange(k as int, names.len() as int).drop_first() =~= names.subrange(
                k as int + 1,
                names.len() as int,
            ));
            assert(names.subrange(k as int, names.len() as int)[0] == names[k as int]);
        }
        match fetch_field(fields, field_strings[k].as_str()) {
            Ok(handle) => {
                handles.push(handle);
            },
            Err(e) => {
                return Err(e);
            },
        }
        k = k + 1;
    }
    proof {
        assert(names.subrange(names.len() as int, names.len() as int) =~= Seq::<Seq<char>>::empty());
    }
    Ok(handles)
}

/// Parses the pattern against the engine's query grammar over the given
/// default fields; a parse failure is classified as an invalid query
/// carrying the caller's pattern, never the engine's own error.  The
/// parser must be well-formed (its default fields of its own schema), and
/// a parsed query stays within that schema.
pub fn parse_query(query_parser: &QueryParser, pattern: &str) -> (r: Result<
    ParsedQuery,
    TantexError,
>)
    requires
        parser_wf(*query_parser),
    ensures
        r matches Ok(q) ==> query_fields_of(q, parser_schema(*query_parser)),
        r matches Err(e) ==> (e matches TantexError::InvalidQuery(p) && p@ == pattern@),
{
    match try_parse_query(query_parser, pattern) {
        Some(query) => Ok(query),
        None => Err(TantexError::InvalidQuery(pattern.to_owned())),
    }
}

/// Runs a bounded top-K search: a limit of zero yields the empty result,
/// not an error and without consulting the engine; otherwise at most
/// `limit` hits come back, each an address of this searcher, and an
/// engine failure is classified as a search-execution failure.  The query
/// must stay within the searcher's schema, else the engine's field lookup
/// panics.
pub fn search_with_limit(searcher: &Searcher, query: &ParsedQuery, limit: usize) -> (r: Result<
    Vec<DocAddress>,
    TantexError,
>)
    requires
        query_fields_of(*query, searcher_schema(*searcher)),
    ensures
        r matches Ok(hits) ==> hits@.len() <= limit && (forall|k: int|
            0 <= k < hits@.len() ==> address_of_searcher(#[trigger] hits@[k], *searcher)),
        limit == 0 ==> (r matches Ok(hits) && hits@.len() == 0),
        r matches Err(e) ==> e matches TantexError::SearchExecutionFailed(_),
{
    if limit == 0 {
        Ok(Vec::new())
    } else {
        match search_top(searcher, query, limit) {
            Ok(hits) => Ok(hits),
            Err(detail) => Err(TantexError::SearchExecutionFailed(detail)),
        }
    }
}

/// A point lookup returns at most one document: the first hit when there
/// is one, and the normal document-not-found outcome on zero hits, never
/// an empty success.
pub fn hit_or_not_found(hits: &Vec<DocAddress>) -> (r: Result<&DocAddress, TantexError>)
    ensures
        r is Ok <==> hits@.len() > 0,
        r matches Ok(first) ==> *first == hits@[0],
        r matches Err(e) ==> (hits@.len() == 0 && e matches TantexError::DocumentNotFound),
        hits@.len() == 0 ==> r is Err,
{
    if hits.len() == 0 {
        Err(TantexError::DocumentNotFound)
    } else {
        Ok(&hits[0])
    }
}

} // verus!
