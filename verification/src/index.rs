//! Opening or creating the on-disk index for a finalized schema.

use vstd::prelude::*;
use vstd::string::StringExecFns;

use tantivy::schema::Schema;
use tantivy::Index;

use crate::engine::{
    clone_schema, index_schema, lemma_same_fields_symmetric, lemma_same_fields_transitive,
    same_fields, schema_eq, schema_of_index, try_create_in_dir, try_open_in_dir, OpenOutcome,
};
use crate::tantex_error::TantexError;

verus! {

/// Opens the index at `path` if one exists there, otherwise creates a
/// fresh one from the schema.  An existing index is adopted only when the
/// engine judges its schema equal to the given one; a mismatch, like any
/// other engine failure, is `FailedToCreateIndex`, and a missing
/// directory is `PathDoesNotExist`, all carrying the path.  An index that
/// comes back declares the same fields as the given schema.  The outcome
/// of each engine step is mapped to the result by `accept_opened_index`
/// and `outcome_to_result`, whose contracts fix the mapping.
pub fn open_or_create_index(path: &str, schema: &Schema) -> (r: Result<Index, TantexError>)
    ensures
        r matches Ok(i) ==> same_fields(*schema, schema_of_index(i)),
        r matches Err(e) ==> ((e matches TantexError::PathDoesNotExist(p) && p@ == path@) || (
        e matches TantexError::FailedToCreateIndex(p, _) && p@ == path@)),
{
    match try_open_in_dir(path) {
        OpenOutcome::Opened(index) => {
            let schema_matches = schema_eq(&index_schema(&index), schema);
            accept_opened_index(path, index, schema, schema_matches)
        },
        OpenOutcome::PathMissing => {
            let fresh = clone_schema(schema);
            let ghost fresh_snapshot = fresh;
            let created = try_create_in_dir(path, fresh);
            let r = outcome_to_result(path, created);
            proof {
                if r is Ok {
                    let i = created->Opened_0;
                    lemma_same_fields_symmetric(fresh_snapshot, *schema);
                    lemma_same_fields_transitive(
                        *schema,
                        fresh_snapshot,
                        schema_of_index(i),
                    );
                }
            }
            r
        },
        OpenOutcome::Failed(detail) => outcome_to_result(path, OpenOutcome::Failed(detail)),
    }
}

/// Accepts an opened existing index exactly when the engine judged its
/// schema equal to the finalized one; a mismatch is a creation failure
/// carrying the path, so that reads never hydrate documents of a schema
/// this library did not declare.
fn accept_opened_index(path: &str, index: Index, schema: &Schema, schema_matches: bool) -> (r:
    Result<Index, TantexError>)
    requires
        schema_matches ==> same_fields(schema_of_index(index), *schema),
    ensures
        schema_matches ==> (r matches Ok(i) && i == index),
        !schema_matches ==> (r matches Err(TantexError::FailedToCreateIndex(p, _)) && p@ == path@),
        r matches Ok(i) ==> same_fields(*schema, schema_of_index(i)),
{
    if schema_matches {
        proof {
            lemma_same_fields_symmetric(schema_of_index(index), *schema);
        }
        Ok(index)
    } else {
        Err(
            TantexError::FailedToCreateIndex(
                path.to_owned(),
                String::from_str("an index already at the path was built with a different schema"),
            ),
        )
    }
}

/// Maps an engine open-or-create outcome to the call's result: a ready
/// index passes through unchanged, a missing location is reported as
/// path-does-not-exist, and any other failure as the creation failure
/// with its diagnostic, both carrying the path.
fn outcome_to_result(path: &str, outcome: OpenOutcome) -> (r: Result<Index, TantexError>)
    ensures
        outcome matches OpenOutcome::Opened(i) ==> (r matches Ok(ri) && ri == i),
        r is Ok ==> outcome is Opened,
        outcome is PathMissing ==> (r matches Err(TantexError::PathDoesNotExist(p)) && p@
            == path@),
        outcome matches OpenOutcome::Failed(d) ==> (r matches Err(
            TantexError::FailedToCreateIndex(p, dd),
        ) && p@ == path@ && dd@ == d@),
{
    match outcome {
        OpenOutcome::Opened(index) => Ok(index),
        OpenOutcome::PathMissing => Err(TantexError::PathDoesNotExist(path.to_owned())),
        OpenOutcome::Failed(detail) => Err(
            TantexError::FailedToCreateIndex(path.to_owned(), detail),
        ),
    }
}

} // verus!
