//! Field configurations: which (kind, stored, fast) combinations are
//! legal, validated before the engine ever sees a field.

use vstd::prelude::*;
use vstd::string::StringExecFns;

use tantivy::schema::{NumericOptions, TextOptions};

use crate::engine::{
    numeric_options_fast, numeric_options_indexed, numeric_options_stored, text_options_raw,
    text_options_stored, text_options_tokenized, text_options_trigram,
};
use crate::tantex_error::TantexError;
use crate::token_type::EngineType;

verus! {

/// One declared field's type together with its storage options.
/// `fast` (fast random access by document id) is legal only for the two
/// integer kinds; bytes fields can never be stored.
#[derive(Debug, Clone, Copy, PartialEq, Eq, Structural)]
pub enum FieldConfig {
    I64 { stored: bool, fast: bool },
    U64 { stored: bool, fast: bool },
    Text { stored: bool },
    Str { stored: bool },
    Trigram { stored: bool },
    Facet,
    Bytes,
}

/// Why a (kind, stored, fast) combination is rejected.
pub enum BuildRejection {
    /// Only integer kinds support fast access.
    CannotBeFast,
    /// Bytes fields cannot be stored.
    CannotBeStored,
    /// The kind string is unknown.
    InvalidKind,
}

/// The full validation grammar, first match wins: integer kinds accept any
/// flags; any other kind refuses `fast`; "string", "text" and "trigram"
/// accept a stored flag; stored bytes are refused; "bytes" and "facet"
/// accept; everything else is an unknown kind.
pub open spec fn build_spec(kind: Seq<char>, stored: bool, fast: bool) -> Result<
    FieldConfig,
    BuildRejection,
> {
    if kind == "i64"@ {
        Ok(FieldConfig::I64 { stored, fast })
    } else if kind == "u64"@ {
        Ok(FieldConfig::U64 { stored, fast })
    } else if fast {
        Err(BuildRejection::CannotBeFast)
    } else if kind == "string"@ {
        Ok(FieldConfig::Str { stored })
    } else if kind == "text"@ {
        Ok(FieldConfig::Text { stored })
    } else if kind == "bytes"@ {
        if stored {
            Err(BuildRejection::CannotBeStored)
        } else {
            Ok(FieldConfig::Bytes)
        }
    } else if kind == "facet"@ {
        Ok(FieldConfig::Facet)
    } else if kind == "trigram"@ {
        Ok(FieldConfig::Trigram { stored })
    } else {
        Err(BuildRejection::InvalidKind)
    }
}

impl FieldConfig {
    /// Validates one field declaration.  The outcome is exactly
    /// `build_spec` on the inputs' views; rejections carry the offending
    /// kind string.
    pub fn build(kind: &str, stored: bool, fast: bool) -> (r: Result<FieldConfig, TantexError>)
        ensures
            r is Ok <==> build_spec(kind@, stored, fast) is Ok,
            build_spec(kind@, stored, fast) matches Ok(cs) ==> (r matches Ok(c) && c == cs),
            build_spec(kind@, stored, fast) matches Err(BuildRejection::CannotBeFast) <==> (
            r matches Err(TantexError::TypeCannotBeFast(k)) && k@ == kind@),
            build_spec(kind@, stored, fast) matches Err(BuildRejection::CannotBeStored) <==> (
            r matches Err(TantexError::TypeIsNotStored(k)) && k@ == kind@),
            build_spec(kind@, stored, fast) matches Err(BuildRejection::InvalidKind) <==> (
            r matches Err(TantexError::InvalidType(k)) && k@ == kind@),
    {
        if crate::utils::str_eq(kind, "i64") {
            Ok(FieldConfig::I64 { stored, fast })
        } else if crate::utils::str_eq(kind, "u64") {
            Ok(FieldConfig::U64 { stored, fast })
        } else if fast {
            Err(TantexError::TypeCannotBeFast(kind.to_owned()))
        } else if crate::utils::str_eq(kind, "string") {
            Ok(FieldConfig::Str { stored })
        } else if crate::utils::str_eq(kind, "text") {
            Ok(FieldConfig::Text { stored })
        } else if crate::utils::str_eq(kind, "bytes") {
            if stored {
                Err(TantexError::TypeIsNotStored(kind.to_owned()))
            } else {
                Ok(FieldConfig::Bytes)
            }
        } else if crate::utils::str_eq(kind, "facet") {
            Ok(FieldConfig::Facet)
        } else if crate::utils::str_eq(kind, "trigram") {
            Ok(FieldConfig::Trigram { stored })
        } else {
            Err(TantexError::InvalidType(kind.to_owned()))
        }
    }

    /// The engine-level type this configuration builds: integer kinds map
    /// to integer fields, the three text kinds to text fields with the
    /// "raw", "default" and "trigram" tokenizers, facet and bytes to their
    /// own engine types.
    pub fn engine_type(&self) -> (r: EngineType)
        ensures
            self is I64 ==> r is I64,
            self is U64 ==> r is U64,
            self is Facet ==> r is Facet,
            self is Bytes ==> r is Bytes,
            self is Text ==> (r matches EngineType::Str { tokenizer: Some(t) } && t@ == "default"@),
            self is Str ==> (r matches EngineType::Str { tokenizer: Some(t) } && t@ == "raw"@),
            self is Trigram ==> (r matches EngineType::Str { tokenizer: Some(t) } && t@
                == "trigram"@),
    {
        match self {
            FieldConfig::I64 { .. } => EngineType::I64,
            FieldConfig::U64 { .. } => EngineType::U64,
            FieldConfig::Facet => EngineType::Facet,
            FieldConfig::Bytes => EngineType::Bytes,
            FieldConfig::Text { .. } => EngineType::Str {
                tokenizer: Some(String::from_str("default")),
            },
            FieldConfig::Str { .. } => EngineType::Str { tokenizer: Some(String::from_str("raw")) },
            FieldConfig::Trigram { .. } => EngineType::Str {
                tokenizer: Some(String::from_str("trigram")),
            },
        }
    }
}

/// The engine options of an indexed integer field with the given flags.
pub fn build_int_options(stored: bool, fast: bool) -> NumericOptions {
    let mut options = numeric_options_indexed();
    if stored {
        options = numeric_options_stored(options);
    }
    if fast {
        options = numeric_options_fast(options);
    }
    options
}

/// The engine options of a tokenized text field with the given flag.
pub fn build_text_options(stored: bool) -> TextOptions {
    let options = text_options_tokenized();
    if stored {
        text_options_stored(options)
    } else {
        options
    }
}

/// The engine options of an exact-match string field with the given flag.
pub fn build_string_options(stored: bool) -> TextOptions {
    let options = text_options_raw();
    if stored {
        text_options_stored(options)
    } else {
        options
    }
}

/// The engine options of a trigram-tokenized text field with the given
/// flag.
pub fn build_trigram_options(stored: bool) -> TextOptions {
    let options = text_options_trigram();
    if stored {
        text_options_stored(options)
    } else {
        options
    }
}

/// Validation is pure and deterministic: on identical inputs any two
/// outcomes are identical.
pub proof fn lemma_build_deterministic(
    kind: Seq<char>,
    stored: bool,
    fast: bool,
    r1: Result<FieldConfig, BuildRejection>,
    r2: Result<FieldConfig, BuildRejection>,
)
    requires
        r1 == build_spec(kind, stored, fast),
        r2 == build_spec(kind, stored, fast),
    ensures
        r1 == r2,
{
}

/// `fast = true` is accepted exactly for the two integer kinds.
pub proof fn lemma_fast_only_for_integers(kind: Seq<char>, stored: bool)
    ensures
        build_spec(kind, stored, true) is Ok <==> (kind == "i64"@ || kind == "u64"@),
{
}

/// A stored bytes field is always rejected, whatever the fast flag: as
/// unable to be fast when `fast` is set, else as unable to be stored.
pub proof fn lemma_stored_bytes_rejected(fast: bool)
    ensures
        build_spec("bytes"@, true, fast) is Err,
{
    reveal_strlit("bytes");
    reveal_strlit("i64");
    reveal_strlit("u64");
    reveal_strlit("string");
    reveal_strlit("text");
    assert("bytes"@.len() == 5);
    assert("i64"@.len() == 3);
    assert("u64"@.len() == 3);
    assert("string"@.len() == 6);
    assert("text"@.len() == 4);
}

/// An unknown kind string is always rejected; when the fast flag is off
/// the rejection is the invalid-kind one, which `build` reports carrying
/// that exact string.
pub proof fn lemma_unknown_kind_rejected(kind: Seq<char>, stored: bool, fast: bool)
    requires
        kind != "i64"@,
        kind != "u64"@,
        kind != "string"@,
        kind != "text"@,
        kind != "trigram"@,
        kind != "bytes"@,
        kind != "facet"@,
    ensures
        build_spec(kind, stored, fast) is Err,
        !fast ==> build_spec(kind, stored, fast) matches Err(BuildRejection::InvalidKind),
{
}

} // verus!

