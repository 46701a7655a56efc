//! Semantic categories of an engine-level field type, used when decoding
//! inbound values for a field.

use vstd::prelude::*;

verus! {

/// The marshaling system's view of a finalized field's engine type.
#[derive(Debug, Clone, Copy, PartialEq, Eq, Structural)]
pub enum TokenType {
    Text,
    Str,
    Bytes,
    U64,
    I64,
    Facet,
}

/// What this layer reads of an engine field type: the type tag, and for
/// text-like fields the tokenizer name of the indexing options (`None`
/// when the field carries no indexing options).
pub enum EngineType {
    Bytes,
    Facet,
    U64,
    I64,
    Str { tokenizer: Option<String> },
}

/// The token type that a tokenizer name selects: "default" means analyzed
/// text, "raw" means exact-match strings, and absence defaults to text.
pub open spec fn token_of_tokenizer(tokenizer: Option<Seq<char>>) -> TokenType {
    match tokenizer {
        Option::None => TokenType::Text,
        Option::Some(name) => {
            if name == "default"@ {
                TokenType::Text
            } else {
                TokenType::Str
            }
        },
    }
}

/// A text-like engine type is consistent with this layer's own schema
/// rules only when its tokenizer is "default", "raw", or absent.
pub open spec fn known_tokenizer(tokenizer: Option<Seq<char>>) -> bool {
    match tokenizer {
        Option::None => true,
        Option::Some(name) => name == "default"@ || name == "raw"@,
    }
}

/// The semantic category of an engine field type.  Text-like types are
/// meaningful only for the tokenizers this layer itself configures.
pub open spec fn token_of_engine_type(ft: EngineType) -> TokenType {
    match ft {
        EngineType::Bytes => TokenType::Bytes,
        EngineType::Facet => TokenType::Facet,
        EngineType::U64 => TokenType::U64,
        EngineType::I64 => TokenType::I64,
        EngineType::Str { tokenizer } => token_of_tokenizer(
            match tokenizer {
                Option::None => Option::None,
                Option::Some(name) => Option::Some(name@),
            },
        ),
    }
}

impl TokenType {
    /// Disambiguates a text-like field: tokenizer "default" is analyzed
    /// text, "raw" is exact-match, and no indexing options defaults to
    /// text.  Any other tokenizer would mean the schema was built
    /// inconsistently with this layer's own rules, so it is ruled out.
    pub fn from_text_options(tokenizer: &Option<String>) -> (r: TokenType)
        requires
            known_tokenizer(
                match *tokenizer {
                    Option::None => Option::None,
                    Option::Some(name) => Option::Some(name@),
                },
            ),
        ensures
            r == token_of_tokenizer(
                match *tokenizer {
                    Option::None => Option::None,
                    Option::Some(name) => Option::Some(name@),
                },
            ),
    {
        match tokenizer {
            Option::None => TokenType::Text,
            Option::Some(name) => {
                if crate::utils::str_eq(name.as_str(), "default") {
                    TokenType::Text
                } else {
                    TokenType::Str
                }
            },
        }
    }

    /// Classifies a finalized field's engine type back into this layer's
    /// semantic categories.
    pub fn from_field_type(ft: &EngineType) -> (r: TokenType)
        requires
            ft matches EngineType::Str { tokenizer } ==> known_tokenizer(
                match tokenizer {
                    Option::None => Option::None,
                    Option::Some(name) => Option::Some(name@),
                },
            ),
        ensures
            r == token_of_engine_type(*ft),
    {
        match ft {
            EngineType::Bytes => TokenType::Bytes,
            EngineType::Facet => TokenType::Facet,
            EngineType::U64 => TokenType::U64,
            EngineType::I64 => TokenType::I64,
            EngineType::Str { tokenizer } => TokenType::from_text_options(tokenizer),
        }
    }

    /// The category's stable name.
    pub open spec fn name_spec(self) -> Seq<char> {
        match self {
            TokenType::Text => "text"@,
            TokenType::Str => "string"@,
            TokenType::Bytes => "bytes"@,
            TokenType::U64 => "u64"@,
            TokenType::I64 => "i64"@,
            TokenType::Facet => "facet"@,
        }
    }

    /// Renders the category's stable name.
    pub fn name(&self) -> (r: String)
        ensures
            r@ == self.name_spec(),
    {
        match self {
            TokenType::Text => String::from_str("text"),
            TokenType::Str => String::from_str("string"),
            TokenType::Bytes => String::from_str("bytes"),
            TokenType::U64 => String::from_str("u64"),
            TokenType::I64 => String::from_str("i64"),
            TokenType::Facet => String::from_str("facet"),
        }
    }
}

} // verus!
