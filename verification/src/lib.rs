//! A schema/index lifecycle and type-marshaling layer over the tantivy
//! full-text search engine.
//!
//! A caller declaratively builds a document schema out of validated field
//! configurations, materializes an on-disk index for it, writes JSON- or
//! map-shaped documents into it, and runs free-text or exact-term lookups
//! against it.  Field-configuration validation, the builder → finalized →
//! opened lifecycle, host-value coercion and error classification are
//! verified; the engine itself is reached only through a small set of
//! trusted wrappers.

pub mod doc_action;
pub mod engine;
pub mod field_config;
pub mod host_value;
pub mod index;
pub mod schema_index;
pub mod tantex_error;
pub mod token_type;
pub mod utils;
pub mod wrapper;
