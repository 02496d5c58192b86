//! Data model and canonical serializer for a structured localization
//! message format: pattern text interleaved with variable references,
//! function calls, markup tags, and conditional variant selection.
//!
//! The crate defines the node types of a message tree, the structural
//! invariants that make a tree well-formed, and the exact text-production
//! rules (quoting, joining, ordering) that turn a tree back into source
//! text. Every serializer carries a contract pinning its output to a
//! specification-level rendering function over the tree alone.

pub mod data_model;

pub mod ast;
