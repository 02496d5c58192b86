//! The message data model: element node types and the error taxonomy.

pub mod elements;
pub mod errors;
