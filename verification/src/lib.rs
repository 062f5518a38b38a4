//! Layered configuration: a schema of leaf and nested fields, partial values
//! that may leave any field open, a merge of partial values by priority, and a
//! finalizer that either resolves every required field or names the first one
//! that is missing by its dotted path.

pub mod text;
pub mod value;
pub mod schema;
pub mod partial;
pub mod merge;
pub mod finalize;
pub mod laws;
pub mod type_desc;
pub mod describe;
pub mod names;
pub mod visibility;
pub mod example;
