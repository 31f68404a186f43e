//! Merging of settings from two ranked sources, the values that a command-line
//! parser reports (with their provenance) and a configuration document, into one
//! fully resolved settings value, driven by a schema.
//!
//! - `schema`: the shape of a settings type, field by field.
//! - `source`: the parser's report on each field, and whether it fits a schema.
//! - `shadow`: the document's contribution, every field absent-or-present.
//! - `layout`: which fields a document may supply, and in what shape.
//! - `merge`: the merge engine and the specification it meets.
//! - `resolved`: the merged settings and their model.
//! - `laws`: precedence laws that hold of every merge.

pub mod laws;
pub mod layout;
pub mod merge;
pub mod resolved;
pub mod schema;
pub mod shadow;
pub mod source;
pub mod value;
