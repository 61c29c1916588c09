//! Typed builders for query-filter and update documents aimed at a
//! schema-less document database.
//!
//! A caller walks a record's fields through a chain of typed path nodes,
//! then hands the resulting leaf node (plus a value) to a fluent builder.
//! The builder serializes the value with the serializer bound to the leaf,
//! renders the dotted field path, and merges the result into an
//! accumulating document. The first serialization failure is captured and
//! surfaced by the terminal build call.

pub mod bsonx;
pub mod doc;
pub mod filter;
pub mod kp;
pub mod schema;
pub mod update;

pub use filter::FilterBuilder;
pub use update::UpdateBuilder;
