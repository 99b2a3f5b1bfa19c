//! Directive parsing, validation and emission for annotation-driven schema
//! metadata.
//!
//! The library reads small, structured directive payloads attached to data
//! items (fields, types, parameters), parses each directive's private grammar
//! into a typed value, specializes directives that depend on the annotated
//! item's type shape, merges the directives of one item while rejecting
//! duplicates, and maps each validated directive to its schema-document
//! field.

pub mod tokens;
pub mod diagnostics;
pub mod value;
pub mod parse_utils;
pub mod rename;
pub mod parameter;
pub mod schema_format;
pub mod xml;
pub mod emit;
pub mod attributes;
pub mod features;
