//! Enhanced metafiles: every record becomes a list of named fields, each
//! with its value as text and its place in the record.

pub mod fields;
pub mod geometry;
pub mod header;
pub mod model;
pub mod objects;
pub mod parser;
pub mod records;
pub mod state;
