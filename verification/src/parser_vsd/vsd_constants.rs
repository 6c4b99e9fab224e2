//! Numbers that the file format fixes.

pub mod cell_types;
pub mod field_formats;
pub mod object_types;
