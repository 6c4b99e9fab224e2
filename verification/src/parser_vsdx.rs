//! The XML flavour of Visio drawings: the elements of a part, with their
//! attributes, cells and children, and what the parts say of each other.

pub mod dict;
pub mod elements;
pub mod get_metadata;
pub mod helpers;
pub mod read_vsdx;
