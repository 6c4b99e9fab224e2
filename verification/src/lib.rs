//! Decoders for Visio drawings and the metafiles embedded in them.
//!
//! The crate turns raw bytes into structured values and proves, for every
//! input, what those values are.  Nothing here touches the file system:
//! callers read the bytes and hand them over.

pub mod bytes;
pub mod parser_emf;
pub mod parser_vsd;
pub mod parser_vsdx;
pub mod text;
pub mod utils;
