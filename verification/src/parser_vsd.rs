//! The binary Visio container: compressed chunks, the directory of
//! pointers that finds them, and the traversal that visits them in order.

pub mod directory;
pub mod document;
pub mod error;
pub mod guard;
pub mod order;
pub mod pointer;
pub mod tokens;
pub mod vsd_constants;
pub mod vsd_parser;
pub mod vsdinternal_stream;
