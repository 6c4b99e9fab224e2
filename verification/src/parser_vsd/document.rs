//! The document as a whole: its signature, its version, its two passes.

use super::error::ParseError;
use super::vsd_parser::document_pass;
use super::vsd_parser::Notification;
use super::vsd_parser::VSDParser;
use vstd::prelude::*;
use vstd::slice::slice_to_vec;

verus! {

/// Where the version byte stands in the raw document.
pub const VERSION_OFFSET: usize = 0x1A;

/// The one version that the parser reads.
pub const SUPPORTED_VERSION: u8 = 11;

/// A point on the integer grid.
#[derive(Clone, Copy, Debug, PartialEq, Eq, Structural)]
pub struct Coordinate {
    pub x: i32,
    pub y: i32,
}

/// The four bytes that a compound file starts with.
pub open spec fn compound_magic() -> Seq<u8> {
    seq![0xD0u8, 0xCFu8, 0x11u8, 0xE0u8]
}

/// The text that a Visio drawing starts with, `Visio (TM) Drawing`, as
/// bytes.
pub open spec fn visio_signature() -> Seq<u8> {
    seq![
        0x56u8, 0x69u8, 0x73u8, 0x69u8, 0x6Fu8, 0x20u8, 0x28u8, 0x54u8, 0x4Du8, 0x29u8, 0x20u8,
        0x44u8, 0x72u8, 0x61u8, 0x77u8, 0x69u8, 0x6Eu8, 0x67u8,
    ]
}

/// Whether `bytes` starts with `prefix`.
pub open spec fn starts_with(bytes: Seq<u8>, prefix: Seq<u8>) -> bool {
    bytes.len() >= prefix.len() && bytes.take(prefix.len() as int) == prefix
}

/// Whether `bytes` starts with the bytes of `prefix`.
fn has_prefix(bytes: &[u8], prefix: &[u8]) -> (found: bool)
    ensures
        found == starts_with(bytes@, prefix@),
{
    if bytes.len() < prefix.len() {
        return false;
    }
    let mut i: usize = 0;
    while i < prefix.len()
        invariant
            i <= prefix.len() <= bytes.len(),
            forall|k: int| 0 <= k < i ==> bytes@[k] == prefix@[k],
        decreases prefix.len() - i,
    {
        if bytes[i] != prefix[i] {
            assert(bytes@.take(prefix@.len() as int)[i as int] != prefix@[i as int]);
            return false;
        }
        i += 1;
    }
    assert(bytes@.take(prefix@.len() as int) =~= prefix@);
    true
}

/// Whether a file that starts with `header` is a compound file, the
/// container that holds a Visio drawing.
pub fn is_compound_file(header: &[u8]) -> (yes: bool)
    ensures
        yes == starts_with(header@, compound_magic()),
{
    let magic: [u8; 4] = [0xD0, 0xCF, 0x11, 0xE0];
    assert(magic@ =~= compound_magic());
    has_prefix(header, magic.as_slice())
}

/// What the reading of the raw document `data` comes to: a signature
/// error, a version error, the error that stopped a pass, or what the
/// passes told.
pub open spec fn document_outcome(data: Seq<u8>) -> Result<Seq<Notification>, ParseError> {
    if !starts_with(data, visio_signature()) {
        Err(ParseError::Signature)
    } else if data.len() <= VERSION_OFFSET || data[VERSION_OFFSET as int] != SUPPORTED_VERSION {
        Err(ParseError::Version)
    } else {
        document_pass(data)
    }
}

/// Checks signature and version of the raw document `data` and runs both
/// passes over it.  The parser that comes back holds what they told.
pub fn parse_visio_document(data: &Vec<u8>) -> (r: Result<VSDParser, ParseError>)
    ensures
        match document_outcome(data@) {
            Ok(trace) => r.is_ok() && r.unwrap().doc() == data@ && r.unwrap().styles_trace()
                == trace && r.unwrap().content_trace() == trace,
            Err(error) => r.is_err() && r->Err_0 == error,
        },
{
    let signature: [u8; 18] = [
        0x56,
        0x69,
        0x73,
        0x69,
        0x6F,
        0x20,
        0x28,
        0x54,
        0x4D,
        0x29,
        0x20,
        0x44,
        0x72,
        0x61,
        0x77,
        0x69,
        0x6E,
        0x67,
    ];
    assert(signature@ =~= visio_signature());
    if !has_prefix(data.as_slice(), signature.as_slice()) {
        return Err(ParseError::Signature);
    }
    if data.len() <= VERSION_OFFSET || data[VERSION_OFFSET] != SUPPORTED_VERSION {
        return Err(ParseError::Version);
    }
    let mut parser: VSDParser = VSDParser::new(slice_to_vec(data.as_slice()));
    match parser.parse_passes() {
        Ok(()) => Ok(parser),
        Err(error) => Err(error),
    }
}

} // verus!
