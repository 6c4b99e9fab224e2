//! Typed reads from a chunk's cursor.

use crate::bytes::read_u16;
use crate::bytes::read_u32;
use crate::bytes::read_u64;
use crate::bytes::u16_le;
use crate::bytes::u32_le;
use crate::bytes::u64_le;
use crate::parser_vsd::vsdinternal_stream::SeekFrom;
use crate::parser_vsd::vsdinternal_stream::VSDInternalStream;
use crate::text::decode_utf16;
use crate::text::units_of;
use crate::text::utf16_text;
use vstd::prelude::*;
use vstd::slice::slice_subrange;

verus! {

/// Why a typed read failed.
#[derive(Clone, Copy, Debug, PartialEq, Eq, Structural)]
pub enum VisioUtilsError {
    /// The buffer ended before the value did.
    Io,
    /// The code units read are not well-formed UTF-16.
    InvalidUtf16,
    /// The data does not have the shape that was asked for.
    InvalidFormat,
}

impl VisioUtilsError {
    /// The message that goes with the error.
    pub fn message(&self) -> (text: &'static str)
        ensures
            text@ == match *self {
                VisioUtilsError::Io => "IO error: failed to fill whole buffer"@,
                VisioUtilsError::InvalidUtf16 => "Invalid UTF-16 string"@,
                VisioUtilsError::InvalidFormat => "Invalid data format"@,
            },
    {
        match self {
            VisioUtilsError::Io => "IO error: failed to fill whole buffer",
            VisioUtilsError::InvalidUtf16 => "Invalid UTF-16 string",
            VisioUtilsError::InvalidFormat => "Invalid data format",
        }
    }
}

/// Whether `count` more bytes can be read at the cursor.
pub open spec fn has_bytes(reader: &VSDInternalStream, count: int) -> bool {
    reader.pos() + count <= reader@.len()
}

/// Takes `count` bytes at the cursor: moves past them and returns where
/// they start, or moves to the end where fewer are left.
fn take(reader: &mut VSDInternalStream, count: usize) -> (at: Option<usize>)
    ensures
        final(reader)@ == old(reader)@,
        0 <= old(reader).pos() <= old(reader)@.len(),
        has_bytes(old(reader), count as int) ==> at == Some(old(reader).pos() as usize)
            && final(reader).pos() == old(reader).pos() + count,
        !has_bytes(old(reader), count as int) ==> at.is_none() && final(reader).pos() == old(
            reader,
        )@.len(),
{
    let start: usize = reader.tell() as usize;
    let len: usize = reader.get_size();
    if len - start < count {
        reader.seek(SeekFrom::End(0));
        None
    } else {
        reader.seek(SeekFrom::Start((start + count) as u64));
        Some(start)
    }
}

/// Reads a little-endian 16-bit value at the cursor.  Where fewer than two
/// bytes are left the read fails and the cursor goes to the end.
pub fn read_u16_checked(reader: &mut VSDInternalStream) -> (r: Result<u16, VisioUtilsError>)
    ensures
        final(reader)@ == old(reader)@,
        has_bytes(old(reader), 2) ==> r == Ok::<u16, VisioUtilsError>(
            u16_le(old(reader)@, old(reader).pos()) as u16,
        ) && final(reader).pos() == old(reader).pos() + 2,
        !has_bytes(old(reader), 2) ==> r == Err::<u16, VisioUtilsError>(VisioUtilsError::Io)
            && final(reader).pos() == old(reader)@.len(),
{
    match take(reader, 2) {
        Some(at) => Ok(read_u16(reader.as_slice(), at)),
        None => Err(VisioUtilsError::Io),
    }
}

/// Reads a little-endian 32-bit value at the cursor.  Where fewer than four
/// bytes are left the read fails and the cursor goes to the end.
pub fn read_u32_checked(reader: &mut VSDInternalStream) -> (r: Result<u32, VisioUtilsError>)
    ensures
        final(reader)@ == old(reader)@,
        has_bytes(old(reader), 4) ==> r == Ok::<u32, VisioUtilsError>(
            u32_le(old(reader)@, old(reader).pos()) as u32,
        ) && final(reader).pos() == old(reader).pos() + 4,
        !has_bytes(old(reader), 4) ==> r == Err::<u32, VisioUtilsError>(VisioUtilsError::Io)
            && final(reader).pos() == old(reader)@.len(),
{
    match take(reader, 4) {
        Some(at) => Ok(read_u32(reader.as_slice(), at)),
        None => Err(VisioUtilsError::Io),
    }
}

/// Reads a little-endian 64-bit value at the cursor.  Where fewer than
/// eight bytes are left the read fails and the cursor goes to the end.
pub fn read_u64_checked(reader: &mut VSDInternalStream) -> (r: Result<u64, VisioUtilsError>)
    ensures
        final(reader)@ == old(reader)@,
        has_bytes(old(reader), 8) ==> r == Ok::<u64, VisioUtilsError>(
            u64_le(old(reader)@, old(reader).pos()) as u64,
        ) && final(reader).pos() == old(reader).pos() + 8,
        !has_bytes(old(reader), 8) ==> r == Err::<u64, VisioUtilsError>(VisioUtilsError::Io)
            && final(reader).pos() == old(reader)@.len(),
{
    match take(reader, 8) {
        Some(at) => Ok(read_u64(reader.as_slice(), at)),
        None => Err(VisioUtilsError::Io),
    }
}

/// Reads `len` UTF-16 code units, little-endian, at the cursor and turns
/// them into text.  Where fewer bytes are left the read fails and the
/// cursor goes to the end; where the units are ill-formed they are read,
/// and the result is an error.
pub fn read_utf16_string(reader: &mut VSDInternalStream, len: usize) -> (r: Result<
    String,
    VisioUtilsError,
>)
    ensures
        final(reader)@ == old(reader)@,
        !has_bytes(old(reader), 2 * len) ==> r.is_err() && r->Err_0 == VisioUtilsError::Io
            && final(reader).pos() == old(reader)@.len(),
        has_bytes(old(reader), 2 * len) ==> final(reader).pos() == old(reader).pos() + 2 * len
            && match utf16_text(
            units_of(
                old(reader)@.subrange(old(reader).pos(), old(reader).pos() + 2 * len),
                len as nat,
            ),
        ) {
            Some(text) => r.is_ok() && r->Ok_0@ == text,
            None => r.is_err() && r->Err_0 == VisioUtilsError::InvalidUtf16,
        },
{
    let size: usize = reader.get_size();
    let start: u64 = reader.tell();
    if len > usize::MAX / 2 {
        reader.seek(SeekFrom::End(0));
        return Err(VisioUtilsError::Io);
    }
    match take(reader, 2 * len) {
        Some(at) => {
            assert(at + 2 * len <= size);
            let bytes = slice_subrange(reader.as_slice(), at, at + 2 * len);
            match decode_utf16(bytes, len) {
                Some(text) => Ok(text),
                None => Err(VisioUtilsError::InvalidUtf16),
            }
        },
        None => Err(VisioUtilsError::Io),
    }
}

/// Moves the cursor `count` bytes on, or to the end where fewer are left.
pub fn skip_bytes(reader: &mut VSDInternalStream, count: u64) -> (r: Result<(), VisioUtilsError>)
    ensures
        r.is_ok(),
        final(reader)@ == old(reader)@,
        final(reader).pos() == if has_bytes(old(reader), count as int) {
            old(reader).pos() + count
        } else {
            old(reader)@.len() as int
        },
{
    let start: u64 = reader.tell();
    let len: u64 = reader.get_size() as u64;
    if len - start < count {
        reader.seek(SeekFrom::End(0));
    } else {
        reader.seek(SeekFrom::Start(start + count));
    }
    Ok(())
}

/// Reads the sixteen bytes of a GUID at the cursor.
pub fn read_guid(reader: &mut VSDInternalStream) -> (r: Result<[u8; 16], VisioUtilsError>)
    ensures
        final(reader)@ == old(reader)@,
        has_bytes(old(reader), 16) ==> r.is_ok() && r.unwrap()@ == old(reader)@.subrange(
            old(reader).pos(),
            old(reader).pos() + 16,
        ) && final(reader).pos() == old(reader).pos() + 16,
        !has_bytes(old(reader), 16) ==> r == Err::<[u8; 16], VisioUtilsError>(VisioUtilsError::Io)
            && final(reader).pos() == old(reader)@.len(),
{
    match take(reader, 16) {
        Some(at) => {
            let bytes = reader.as_slice();
            let mut guid: [u8; 16] = [0u8; 16];
            let mut i: usize = 0;
            while i < 16
                invariant
                    i <= 16,
                    at + 16 <= bytes.len(),
                    forall|k: int| 0 <= k < i ==> guid@[k] == bytes@[at + k],
                decreases 16 - i,
            {
                guid[i] = bytes[at + i];
                i += 1;
            }
            assert(guid@ =~= bytes@.subrange(at as int, at + 16));
            Ok(guid)
        },
        None => Err(VisioUtilsError::Io),
    }
}

/// Compares the bytes at the cursor with `signature` and rewinds the
/// chunk.  Fails, at the end of the buffer, where fewer bytes are left than
/// the signature has.
pub fn check_file_signature(reader: &mut VSDInternalStream, signature: &[u8]) -> (r: Result<
    bool,
    VisioUtilsError,
>)
    ensures
        final(reader)@ == old(reader)@,
        has_bytes(old(reader), signature@.len() as int) ==> r == Ok::<bool, VisioUtilsError>(
            old(reader)@.subrange(old(reader).pos(), old(reader).pos() + signature@.len())
                == signature@,
        ) && final(reader).pos() == 0,
        !has_bytes(old(reader), signature@.len() as int) ==> r == Err::<bool, VisioUtilsError>(
            VisioUtilsError::Io,
        ) && final(reader).pos() == old(reader)@.len(),
{
    match take(reader, signature.len()) {
        Some(at) => {
            let bytes = reader.as_slice();
            let mut same: bool = true;
            let mut i: usize = 0;
            while i < signature.len()
                invariant
                    i <= signature.len(),
                    at + signature.len() <= bytes.len(),
                    same == (forall|k: int| 0 <= k < i ==> bytes@[at + k] == signature@[k]),
                decreases signature.len() - i,
            {
                if bytes[at + i] != signature[i] {
                    same = false;
                }
                i += 1;
            }
            proof {
                let window = bytes@.subrange(at as int, at + signature@.len());
                if same {
                    assert(window =~= signature@);
                } else {
                    let k = choose|k: int| 0 <= k < signature@.len() && bytes@[at + k] != signature@[k];
                    assert(window[k] != signature@[k]);
                }
            }
            reader.seek(SeekFrom::Start(0));
            Ok(same)
        },
        None => Err(VisioUtilsError::Io),
    }
}

} // verus!
