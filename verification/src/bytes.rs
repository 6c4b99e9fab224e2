//! Little-endian integers inside byte strings.

use byteorder::ByteOrder;
use byteorder::LittleEndian;
use vstd::prelude::*;
use vstd::slice::slice_subrange;

verus! {

/// The unsigned 16-bit value stored little-endian at `at`.
pub open spec fn u16_le(bytes: Seq<u8>, at: int) -> int {
    bytes[at] + 0x100 * bytes[at + 1]
}

/// The unsigned 32-bit value stored little-endian at `at`.
pub open spec fn u32_le(bytes: Seq<u8>, at: int) -> int {
    bytes[at] + 0x100 * bytes[at + 1] + 0x1_0000 * bytes[at + 2] + 0x100_0000 * bytes[at + 3]
}

/// The unsigned 64-bit value stored little-endian at `at`.
pub open spec fn u64_le(bytes: Seq<u8>, at: int) -> int {
    u32_le(bytes, at) + 0x1_0000_0000 * u32_le(bytes, at + 4)
}

/// The two's-complement 16-bit value stored little-endian at `at`.
pub open spec fn i16_le(bytes: Seq<u8>, at: int) -> int {
    let u = u16_le(bytes, at);
    if u >= 0x8000 {
        u - 0x1_0000
    } else {
        u
    }
}

/// The two's-complement 32-bit value stored little-endian at `at`.
pub open spec fn i32_le(bytes: Seq<u8>, at: int) -> int {
    let u = u32_le(bytes, at);
    if u >= 0x8000_0000 {
        u - 0x1_0000_0000
    } else {
        u
    }
}

/// `byteorder::LittleEndian::read_u16`: the first two bytes of `buf`, the
/// low byte first.  The outside function panics on a shorter slice.
#[verifier::external_body]
fn le_read_u16(buf: &[u8]) -> (r: u16)
    requires
        buf@.len() >= 2,
    ensures
        r == u16_le(buf@, 0),
{
    LittleEndian::read_u16(buf)
}

/// `byteorder::LittleEndian::read_i16`: the same two bytes read as a
/// two's-complement number.
#[verifier::external_body]
fn le_read_i16(buf: &[u8]) -> (r: i16)
    requires
        buf@.len() >= 2,
    ensures
        r == i16_le(buf@, 0),
{
    LittleEndian::read_i16(buf)
}

/// `byteorder::LittleEndian::read_u32`: the first four bytes of `buf`, the
/// low byte first.  The outside function panics on a shorter slice.
#[verifier::external_body]
fn le_read_u32(buf: &[u8]) -> (r: u32)
    requires
        buf@.len() >= 4,
    ensures
        r == u32_le(buf@, 0),
{
    LittleEndian::read_u32(buf)
}

/// `byteorder::LittleEndian::read_i32`: the same four bytes read as a
/// two's-complement number.
#[verifier::external_body]
fn le_read_i32(buf: &[u8]) -> (r: i32)
    requires
        buf@.len() >= 4,
    ensures
        r == i32_le(buf@, 0),
{
    LittleEndian::read_i32(buf)
}

/// `byteorder::LittleEndian::read_u64`: the first eight bytes of `buf`, the
/// low byte first.  The outside function panics on a shorter slice.
#[verifier::external_body]
fn le_read_u64(buf: &[u8]) -> (r: u64)
    requires
        buf@.len() >= 8,
    ensures
        r == u64_le(buf@, 0),
{
    LittleEndian::read_u64(buf)
}

/// Reads the unsigned 16-bit value at `at`.
pub fn read_u16(data: &[u8], at: usize) -> (r: u16)
    requires
        at + 2 <= data.len(),
    ensures
        r == u16_le(data@, at as int),
{
    le_read_u16(slice_subrange(data, at, at + 2))
}

/// Reads the signed 16-bit value at `at`.
pub fn read_i16(data: &[u8], at: usize) -> (r: i16)
    requires
        at + 2 <= data.len(),
    ensures
        r == i16_le(data@, at as int),
{
    le_read_i16(slice_subrange(data, at, at + 2))
}

/// Reads the unsigned 32-bit value at `at`.
pub fn read_u32(data: &[u8], at: usize) -> (r: u32)
    requires
        at + 4 <= data.len(),
    ensures
        r == u32_le(data@, at as int),
{
    le_read_u32(slice_subrange(data, at, at + 4))
}

/// Reads the signed 32-bit value at `at`.
pub fn read_i32(data: &[u8], at: usize) -> (r: i32)
    requires
        at + 4 <= data.len(),
    ensures
        r == i32_le(data@, at as int),
{
    le_read_i32(slice_subrange(data, at, at + 4))
}

/// Reads the unsigned 64-bit value at `at`.
pub fn read_u64(data: &[u8], at: usize) -> (r: u64)
    requires
        at + 8 <= data.len(),
    ensures
        r == u64_le(data@, at as int),
{
    le_read_u64(slice_subrange(data, at, at + 8))
}

} // verus!
