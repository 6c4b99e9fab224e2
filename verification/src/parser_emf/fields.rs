//! What the fields of a record look like: their names, their values as
//! text, their places.

use super::model::ItemView;
use crate::bytes::i16_le;
use crate::bytes::i32_le;
use crate::bytes::u16_le;
use crate::bytes::u32_le;
use crate::text::decimal;
use crate::text::hex;
use vstd::prelude::*;

verus! {

/// A name for the text that `encoding_rs` decodes little-endian UTF-16
/// bytes to.  Nothing is claimed of it, but that the same bytes give the
/// same text.
pub uninterp spec fn utf16le_decoded(bytes: Seq<u8>) -> Seq<char>;

/// A field with the given parts.
pub open spec fn item(
    name: Seq<char>,
    value: Seq<char>,
    offset: int,
    length: int,
    vtype: Seq<char>,
) -> ItemView {
    ItemView { name, value, offset, length, vtype }
}

/// An unsigned 32-bit field, in decimal.
pub open spec fn u32_item(name: Seq<char>, data: Seq<u8>, at: int) -> ItemView {
    item(name, decimal(u32_le(data, at)), at, 4, "<I"@)
}

/// A signed 32-bit field, in decimal.
pub open spec fn i32_item(name: Seq<char>, data: Seq<u8>, at: int) -> ItemView {
    item(name, decimal(i32_le(data, at)), at, 4, "<i"@)
}

/// An unsigned 16-bit field, in decimal.
pub open spec fn u16_item(name: Seq<char>, data: Seq<u8>, at: int) -> ItemView {
    item(name, decimal(u16_le(data, at)), at, 2, "<H"@)
}

/// A signed 16-bit field, in decimal, of the given type.
pub open spec fn i16_item(name: Seq<char>, data: Seq<u8>, at: int, vtype: Seq<char>) -> ItemView {
    item(name, decimal(i16_le(data, at)), at, 2, vtype)
}

/// A single byte, in decimal.
pub open spec fn byte_item(name: Seq<char>, data: Seq<u8>, at: int) -> ItemView {
    item(name, decimal(data[at] as int), at, 1, "b"@)
}

/// `0x` and the digits of `n` in hexadecimal.
pub open spec fn prefixed_hex(n: int, width: nat, upper: bool) -> Seq<char> {
    "0x"@ + hex(n as nat, width, upper)
}

/// An unsigned 32-bit field, in upper-case hexadecimal.
pub open spec fn hex_item(name: Seq<char>, data: Seq<u8>, at: int) -> ItemView {
    item(name, prefixed_hex(u32_le(data, at), 0, true), at, 4, "<I"@)
}

/// A signed 32-bit field whose bit pattern is shown as eight upper-case
/// hexadecimal digits.
pub open spec fn hex8_item(name: Seq<char>, data: Seq<u8>, at: int) -> ItemView {
    item(name, prefixed_hex(u32_le(data, at), 8, true), at, 4, "<i"@)
}

/// An unsigned 32-bit field, in lower-case hexadecimal of at least two
/// digits.
pub open spec fn hex2_item(name: Seq<char>, data: Seq<u8>, at: int) -> ItemView {
    item(name, prefixed_hex(u32_le(data, at), 2, false), at, 4, "<I"@)
}

/// A colour as text: red, green and blue, two hexadecimal digits each,
/// from the three bytes at `at`, which hold them in the opposite order.
pub open spec fn rgb_text(data: Seq<u8>, at: int) -> Seq<char> {
    hex(data[at + 2] as nat, 2, true) + hex(data[at + 1] as nat, 2, true) + hex(
        data[at] as nat,
        2,
        true,
    )
}

/// A colour field.
pub open spec fn rgb_item(data: Seq<u8>, at: int) -> ItemView {
    item("RGB"@, rgb_text(data, at), at, 3, "clr"@)
}

/// A point of two signed 32-bit coordinates.
pub open spec fn point_l_items(data: Seq<u8>, at: int, suffix: Seq<char>) -> Seq<ItemView> {
    seq![i32_item("x"@ + suffix, data, at), i32_item("y"@ + suffix, data, at + 4)]
}

/// A point of two signed 16-bit coordinates.
pub open spec fn point_s_items(data: Seq<u8>, at: int, suffix: Seq<char>) -> Seq<ItemView> {
    seq![
        i16_item("x"@ + suffix, data, at, "<h"@),
        i16_item("y"@ + suffix, data, at + 2, "<h"@),
    ]
}

/// A number with what it stands for behind it in brackets.
pub open spec fn labelled(n: int, label: Seq<char>) -> Seq<char> {
    decimal(n) + " ("@ + label + ")"@
}

/// An unsigned 32-bit field with what its value stands for.
pub open spec fn labelled_item(name: Seq<char>, data: Seq<u8>, at: int, label: Seq<char>)
    -> ItemView {
    item(name, labelled(u32_le(data, at), label), at, 4, "<I"@)
}

/// A name with a number behind it.
pub open spec fn numbered(name: Seq<char>, n: int) -> Seq<char> {
    name + decimal(n)
}

/// The first `count` points of 32-bit coordinates from `start` on, each
/// named by its number.
pub open spec fn points_l(data: Seq<u8>, start: int, count: nat) -> Seq<ItemView>
    decreases count,
{
    if count == 0 {
        Seq::empty()
    } else {
        points_l(data, start, (count - 1) as nat) + point_l_items(
            data,
            start + 8 * (count - 1),
            decimal(count - 1),
        )
    }
}

/// The first `count` points of 16-bit coordinates from `start` on, each
/// named by its number.
pub open spec fn points_s(data: Seq<u8>, start: int, count: nat) -> Seq<ItemView>
    decreases count,
{
    if count == 0 {
        Seq::empty()
    } else {
        points_s(data, start, (count - 1) as nat) + point_s_items(
            data,
            start + 4 * (count - 1),
            decimal(count - 1),
        )
    }
}

/// The first `count` unsigned 32-bit fields from `start` on, each called
/// `name` and its number.
pub open spec fn numbered_u32s(name: Seq<char>, data: Seq<u8>, start: int, count: nat) -> Seq<
    ItemView,
>
    decreases count,
{
    if count == 0 {
        Seq::empty()
    } else {
        numbered_u32s(name, data, start, (count - 1) as nat).push(
            u32_item(numbered(name, count - 1), data, start + 4 * (count - 1)),
        )
    }
}

/// The first `count` single bytes from `start` on, each called `name` and
/// its number.
pub open spec fn numbered_bytes(name: Seq<char>, data: Seq<u8>, start: int, count: nat) -> Seq<
    ItemView,
>
    decreases count,
{
    if count == 0 {
        Seq::empty()
    } else {
        numbered_bytes(name, data, start, (count - 1) as nat).push(
            byte_item(numbered(name, count - 1), data, start + (count - 1)),
        )
    }
}

/// A signed count as a number of repetitions: none where it is negative.
pub open spec fn times(count: int) -> nat {
    if count > 0 {
        count as nat
    } else {
        0
    }
}

} // verus!
