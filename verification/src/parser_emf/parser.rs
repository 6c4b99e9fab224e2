//! The parser: the model that it fills and the ways of adding a field.

use super::fields::byte_item;
use super::fields::hex2_item;
use super::fields::hex8_item;
use super::fields::hex_item;
use super::fields::i16_item;
use super::fields::i32_item;
use super::fields::item;
use super::fields::labelled_item;
use super::fields::numbered;
use super::fields::point_l_items;
use super::fields::point_s_items;
use super::fields::prefixed_hex;
use super::fields::rgb_item;
use super::fields::rgb_text;
use super::fields::u16_item;
use super::fields::u32_item;
use super::fields::utf16le_decoded;
use super::model::ItemView;
use super::model::TreeModel;
use crate::bytes::read_i16;
use crate::bytes::read_i32;
use crate::bytes::read_u16;
use crate::bytes::read_u32;
use crate::bytes::u32_le;
use crate::text::decimal_signed;
use crate::text::decimal_unsigned;
use crate::text::push_hex;
use vstd::prelude::*;
use vstd::slice::slice_subrange;
use vstd::string::StringExecFns;

verus! {

/// Why a record could not be read.
#[derive(Clone, Copy, Debug, PartialEq, Eq, Structural)]
pub enum EmfParseError {
    /// No reader is known for a record of this type.
    InvalidRecordType(u32),
    /// The data is shorter than the head of a record.
    BufferTooSmall,
    /// The data could not be read.
    DataError,
}

/// `encoding_rs::UTF_16LE.decode`: the text of little-endian UTF-16
/// bytes.  The outside function looks for a byte order mark, which may
/// change the encoding and does not reach the text, and puts U+FFFD where
/// the bytes are malformed; the contract only names the result.  It sizes
/// its buffer at up to three times the length of the input and a few
/// bytes more, and panics where that is more than a buffer may hold; an
/// input of an eighth of the address space stays clear of that.
#[verifier::external_body]
pub(crate) fn decode_utf16le(bytes: &[u8]) -> (text: String)
    requires
        8 * bytes@.len() <= usize::MAX,
    ensures
        text@ == utf16le_decoded(bytes@),
{
    let (text, _, _) = encoding_rs::UTF_16LE.decode(bytes);
    text.into_owned()
}

/// Reads the records of a metafile into a model.
#[derive(Debug)]
pub struct EmfParser {
    model: TreeModel,
}

impl View for EmfParser {
    type V = Seq<ItemView>;

    /// The fields read so far.
    closed spec fn view(&self) -> Seq<ItemView> {
        self.model@
    }
}

impl EmfParser {
    /// A parser that has read nothing.
    pub fn new() -> (parser: Self)
        ensures
            parser@ == Seq::<ItemView>::empty(),
    {
        EmfParser { model: TreeModel::new() }
    }

    /// The model.
    pub fn model(&self) -> (model: &TreeModel)
        ensures
            model@ == self@,
    {
        &self.model
    }

    /// Adds one field to the model.
    pub fn add_iter(&mut self, name: &str, value: String, offset: usize, length: usize, vtype: &str)
        ensures
            final(self)@ == old(self)@.push(
                item(name@, value@, offset as int, length as int, vtype@),
            ),
    {
        self.model.add_item(name, value, offset, length, vtype);
    }

    /// Adds the unsigned 32-bit field at `at`.
    pub(crate) fn put_u32(&mut self, name: &str, data: &[u8], at: usize)
        requires
            at + 4 <= data.len(),
        ensures
            final(self)@ == old(self)@.push(u32_item(name@, data@, at as int)),
    {
        let value: u32 = read_u32(data, at);
        self.add_iter(name, decimal_unsigned(value as u64), at, 4, "<I");
    }

    /// Adds the signed 32-bit field at `at`.
    pub(crate) fn put_i32(&mut self, name: &str, data: &[u8], at: usize)
        requires
            at + 4 <= data.len(),
        ensures
            final(self)@ == old(self)@.push(i32_item(name@, data@, at as int)),
    {
        let value: i32 = read_i32(data, at);
        self.add_iter(name, decimal_signed(value as i64), at, 4, "<i");
    }

    /// Adds the unsigned 16-bit field at `at`.
    pub(crate) fn put_u16(&mut self, name: &str, data: &[u8], at: usize)
        requires
            at + 2 <= data.len(),
        ensures
            final(self)@ == old(self)@.push(u16_item(name@, data@, at as int)),
    {
        let value: u16 = read_u16(data, at);
        self.add_iter(name, decimal_unsigned(value as u64), at, 2, "<H");
    }

    /// Adds the signed 16-bit field at `at`.
    pub(crate) fn put_i16(&mut self, name: &str, data: &[u8], at: usize, vtype: &str)
        requires
            at + 2 <= data.len(),
        ensures
            final(self)@ == old(self)@.push(i16_item(name@, data@, at as int, vtype@)),
    {
        let value: i16 = read_i16(data, at);
        self.add_iter(name, decimal_signed(value as i64), at, 2, vtype);
    }

    /// Adds the byte at `at`.
    pub(crate) fn put_byte(&mut self, name: &str, data: &[u8], at: usize)
        requires
            at < data.len(),
        ensures
            final(self)@ == old(self)@.push(byte_item(name@, data@, at as int)),
    {
        self.add_iter(name, decimal_unsigned(data[at] as u64), at, 1, "b");
    }

    /// Adds the unsigned 32-bit field at `at`, in hexadecimal with zeros in
    /// front up to `width` digits.
    fn put_hex_as(&mut self, name: &str, data: &[u8], at: usize, width: usize, upper: bool, vtype: &str)
        requires
            at + 4 <= data.len(),
        ensures
            final(self)@ == old(self)@.push(
                item(
                    name@,
                    prefixed_hex(u32_le(data@, at as int), width as nat, upper),
                    at as int,
                    4,
                    vtype@,
                ),
            ),
    {
        let value: u32 = read_u32(data, at);
        let mut text: String = String::from_str("0x");
        push_hex(&mut text, value as u64, width, upper);
        self.add_iter(name, text, at, 4, vtype);
    }

    /// Adds the unsigned 32-bit field at `at`, in hexadecimal.
    pub(crate) fn put_hex(&mut self, name: &str, data: &[u8], at: usize)
        requires
            at + 4 <= data.len(),
        ensures
            final(self)@ == old(self)@.push(hex_item(name@, data@, at as int)),
    {
        self.put_hex_as(name, data, at, 0, true, "<I");
    }

    /// Adds the bit pattern of the signed 32-bit field at `at`, in eight
    /// hexadecimal digits.
    pub(crate) fn put_hex8(&mut self, name: &str, data: &[u8], at: usize)
        requires
            at + 4 <= data.len(),
        ensures
            final(self)@ == old(self)@.push(hex8_item(name@, data@, at as int)),
    {
        self.put_hex_as(name, data, at, 8, true, "<i");
    }

    /// Adds the unsigned 32-bit field at `at`, in lower-case hexadecimal.
    pub(crate) fn put_hex2(&mut self, name: &str, data: &[u8], at: usize)
        requires
            at + 4 <= data.len(),
        ensures
            final(self)@ == old(self)@.push(hex2_item(name@, data@, at as int)),
    {
        self.put_hex_as(name, data, at, 2, false, "<I");
    }

    /// Adds the colour in the three bytes at `at`.
    pub(crate) fn put_rgb(&mut self, data: &[u8], at: usize)
        requires
            at + 3 <= data.len(),
        ensures
            final(self)@ == old(self)@.push(rgb_item(data@, at as int)),
    {
        let mut text: String = String::new();
        push_hex(&mut text, data[at + 2] as u64, 2, true);
        push_hex(&mut text, data[at + 1] as u64, 2, true);
        push_hex(&mut text, data[at] as u64, 2, true);
        assert(text@ =~= rgb_text(data@, at as int));
        self.add_iter("RGB", text, at, 3, "clr");
    }

    /// Adds the unsigned 32-bit field at `at` with `label` behind its
    /// value.
    pub(crate) fn put_labelled(&mut self, name: &str, data: &[u8], at: usize, label: &str)
        requires
            at + 4 <= data.len(),
        ensures
            final(self)@ == old(self)@.push(labelled_item(name@, data@, at as int, label@)),
    {
        let value: u32 = read_u32(data, at);
        let mut text: String = decimal_unsigned(value as u64);
        text.append(" (");
        text.append(label);
        text.append(")");
        self.add_iter(name, text, at, 4, "<I");
    }

    /// Adds the text that the bytes `data[at..at + length]` hold in
    /// little-endian UTF-16.
    pub(crate) fn put_utf16(&mut self, name: &str, data: &[u8], at: usize, length: usize, vtype: &str)
        requires
            at + length <= data.len(),
            8 * length <= usize::MAX,
        ensures
            final(self)@ == old(self)@.push(
                item(
                    name@,
                    utf16le_decoded(data@.subrange(at as int, at + length)),
                    at as int,
                    length as int,
                    vtype@,
                ),
            ),
    {
        let text: String = decode_utf16le(slice_subrange(data, at, at + length));
        self.add_iter(name, text, at, length, vtype);
    }

    /// Adds the two signed 16-bit coordinates of a point.
    pub fn point_s(&mut self, data: &[u8], offset: usize, suffix: &str)
        requires
            offset + 4 <= data.len(),
        ensures
            final(self)@ == old(self)@ + point_s_items(data@, offset as int, suffix@),
    {
        let mut x_name: String = String::from_str("x");
        x_name.append(suffix);
        let mut y_name: String = String::from_str("y");
        y_name.append(suffix);
        self.put_i16(x_name.as_str(), data, offset, "<h");
        self.put_i16(y_name.as_str(), data, offset + 2, "<h");
        assert(self@ =~= old(self)@ + point_s_items(data@, offset as int, suffix@));
    }

    /// Adds the two signed 32-bit coordinates of a point.
    pub fn point_l(&mut self, data: &[u8], offset: usize, suffix: &str)
        requires
            offset + 8 <= data.len(),
        ensures
            final(self)@ == old(self)@ + point_l_items(data@, offset as int, suffix@),
    {
        let mut x_name: String = String::from_str("x");
        x_name.append(suffix);
        let mut y_name: String = String::from_str("y");
        y_name.append(suffix);
        self.put_i32(x_name.as_str(), data, offset);
        self.put_i32(y_name.as_str(), data, offset + 4);
        assert(self@ =~= old(self)@ + point_l_items(data@, offset as int, suffix@));
    }

    /// The name `name` with the number `n` behind it.
    pub(crate) fn numbered_name(name: &str, n: u64) -> (text: String)
        ensures
            text@ == numbered(name@, n as int),
    {
        let mut text: String = String::from_str(name);
        text.append(decimal_unsigned(n).as_str());
        text
    }
}

} // verus!
