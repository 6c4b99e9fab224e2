//! The head of a metafile and the comments in it.

use super::fields::hex2_item;
use super::fields::hex8_item;
use super::fields::item;
use super::fields::labelled_item;
use super::fields::point_l_items;
use super::fields::u16_item;
use super::fields::u32_item;
use super::fields::utf16le_decoded;
use super::model::ItemView;
use super::objects::wide_name_fits;
use super::parser::EmfParser;
use crate::bytes::read_u32;
use crate::bytes::u32_le;
use crate::text::byte_list;
use crate::text::format_byte_list;
use vstd::prelude::*;
use vstd::slice::slice_subrange;

verus! {

/// The four letters that mark a public comment: `GDIC`.
pub open spec fn public_comment_mark() -> Seq<u8> {
    seq![0x47u8, 0x44u8, 0x49u8, 0x43u8]
}

/// A description in UTF-16 of `units` units at `at`.
pub open spec fn description_item(value: Seq<u8>, at: int, units: int) -> ItemView {
    item(
        "Description"@,
        utf16le_decoded(value.subrange(at, at + 2 * units)),
        at,
        2 * units,
        "txt"@,
    )
}

/// Whether `value` holds a head and the description that the head places.
pub open spec fn parse_header_fits(value: Seq<u8>) -> bool {
    value.len() >= 108 && u32_le(value, 64) + 2 * u32_le(value, 60) <= u32::MAX && wide_name_fits(
        value,
        u32_le(value, 64),
        u32_le(value, 60),
    )
}

/// The fields of the head of a metafile.
pub open spec fn parse_header_items(value: Seq<u8>) -> Seq<ItemView> {
    point_l_items(value, 8, "S"@) + point_l_items(value, 16, "E"@) + point_l_items(
        value,
        24,
        "S (mm)"@,
    ) + point_l_items(value, 32, "E (mm)"@) + seq![
        hex8_item("Signature"@, value, 40),
        hex8_item("Version"@, value, 44),
        u32_item("Size"@, value, 48),
        u32_item("Records"@, value, 52),
        u16_item("Objects"@, value, 56),
        u16_item("Reservd"@, value, 58),
        u32_item("DescSize"@, value, 60),
        hex2_item("DescOffset"@, value, 64),
        u32_item("PalEntries"@, value, 68),
    ] + point_l_items(value, 72, "Dev"@) + point_l_items(value, 80, "Dev (mm)"@) + seq![
        u32_item("cbPxlFmt"@, value, 88),
        u32_item("offPxlFmt"@, value, 92),
        u32_item("bOpenGL"@, value, 96),
    ] + point_l_items(value, 100, " (micrometers)"@).push(
        description_item(value, u32_le(value, 64), u32_le(value, 60)),
    )
}

/// Whether `value` holds the start of a group and its description.
pub open spec fn gc_begin_group_fits(value: Seq<u8>) -> bool {
    value.len() >= 40 && wide_name_fits(value, 40, u32_le(value, 36))
}

/// The fields of the start of a group of comments: its bounds, the length
/// of its description, and the description.
pub open spec fn gc_begin_group_items(value: Seq<u8>) -> Seq<ItemView> {
    point_l_items(value, 20, "S"@) + point_l_items(value, 28, "E"@) + seq![
        u32_item("DescLength"@, value, 36),
        description_item(value, 40, u32_le(value, 36)),
    ]
}

/// What the number of a public comment stands for.
pub open spec fn comment_label(id: int) -> Seq<char> {
    if id == 0x8000_0001 {
        "WindowsMetafile"@
    } else if id == 2 {
        "BeginGroup"@
    } else if id == 3 {
        "EndGroup"@
    } else if id == 0x4000_0004 {
        "MultiFormats"@
    } else if id == 0x40 {
        "UNICODE_STRING"@
    } else if id == 0x80 {
        "UNICODE_END"@
    } else {
        "unknown"@
    }
}

/// Whether the comment in `value` is a public one.
pub open spec fn is_public_comment(value: Seq<u8>) -> bool {
    value.subrange(12, 16) == public_comment_mark()
}

/// Whether `value` holds a comment: its type, and for a public comment
/// its number and what belongs to that number.
pub open spec fn gdi_comment_fits(value: Seq<u8>) -> bool {
    value.len() >= 16 && (is_public_comment(value) ==> value.len() >= 20 && (u32_le(value, 16) == 2
        ==> gc_begin_group_fits(value)))
}

/// The fields of a comment: its type, and for a public comment its number
/// and, where the comment starts a group, the fields of the group.
pub open spec fn gdi_comment_items(value: Seq<u8>) -> Seq<ItemView> {
    let kind = seq![item("Type"@, byte_list(value.subrange(12, 16)), 12, 4, "txt"@)];
    if is_public_comment(value) {
        let id = u32_le(value, 16);
        let number = kind.push(labelled_item("PubComment ID"@, value, 16, comment_label(id)));
        if id == 2 {
            number + gc_begin_group_items(value)
        } else {
            number
        }
    } else {
        kind
    }
}

impl EmfParser {
    /// The head of a metafile.
    pub fn parse_header(&mut self, _size: usize, data: &[u8])
        requires
            parse_header_fits(data@),
        ensures
            final(self)@ == old(self)@ + parse_header_items(data@),
    {
        self.point_l(data, 8, "S");
        self.point_l(data, 16, "E");
        self.point_l(data, 24, "S (mm)");
        self.point_l(data, 32, "E (mm)");
        self.put_hex8("Signature", data, 40);
        self.put_hex8("Version", data, 44);
        self.put_u32("Size", data, 48);
        self.put_u32("Records", data, 52);
        self.put_u16("Objects", data, 56);
        self.put_u16("Reservd", data, 58);
        self.put_u32("DescSize", data, 60);
        self.put_hex2("DescOffset", data, 64);
        self.put_u32("PalEntries", data, 68);
        self.point_l(data, 72, "Dev");
        self.point_l(data, 80, "Dev (mm)");
        self.put_u32("cbPxlFmt", data, 88);
        self.put_u32("offPxlFmt", data, 92);
        self.put_u32("bOpenGL", data, 96);
        self.point_l(data, 100, " (micrometers)");
        let units: usize = read_u32(data, 60) as usize;
        let at: usize = read_u32(data, 64) as usize;
        assert(at + 2 * units <= data.len());
        self.put_utf16("Description", data, at, 2 * units, "txt");
        assert(self@ =~= old(self)@ + parse_header_items(data@));
    }

    /// The start of a group of comments.
    pub fn gc_begin_group(&mut self, _size: usize, value: &[u8])
        requires
            gc_begin_group_fits(value@),
        ensures
            final(self)@ == old(self)@ + gc_begin_group_items(value@),
    {
        self.point_l(value, 20, "S");
        self.point_l(value, 28, "E");
        self.put_u32("DescLength", value, 36);
        let units: usize = read_u32(value, 36) as usize;
        assert(40 + 2 * units <= value.len());
        self.put_utf16("Description", value, 40, 2 * units, "txt");
        assert(self@ =~= old(self)@ + gc_begin_group_items(value@));
    }

    /// The end of a group of comments: the record has no fields.
    pub fn gc_end_group(&mut self, _size: usize, _value: &[u8])
        ensures
            final(self)@ == old(self)@,
    {
    }

    /// A comment.
    pub fn gdi_comment(&mut self, _size: usize, value: &[u8])
        requires
            gdi_comment_fits(value@),
        ensures
            final(self)@ == old(self)@ + gdi_comment_items(value@),
    {
        let kind = slice_subrange(value, 12, 16);
        self.add_iter("Type", format_byte_list(kind), 12, 4, "txt");
        let public: bool = kind[0] == 0x47 && kind[1] == 0x44 && kind[2] == 0x49 && kind[3] == 0x43;
        assert(public == is_public_comment(value@)) by {
            if public {
                assert(kind@ =~= public_comment_mark());
            } else {
                assert(public_comment_mark()[0] == 0x47 && public_comment_mark()[1] == 0x44
                    && public_comment_mark()[2] == 0x49 && public_comment_mark()[3] == 0x43);
            }
        }
        if public {
            let id: u32 = read_u32(value, 16);
            let label: &str = if id == 0x8000_0001 {
                "WindowsMetafile"
            } else if id == 2 {
                "BeginGroup"
            } else if id == 3 {
                "EndGroup"
            } else if id == 0x4000_0004 {
                "MultiFormats"
            } else if id == 0x40 {
                "UNICODE_STRING"
            } else if id == 0x80 {
                "UNICODE_END"
            } else {
                "unknown"
            };
            self.put_labelled("PubComment ID", value, 16, label);
            if id == 2 {
                self.gc_begin_group(0, value);
            } else if id == 3 {
                self.gc_end_group(0, value);
            }
        }
        assert(self@ =~= old(self)@ + gdi_comment_items(value@));
    }
}

} // verus!
