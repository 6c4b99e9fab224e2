//! Records that make, select and delete objects: pens, brushes,
//! palettes, colour spaces and colour profiles.

use super::fields::hex_item;
use super::fields::i32_item;
use super::fields::item;
use super::fields::labelled_item;
use super::fields::numbered_u32s;
use super::fields::rgb_item;
use super::fields::u32_item;
use super::fields::utf16le_decoded;
use super::model::ItemView;
use super::parser::EmfParser;
use crate::bytes::read_u32;
use crate::bytes::u32_le;
use crate::text::byte_list;
use crate::text::format_byte_list;
use vstd::prelude::*;
use vstd::slice::slice_subrange;

verus! {

/// The fields of the object that is selected, in hexadecimal.
pub open spec fn select_object_items(value: Seq<u8>) -> Seq<ItemView> {
    seq![
        hex_item("ObjID"@, value, 8),
    ]
}

/// The fields of a pen: its number, style, width and colour.
pub open spec fn create_pen_items(value: Seq<u8>) -> Seq<ItemView> {
    seq![
        hex_item("ObjID"@, value, 8),
        i32_item("PenStyle"@, value, 12),
        i32_item("Width"@, value, 16),
        rgb_item(value, 24),
    ]
}

/// The fields of a brush: its number, style, colour and hatch.
pub open spec fn create_brush_indirect_items(value: Seq<u8>) -> Seq<ItemView> {
    seq![
        hex_item("ObjID"@, value, 8),
        i32_item("BrushStyle"@, value, 12),
        rgb_item(value, 16),
        i32_item("Hatch"@, value, 20),
    ]
}

/// The fields of a palette and its new number of entries.
pub open spec fn resize_palette_items(value: Seq<u8>) -> Seq<ItemView> {
    seq![
        i32_item("lhPal"@, value, 8),
        i32_item("NumOfEntries"@, value, 12),
    ]
}

/// The fields of a colour space: its number.
pub open spec fn create_color_space_items(value: Seq<u8>) -> Seq<ItemView> {
    seq![
        u32_item("lhCS"@, value, 8),
    ]
}

/// The fields of a font identifier: checksum and index.
pub open spec fn force_ufi_mapping_items(value: Seq<u8>) -> Seq<ItemView> {
    seq![
        u32_item("ChkSum"@, value, 8),
        u32_item("Idx"@, value, 12),
    ]
}

/// Whether `value` holds the dashes and gaps that it counts.
pub open spec fn ext_create_pen_fits(value: Seq<u8>) -> bool {
    value.len() >= 52 && 4 * u32_le(value, 48) <= u32::MAX && 52 + 4 * u32_le(value, 48)
        <= value.len()
}

/// The fields of an extended pen: its number, the places of its bitmap,
/// its styles, width, colour and hatch, its dashes and gaps, and the place
/// where a bitmap may follow.
pub open spec fn ext_create_pen_items(value: Seq<u8>) -> Seq<ItemView> {
    seq![
        hex_item("ObjID"@, value, 8),
        u32_item("offBmi"@, value, 12),
        u32_item("cbBmi"@, value, 16),
        u32_item("offBits"@, value, 20),
        u32_item("cbBits"@, value, 24),
        u32_item("PenStyle"@, value, 28),
        u32_item("Width"@, value, 32),
        u32_item("BrushStyle"@, value, 36),
        rgb_item(value, 40),
        u32_item("BrushHatch"@, value, 44),
        u32_item("NumEntryStyle"@, value, 48),
    ] + numbered_u32s("Dash/Gap "@, value, 52, u32_le(value, 48) as nat).push(
        item("BitmapBuffer"@, "(Optional)"@, 52 + 4 * u32_le(value, 48), 0, ""@),
    )
}

/// The three numbers at the head of a colour profile: flags, the length of
/// the name and the length of the data.
pub open spec fn profile_head_items(value: Seq<u8>) -> Seq<ItemView> {
    seq![
        u32_item("dwFlags"@, value, 8),
        u32_item("cbName"@, value, 12),
        u32_item("cbData"@, value, 16),
    ]
}

/// The data of a colour profile: only its place and length are noted.
pub open spec fn profile_data_item(value: Seq<u8>, at: int, length: int) -> ItemView {
    item("Data"@, ""@, at, length, "txt"@)
}

/// Whether `value` holds the name, in single bytes, that it announces.
pub open spec fn set_icm_profile_a_fits(value: Seq<u8>) -> bool {
    value.len() >= 20 && 20 + u32_le(value, 12) <= value.len()
}

/// The fields of a colour profile with a name in single bytes.
pub open spec fn set_icm_profile_a_items(value: Seq<u8>) -> Seq<ItemView> {
    let name_len = u32_le(value, 12);
    profile_head_items(value) + seq![
        item("Name"@, byte_list(value.subrange(20, 20 + name_len)), 20, name_len, "txt"@),
        profile_data_item(value, 20 + name_len, u32_le(value, 16)),
    ]
}

/// Whether `value` holds, from `at` on, a name of `units` UTF-16 units,
/// and the name is short enough to be decoded.
pub open spec fn wide_name_fits(value: Seq<u8>, at: int, units: int) -> bool {
    2 * units <= u32::MAX && at + 2 * units <= value.len() && 16 * units <= usize::MAX
}

/// Whether `value` holds the name, in UTF-16, that it announces.
pub open spec fn set_icm_profile_w_fits(value: Seq<u8>) -> bool {
    value.len() >= 20 && wide_name_fits(value, 20, u32_le(value, 12))
}

/// A name in UTF-16 of `units` units at `at`.
pub open spec fn wide_name_item(value: Seq<u8>, at: int, units: int) -> ItemView {
    item("Name"@, utf16le_decoded(value.subrange(at, at + 2 * units)), at, 2 * units, "utxt"@)
}

/// The fields of a colour profile with a name in UTF-16.
pub open spec fn set_icm_profile_w_items(value: Seq<u8>) -> Seq<ItemView> {
    let units = u32_le(value, 12);
    profile_head_items(value) + seq![
        wide_name_item(value, 20, units),
        profile_data_item(value, 20 + 2 * units, u32_le(value, 16)),
    ]
}

/// What an action on the colour space stands for.
pub open spec fn color_space_label(action: int) -> Seq<char> {
    if action == 1 {
        "ENABLE"@
    } else if action == 2 {
        "DISABLE"@
    } else if action == 3 {
        "DELETE_TRANSFORM"@
    } else {
        "unknown"@
    }
}

/// What the flags of a colour match stand for.
pub open spec fn color_match_label(flags: int) -> Seq<char> {
    if flags == 0 {
        "NOTEMBEDDED"@
    } else if flags == 1 {
        "EMBEDDED"@
    } else {
        "unknown"@
    }
}

/// Whether `value` holds the name that it announces.
pub open spec fn clr_match_to_target_w_fits(value: Seq<u8>) -> bool {
    value.len() >= 24 && wide_name_fits(value, 24, u32_le(value, 16))
}

/// The fields of a colour match: the action, the flags, the lengths of
/// name and data, the name and the place of the data.
pub open spec fn clr_match_to_target_w_items(value: Seq<u8>) -> Seq<ItemView> {
    let units = u32_le(value, 16);
    seq![
        labelled_item("dwAction"@, value, 8, color_space_label(u32_le(value, 8))),
        labelled_item("dwFlags"@, value, 12, color_match_label(u32_le(value, 12))),
        u32_item("cbName"@, value, 16),
        u32_item("cbData"@, value, 20),
        wide_name_item(value, 24, units),
        profile_data_item(value, 24 + 2 * units, u32_le(value, 20)),
    ]
}

impl EmfParser {
    /// The object that is selected, in hexadecimal.
    pub fn select_object(&mut self, _size: usize, value: &[u8])
        requires
            value.len() >= 12,
        ensures
            final(self)@ == old(self)@ + select_object_items(value@),
    {
        self.put_hex("ObjID", value, 8);
        assert(self@ =~= old(self)@ + select_object_items(value@));
    }

    /// A pen: its number, style, width and colour.
    pub fn create_pen(&mut self, _size: usize, value: &[u8])
        requires
            value.len() >= 27,
        ensures
            final(self)@ == old(self)@ + create_pen_items(value@),
    {
        self.put_hex("ObjID", value, 8);
        self.put_i32("PenStyle", value, 12);
        self.put_i32("Width", value, 16);
        self.put_rgb(value, 24);
        assert(self@ =~= old(self)@ + create_pen_items(value@));
    }

    /// A brush: its number, style, colour and hatch.
    pub fn create_brush_indirect(&mut self, _size: usize, value: &[u8])
        requires
            value.len() >= 24,
        ensures
            final(self)@ == old(self)@ + create_brush_indirect_items(value@),
    {
        self.put_hex("ObjID", value, 8);
        self.put_i32("BrushStyle", value, 12);
        self.put_rgb(value, 16);
        self.put_i32("Hatch", value, 20);
        assert(self@ =~= old(self)@ + create_brush_indirect_items(value@));
    }

    /// A palette and its new number of entries.
    pub fn resize_palette(&mut self, _size: usize, value: &[u8])
        requires
            value.len() >= 16,
        ensures
            final(self)@ == old(self)@ + resize_palette_items(value@),
    {
        self.put_i32("lhPal", value, 8);
        self.put_i32("NumOfEntries", value, 12);
        assert(self@ =~= old(self)@ + resize_palette_items(value@));
    }

    /// A colour space: its number.
    pub fn create_color_space(&mut self, _size: usize, value: &[u8])
        requires
            value.len() >= 12,
        ensures
            final(self)@ == old(self)@ + create_color_space_items(value@),
    {
        self.put_u32("lhCS", value, 8);
        assert(self@ =~= old(self)@ + create_color_space_items(value@));
    }

    /// A font identifier: checksum and index.
    pub fn force_ufi_mapping(&mut self, _size: usize, value: &[u8])
        requires
            value.len() >= 16,
        ensures
            final(self)@ == old(self)@ + force_ufi_mapping_items(value@),
    {
        self.put_u32("ChkSum", value, 8);
        self.put_u32("Idx", value, 12);
        assert(self@ =~= old(self)@ + force_ufi_mapping_items(value@));
    }

    /// The object that is deleted: read as `select_object` is.
    pub fn delete_object(&mut self, size: usize, value: &[u8])
        requires
            value.len() >= 12,
        ensures
            final(self)@ == old(self)@ + select_object_items(value@),
    {
        self.select_object(size, value);
    }

    /// The palette that is selected: read as `select_object` is.
    pub fn select_palette(&mut self, size: usize, value: &[u8])
        requires
            value.len() >= 12,
        ensures
            final(self)@ == old(self)@ + select_object_items(value@),
    {
        self.select_object(size, value);
    }

    /// The colour space that is selected: read as `select_object` is.
    pub fn set_color_space(&mut self, size: usize, value: &[u8])
        requires
            value.len() >= 12,
        ensures
            final(self)@ == old(self)@ + select_object_items(value@),
    {
        self.select_object(size, value);
    }

    /// The colour space that is deleted: read as `select_object` is.
    pub fn delete_color_space(&mut self, size: usize, value: &[u8])
        requires
            value.len() >= 12,
        ensures
            final(self)@ == old(self)@ + select_object_items(value@),
    {
        self.select_object(size, value);
    }

    /// An extended pen.
    pub fn ext_create_pen(&mut self, _size: usize, value: &[u8])
        requires
            ext_create_pen_fits(value@),
        ensures
            final(self)@ == old(self)@ + ext_create_pen_items(value@),
    {
        self.put_hex("ObjID", value, 8);
        self.put_u32("offBmi", value, 12);
        self.put_u32("cbBmi", value, 16);
        self.put_u32("offBits", value, 20);
        self.put_u32("cbBits", value, 24);
        self.put_u32("PenStyle", value, 28);
        self.put_u32("Width", value, 32);
        self.put_u32("BrushStyle", value, 36);
        self.put_rgb(value, 40);
        self.put_u32("BrushHatch", value, 44);
        self.put_u32("NumEntryStyle", value, 48);
        let styles: usize = read_u32(value, 48) as usize;
        assert(52 + 4 * styles <= value.len());
        self.put_numbered_u32s("Dash/Gap ", value, 52, styles);
        self.add_iter("BitmapBuffer", "(Optional)".to_owned(), 52 + 4 * styles, 0, "");
        assert(self@ =~= old(self)@ + ext_create_pen_items(value@));
    }

    /// The three numbers at the head of a colour profile.
    fn profile_head(&mut self, value: &[u8])
        requires
            value.len() >= 20,
        ensures
            final(self)@ == old(self)@ + profile_head_items(value@),
    {
        self.put_u32("dwFlags", value, 8);
        self.put_u32("cbName", value, 12);
        self.put_u32("cbData", value, 16);
        assert(self@ =~= old(self)@ + profile_head_items(value@));
    }

    /// A colour profile with a name in single bytes.
    pub fn set_icm_profile_a(&mut self, _size: usize, value: &[u8])
        requires
            set_icm_profile_a_fits(value@),
        ensures
            final(self)@ == old(self)@ + set_icm_profile_a_items(value@),
    {
        self.profile_head(value);
        let name_len: usize = read_u32(value, 12) as usize;
        let data_len: usize = read_u32(value, 16) as usize;
        assert(20 + name_len <= value.len());
        let name: String = format_byte_list(slice_subrange(value, 20, 20 + name_len));
        self.add_iter("Name", name, 20, name_len, "txt");
        self.add_iter("Data", "".to_owned(), 20 + name_len, data_len, "txt");
        assert(self@ =~= old(self)@ + set_icm_profile_a_items(value@));
    }

    /// A colour profile with a name in UTF-16.
    pub fn set_icm_profile_w(&mut self, _size: usize, value: &[u8])
        requires
            set_icm_profile_w_fits(value@),
        ensures
            final(self)@ == old(self)@ + set_icm_profile_w_items(value@),
    {
        self.profile_head(value);
        let units: usize = read_u32(value, 12) as usize;
        let data_len: usize = read_u32(value, 16) as usize;
        assert(20 + 2 * units <= value.len());
        self.put_utf16("Name", value, 20, 2 * units, "utxt");
        self.add_iter("Data", "".to_owned(), 20 + 2 * units, data_len, "txt");
        assert(self@ =~= old(self)@ + set_icm_profile_w_items(value@));
    }

    /// A colour match.
    pub fn clr_match_to_target_w(&mut self, _size: usize, value: &[u8])
        requires
            clr_match_to_target_w_fits(value@),
        ensures
            final(self)@ == old(self)@ + clr_match_to_target_w_items(value@),
    {
        let action: u32 = read_u32(value, 8);
        let action_label: &str = if action == 1 {
            "ENABLE"
        } else if action == 2 {
            "DISABLE"
        } else if action == 3 {
            "DELETE_TRANSFORM"
        } else {
            "unknown"
        };
        self.put_labelled("dwAction", value, 8, action_label);
        let flags: u32 = read_u32(value, 12);
        let flags_label: &str = if flags == 0 {
            "NOTEMBEDDED"
        } else if flags == 1 {
            "EMBEDDED"
        } else {
            "unknown"
        };
        self.put_labelled("dwFlags", value, 12, flags_label);
        self.put_u32("cbName", value, 16);
        self.put_u32("cbData", value, 20);
        let units: usize = read_u32(value, 16) as usize;
        let data_len: usize = read_u32(value, 20) as usize;
        assert(24 + 2 * units <= value.len());
        self.put_utf16("Name", value, 24, 2 * units, "utxt");
        self.add_iter("Data", "".to_owned(), 24 + 2 * units, data_len, "txt");
        assert(self@ =~= old(self)@ + clr_match_to_target_w_items(value@));
    }
}

} // verus!
