//! Records by their type: which reader a type has, what it needs, what
//! it adds.

use super::fields::times;
use super::geometry::arc_items;
use super::geometry::ext_flood_fill_items;
use super::geometry::invert_rgn_items;
use super::geometry::poly_fits;
use super::geometry::poly_polyline16_fits;
use super::geometry::poly_polyline16_items;
use super::geometry::poly_polyline_fits;
use super::geometry::poly_polyline_items;
use super::geometry::polybezier16_fits;
use super::geometry::polybezier16_items;
use super::geometry::polybezier_fits;
use super::geometry::polybezier_items;
use super::geometry::polydraw16_fits;
use super::geometry::polydraw16_items;
use super::geometry::polydraw_fits;
use super::geometry::polydraw_items;
use super::geometry::rectangle_items;
use super::geometry::round_rect_items;
use super::header::gc_begin_group_fits;
use super::header::gdi_comment_fits;
use super::header::gdi_comment_items;
use super::header::is_public_comment;
use super::header::parse_header_fits;
use super::header::parse_header_items;
use super::header::public_comment_mark;
use super::model::ItemView;
use super::objects::clr_match_to_target_w_fits;
use super::objects::clr_match_to_target_w_items;
use super::objects::create_brush_indirect_items;
use super::objects::create_color_space_items;
use super::objects::create_pen_items;
use super::objects::ext_create_pen_fits;
use super::objects::ext_create_pen_items;
use super::objects::force_ufi_mapping_items;
use super::objects::resize_palette_items;
use super::objects::select_object_items;
use super::objects::set_icm_profile_a_fits;
use super::objects::set_icm_profile_a_items;
use super::objects::set_icm_profile_w_fits;
use super::objects::set_icm_profile_w_items;
use super::objects::wide_name_fits;
use super::parser::EmfParseError;
use super::parser::EmfParser;
use super::state::restore_dc_items;
use super::state::scale_viewport_ext_ex_items;
use super::state::select_clip_path_items;
use super::state::set_arc_direction_items;
use super::state::set_bk_color_items;
use super::state::set_bk_mode_items;
use super::state::set_brush_org_ex_items;
use super::state::set_color_adjustment_items;
use super::state::set_layout_items;
use super::state::set_mapper_flags_items;
use super::state::set_miter_limit_items;
use super::state::set_rop2_items;
use super::state::set_text_justification_items;
use super::state::set_window_ext_ex_items;
use crate::bytes::i32_le;
use crate::bytes::read_i32;
use crate::bytes::read_u32;
use crate::bytes::u32_le;
use vstd::prelude::*;
use vstd::slice::slice_subrange;

verus! {

/// Whether records of this type have a reader.
pub open spec fn handled(record_type: u32) -> bool {
    match record_type {
        0x01 | 0x02 | 0x03 | 0x04 | 0x05 | 0x06 | 0x07 | 0x08 | 0x09 | 0x0A
        | 0x0B | 0x0C | 0x0D | 0x10 | 0x11 | 0x12 | 0x13 | 0x14 | 0x15 | 0x16
        | 0x17 | 0x18 | 0x19 | 0x1A | 0x1B | 0x1D | 0x1E | 0x1F | 0x20 | 0x21
        | 0x22 | 0x25 | 0x26 | 0x27 | 0x28 | 0x2A | 0x2B | 0x2C | 0x2D | 0x2E
        | 0x2F | 0x30 | 0x33 | 0x35 | 0x36 | 0x37 | 0x38 | 0x39 | 0x3A | 0x3B
        | 0x3C | 0x3D | 0x3E | 0x3F | 0x40 | 0x41 | 0x42 | 0x43 | 0x44 | 0x46
        | 0x49 | 0x55 | 0x56 | 0x57 | 0x58 | 0x59 | 0x5A | 0x5B | 0x5C | 0x5F
        | 0x62 | 0x63 | 0x64 | 0x65 | 0x6D | 0x70 | 0x71 | 0x73 | 0x78 | 0x79 => true,
        _ => false,
    }
}

/// Whether `data` is long enough for the reader of its type.  Data of a
/// type without a reader, or without fields, is always long enough.
pub open spec fn fits(record_type: u32, data: Seq<u8>) -> bool {
    match record_type {
        0x01 => parse_header_fits(data),
        0x02 | 0x03 | 0x04 | 0x05 | 0x06 => polybezier_fits(data),
        0x07 | 0x08 => poly_polyline_fits(data),
        0x09 | 0x0A | 0x0B | 0x0C | 0x1A | 0x1B | 0x36 => data.len() >= 16,
        0x0D => data.len() >= 16,
        0x10 => data.len() >= 12,
        0x11 | 0x12 | 0x13 | 0x15 | 0x16 | 0x62 => data.len() >= 12,
        0x14 => data.len() >= 12,
        0x17 => data.len() >= 32,
        0x18 | 0x19 => data.len() >= 11,
        0x1D | 0x1E | 0x2A | 0x2B | 0x3E | 0x3F | 0x40 => data.len() >= 24,
        0x1F | 0x20 => data.len() >= 24,
        0x22 => data.len() >= 12,
        0x25 | 0x28 | 0x30 | 0x64 | 0x65 => data.len() >= 12,
        0x26 => data.len() >= 27,
        0x27 => data.len() >= 24,
        0x2C => data.len() >= 32,
        0x2D | 0x2E | 0x2F | 0x37 => data.len() >= 40,
        0x33 => data.len() >= 16,
        0x35 => data.len() >= 24,
        0x38 => polydraw_fits(data),
        0x39 => data.len() >= 12,
        0x3A => data.len() >= 12,
        0x43 => data.len() >= 12,
        0x46 => gdi_comment_fits(data),
        0x49 => data.len() >= 28,
        0x55 | 0x56 | 0x57 | 0x58 | 0x59 => polybezier16_fits(data),
        0x5A | 0x5B => poly_polyline16_fits(data),
        0x5C => polydraw16_fits(data),
        0x5F => ext_create_pen_fits(data),
        0x63 => data.len() >= 12,
        0x6D => data.len() >= 16,
        0x70 => set_icm_profile_a_fits(data),
        0x71 => set_icm_profile_w_fits(data),
        0x73 => data.len() >= 12,
        0x78 => data.len() >= 16,
        0x79 => clr_match_to_target_w_fits(data),
        _ => true,
    }
}

/// The fields that the reader of `record_type` finds in `data`.
pub open spec fn record_items(record_type: u32, data: Seq<u8>) -> Seq<ItemView> {
    match record_type {
        0x01 => parse_header_items(data),
        0x02 | 0x03 | 0x04 | 0x05 | 0x06 => polybezier_items(data),
        0x07 | 0x08 => poly_polyline_items(data),
        0x09 | 0x0A | 0x0B | 0x0C | 0x1A | 0x1B | 0x36 => set_window_ext_ex_items(data),
        0x0D => set_brush_org_ex_items(data),
        0x10 => set_mapper_flags_items(data),
        0x11 | 0x12 | 0x13 | 0x15 | 0x16 | 0x62 => set_bk_mode_items(data),
        0x14 => set_rop2_items(data),
        0x17 => set_color_adjustment_items(data),
        0x18 | 0x19 => set_bk_color_items(data),
        0x1D | 0x1E | 0x2A | 0x2B | 0x3E | 0x3F | 0x40 => rectangle_items(data),
        0x1F | 0x20 => scale_viewport_ext_ex_items(data),
        0x22 => restore_dc_items(data),
        0x25 | 0x28 | 0x30 | 0x64 | 0x65 => select_object_items(data),
        0x26 => create_pen_items(data),
        0x27 => create_brush_indirect_items(data),
        0x2C => round_rect_items(data),
        0x2D | 0x2E | 0x2F | 0x37 => arc_items(data),
        0x33 => resize_palette_items(data),
        0x35 => ext_flood_fill_items(data),
        0x38 => polydraw_items(data),
        0x39 => set_arc_direction_items(data),
        0x3A => set_miter_limit_items(data),
        0x43 => select_clip_path_items(data),
        0x46 => gdi_comment_items(data),
        0x49 => invert_rgn_items(data),
        0x55 | 0x56 | 0x57 | 0x58 | 0x59 => polybezier16_items(data),
        0x5A | 0x5B => poly_polyline16_items(data),
        0x5C => polydraw16_items(data),
        0x5F => ext_create_pen_items(data),
        0x63 => create_color_space_items(data),
        0x6D => force_ufi_mapping_items(data),
        0x70 => set_icm_profile_a_items(data),
        0x71 => set_icm_profile_w_items(data),
        0x73 => set_layout_items(data),
        0x78 => set_text_justification_items(data),
        0x79 => clr_match_to_target_w_items(data),
        _ => Seq::empty(),
    }
}

/// How the reading of a record ends.
pub open spec fn parse_outcome(record_type: u32, data: Seq<u8>) -> Result<(), EmfParseError> {
    if data.len() < 8 {
        Err(EmfParseError::BufferTooSmall)
    } else if !handled(record_type) {
        Err(EmfParseError::InvalidRecordType(record_type))
    } else {
        Ok(())
    }
}

/// The head of a record: its type and its size in bytes, head included.
#[derive(Clone, Copy, Debug, PartialEq, Eq, Structural)]
pub struct RecordHead {
    pub record_type: u32,
    pub record_size: u32,
}

/// The head of the record that starts at `at`, where `data` holds one.
pub open spec fn head_at(data: Seq<u8>, at: int) -> Option<RecordHead> {
    if 0 <= at && at + 8 <= data.len() {
        Some(
            RecordHead {
                record_type: u32_le(data, at) as u32,
                record_size: u32_le(data, at + 4) as u32,
            },
        )
    } else {
        None
    }
}

/// Reads the head of the record that starts at `at`: `None` where fewer
/// than eight bytes are left there.
pub fn record_head(data: &[u8], at: usize) -> (head: Option<RecordHead>)
    ensures
        head == head_at(data@, at as int),
{
    if data.len() < 8 || at > data.len() - 8 {
        None
    } else {
        Some(RecordHead { record_type: read_u32(data, at), record_size: read_u32(data, at + 4) })
    }
}

/// The signed count at `at` as a number of repetitions.
fn count_of(data: &[u8], at: usize) -> (count: usize)
    requires
        at + 4 <= data.len(),
    ensures
        count == times(i32_le(data@, at as int)),
        count <= i32::MAX,
{
    let count: i32 = read_i32(data, at);
    if count > 0 {
        count as usize
    } else {
        0
    }
}

/// Whether `data` holds `count` items of `stride` bytes from `start` on.
fn holds_items(data: &[u8], start: usize, stride: usize, count: usize) -> (ok: bool)
    requires
        stride == 1 || stride == 4 || stride == 5 || stride == 8,
    ensures
        ok == (start + stride * count <= data.len()),
{
    if data.len() < start {
        return false;
    }
    let room: usize = data.len() - start;
    if stride == 1 {
        count <= room
    } else if stride == 4 {
        count <= room / 4
    } else if stride == 5 {
        count <= room / 5
    } else {
        count <= room / 8
    }
}

/// Whether `data` holds a curve through points and all its points.
fn holds_polybezier(data: &[u8]) -> (ok: bool)
    ensures
        ok == polybezier_fits(data@),
{
    data.len() >= 28 && holds_items(data, 28, 8, count_of(data, 24))
}

/// Whether `data` holds a curve through 16-bit points and all its points.
fn holds_polybezier16(data: &[u8]) -> (ok: bool)
    ensures
        ok == polybezier16_fits(data@),
{
    data.len() >= 28 && count_of(data, 24) <= 0x1FFF_FFFF && holds_items(
        data,
        28,
        4,
        count_of(data, 24),
    )
}

/// Whether `data` holds several lines and all their points, of `stride`
/// bytes each.
fn holds_poly(data: &[u8], stride: usize) -> (ok: bool)
    requires
        stride == 4 || stride == 8,
    ensures
        ok == poly_fits(data@, stride as int),
{
    if data.len() < 32 {
        return false;
    }
    let polys: usize = count_of(data, 24);
    let points: usize = count_of(data, 28);
    if polys > 0x1FFF_FFFF || !holds_items(data, 32, 4, polys) {
        return false;
    }
    if points == 0 {
        return true;
    }
    let stated: i32 = read_i32(data, 24);
    if stated < 0 {
        return false;
    }
    let most: usize = if stride == 4 {
        0x1FFF_FFFF
    } else {
        0x0FFF_FFFF
    };
    points <= most && data.len() - (32 + 4 * polys) >= stride * points
}

/// Whether `data` holds several lines of 32-bit points.
fn holds_poly_polyline(data: &[u8]) -> (ok: bool)
    ensures
        ok == poly_polyline_fits(data@),
{
    holds_poly(data, 8)
}

/// Whether `data` holds several lines of 16-bit points.
fn holds_poly_polyline16(data: &[u8]) -> (ok: bool)
    ensures
        ok == poly_polyline16_fits(data@),
{
    holds_poly(data, 4)
}

/// Whether `data` holds a drawing through points and the kinds of the
/// points.
fn holds_polydraw(data: &[u8]) -> (ok: bool)
    ensures
        ok == polydraw_fits(data@),
{
    holds_polybezier(data) && count_of(data, 24) <= 429_496_723
}

/// Whether `data` holds a drawing through 16-bit points and the kinds of
/// the points.
fn holds_polydraw16(data: &[u8]) -> (ok: bool)
    ensures
        ok == polydraw16_fits(data@),
{
    holds_polybezier16(data) && holds_items(data, 28, 5, count_of(data, 24))
}

/// Whether `data` holds an extended pen with its dashes and gaps.
fn holds_ext_create_pen(data: &[u8]) -> (ok: bool)
    ensures
        ok == ext_create_pen_fits(data@),
{
    data.len() >= 52 && read_u32(data, 48) <= 0x3FFF_FFFF && holds_items(
        data,
        52,
        4,
        read_u32(data, 48) as usize,
    )
}

/// Whether `data` holds, from `at` on, a name of `units` UTF-16 units.
fn holds_wide_name(data: &[u8], at: u32, units: u32) -> (ok: bool)
    ensures
        ok == wide_name_fits(data@, at as int, units as int),
{
    units <= 0x7FFF_FFFF && at as u64 + 2 * (units as u64) <= data.len() as u64 && 16 * (
    units as u64) <= usize::MAX as u64
}

/// Whether `data` holds the head of a metafile and its description.
fn holds_parse_header(data: &[u8]) -> (ok: bool)
    ensures
        ok == parse_header_fits(data@),
{
    data.len() >= 108 && read_u32(data, 64) as u64 + 2 * (read_u32(data, 60) as u64)
        <= 0xFFFF_FFFF && holds_wide_name(data, read_u32(data, 64), read_u32(data, 60))
}

/// Whether `data` holds the start of a group and its description.
fn holds_gc_begin_group(data: &[u8]) -> (ok: bool)
    ensures
        ok == gc_begin_group_fits(data@),
{
    data.len() >= 40 && holds_wide_name(data, 40, read_u32(data, 36))
}

/// Whether `data` holds a comment and what belongs to it.
fn holds_gdi_comment(data: &[u8]) -> (ok: bool)
    ensures
        ok == gdi_comment_fits(data@),
{
    if data.len() < 16 {
        return false;
    }
    let kind = slice_subrange(data, 12, 16);
    let public: bool = kind[0] == 0x47 && kind[1] == 0x44 && kind[2] == 0x49 && kind[3] == 0x43;
    assert(public == is_public_comment(data@)) by {
        if public {
            assert(kind@ =~= public_comment_mark());
        } else {
            assert(public_comment_mark()[0] == 0x47 && public_comment_mark()[1] == 0x44
                && public_comment_mark()[2] == 0x49 && public_comment_mark()[3] == 0x43);
        }
    }
    if !public {
        return true;
    }
    if data.len() < 20 {
        return false;
    }
    read_u32(data, 16) != 2 || holds_gc_begin_group(data)
}

/// Whether `data` holds a colour profile with a name in single bytes.
fn holds_set_icm_profile_a(data: &[u8]) -> (ok: bool)
    ensures
        ok == set_icm_profile_a_fits(data@),
{
    data.len() >= 20 && holds_items(data, 20, 1, read_u32(data, 12) as usize)
}

/// Whether `data` holds a colour profile with a name in UTF-16.
fn holds_set_icm_profile_w(data: &[u8]) -> (ok: bool)
    ensures
        ok == set_icm_profile_w_fits(data@),
{
    data.len() >= 20 && holds_wide_name(data, 20, read_u32(data, 12))
}

/// Whether `data` holds a colour match and its name.
fn holds_clr_match_to_target_w(data: &[u8]) -> (ok: bool)
    ensures
        ok == clr_match_to_target_w_fits(data@),
{
    data.len() >= 24 && holds_wide_name(data, 24, read_u32(data, 16))
}

/// Whether `data` is long enough for the reader of its type: what
/// `parse_record` asks of a record.
pub fn record_fits(record_type: u32, data: &[u8]) -> (ok: bool)
    ensures
        ok == fits(record_type, data@),
{
    match record_type {
        0x01 => holds_parse_header(data),
        0x02 | 0x03 | 0x04 | 0x05 | 0x06 => holds_polybezier(data),
        0x07 | 0x08 => holds_poly_polyline(data),
        0x09 | 0x0A | 0x0B | 0x0C | 0x1A | 0x1B | 0x36 => data.len() >= 16,
        0x0D => data.len() >= 16,
        0x10 => data.len() >= 12,
        0x11 | 0x12 | 0x13 | 0x15 | 0x16 | 0x62 => data.len() >= 12,
        0x14 => data.len() >= 12,
        0x17 => data.len() >= 32,
        0x18 | 0x19 => data.len() >= 11,
        0x1D | 0x1E | 0x2A | 0x2B | 0x3E | 0x3F | 0x40 => data.len() >= 24,
        0x1F | 0x20 => data.len() >= 24,
        0x22 => data.len() >= 12,
        0x25 | 0x28 | 0x30 | 0x64 | 0x65 => data.len() >= 12,
        0x26 => data.len() >= 27,
        0x27 => data.len() >= 24,
        0x2C => data.len() >= 32,
        0x2D | 0x2E | 0x2F | 0x37 => data.len() >= 40,
        0x33 => data.len() >= 16,
        0x35 => data.len() >= 24,
        0x38 => holds_polydraw(data),
        0x39 => data.len() >= 12,
        0x3A => data.len() >= 12,
        0x43 => data.len() >= 12,
        0x46 => holds_gdi_comment(data),
        0x49 => data.len() >= 28,
        0x55 | 0x56 | 0x57 | 0x58 | 0x59 => holds_polybezier16(data),
        0x5A | 0x5B => holds_poly_polyline16(data),
        0x5C => holds_polydraw16(data),
        0x5F => holds_ext_create_pen(data),
        0x63 => data.len() >= 12,
        0x6D => data.len() >= 16,
        0x70 => holds_set_icm_profile_a(data),
        0x71 => holds_set_icm_profile_w(data),
        0x73 => data.len() >= 12,
        0x78 => data.len() >= 16,
        0x79 => holds_clr_match_to_target_w(data),
        _ => true,
    }
}

impl EmfParser {
    /// Reads one record: finds the reader of its type and lets it add the
    /// fields of the record.  Data shorter than the head of a record, and a
    /// type without a reader, are errors that leave the model as it is.
    /// Data that holds a head must hold all that the reader of its type
    /// reads, which `record_fits` tells.
    pub fn parse_record(&mut self, record_type: u32, record_data: &[u8]) -> (r: Result<
        (),
        EmfParseError,
    >)
        requires
            record_data@.len() >= 8 ==> fits(record_type, record_data@),
        ensures
            r == parse_outcome(record_type, record_data@),
            r.is_ok() ==> final(self)@ == old(self)@ + record_items(record_type, record_data@),
            r.is_err() ==> final(self)@ == old(self)@,
    {
        if record_data.len() < 8 {
            return Err(EmfParseError::BufferTooSmall);
        }
        let size: usize = read_u32(record_data, 0) as usize;
        match record_type {
            0x01 => {
                self.parse_header(size, record_data);
            },
            0x02 => {
                self.polybezier(size, record_data);
            },
            0x03 => {
                self.polygon(size, record_data);
            },
            0x04 => {
                self.polyline(size, record_data);
            },
            0x05 => {
                self.polybezier_to(size, record_data);
            },
            0x06 => {
                self.polyline_to(size, record_data);
            },
            0x07 => {
                self.poly_polyline(size, record_data);
            },
            0x08 => {
                self.poly_polygon(size, record_data);
            },
            0x09 => {
                self.set_window_ext_ex(size, record_data);
            },
            0x0A => {
                self.set_window_org_ex(size, record_data);
            },
            0x0B => {
                self.set_viewport_ext_ex(size, record_data);
            },
            0x0C => {
                self.set_viewport_org_ex(size, record_data);
            },
            0x0D => {
                self.set_brush_org_ex(size, record_data);
            },
            0x10 => {
                self.set_mapper_flags(size, record_data);
            },
            0x11 => {
                self.set_map_mode(size, record_data);
            },
            0x12 => {
                self.set_bk_mode(size, record_data);
            },
            0x13 => {
                self.set_polyfill_mode(size, record_data);
            },
            0x14 => {
                self.set_rop2(size, record_data);
            },
            0x15 => {
                self.set_stretch_blt_mode(size, record_data);
            },
            0x16 => {
                self.set_text_align(size, record_data);
            },
            0x17 => {
                self.set_color_adjustment(size, record_data);
            },
            0x18 => {
                self.set_text_color(size, record_data);
            },
            0x19 => {
                self.set_bk_color(size, record_data);
            },
            0x1A => {
                self.offset_clip_rgn(size, record_data);
            },
            0x1B => {
                self.move_to_ex(size, record_data);
            },
            0x1D => {
                self.exclude_clip_rect(size, record_data);
            },
            0x1E => {
                self.intersect_clip_rect(size, record_data);
            },
            0x1F => {
                self.scale_viewport_ext_ex(size, record_data);
            },
            0x20 => {
                self.scale_window_ext_ex(size, record_data);
            },
            0x21 => {
                self.save_dc(size, record_data);
            },
            0x22 => {
                self.restore_dc(size, record_data);
            },
            0x25 => {
                self.select_object(size, record_data);
            },
            0x26 => {
                self.create_pen(size, record_data);
            },
            0x27 => {
                self.create_brush_indirect(size, record_data);
            },
            0x28 => {
                self.delete_object(size, record_data);
            },
            0x2A => {
                self.ellipse(size, record_data);
            },
            0x2B => {
                self.rectangle(size, record_data);
            },
            0x2C => {
                self.round_rect(size, record_data);
            },
            0x2D => {
                self.arc(size, record_data);
            },
            0x2E => {
                self.chord(size, record_data);
            },
            0x2F => {
                self.pie(size, record_data);
            },
            0x30 => {
                self.select_palette(size, record_data);
            },
            0x33 => {
                self.resize_palette(size, record_data);
            },
            0x35 => {
                self.ext_flood_fill(size, record_data);
            },
            0x36 => {
                self.line_to(size, record_data);
            },
            0x37 => {
                self.arc_to(size, record_data);
            },
            0x38 => {
                self.polydraw(size, record_data);
            },
            0x39 => {
                self.set_arc_direction(size, record_data);
            },
            0x3A => {
                self.set_miter_limit(size, record_data);
            },
            0x3B => {
                self.begin_path(size, record_data);
            },
            0x3C => {
                self.end_path(size, record_data);
            },
            0x3D => {
                self.close_figure(size, record_data);
            },
            0x3E => {
                self.fill_path(size, record_data);
            },
            0x3F => {
                self.stroke_and_fill_path(size, record_data);
            },
            0x40 => {
                self.stroke_path(size, record_data);
            },
            0x41 => {
                self.flatten_path(size, record_data);
            },
            0x42 => {
                self.widen_path(size, record_data);
            },
            0x43 => {
                self.select_clip_path(size, record_data);
            },
            0x44 => {
                self.abort_path(size, record_data);
            },
            0x46 => {
                self.gdi_comment(size, record_data);
            },
            0x49 => {
                self.invert_rgn(size, record_data);
            },
            0x55 => {
                self.polybezier16(size, record_data);
            },
            0x56 => {
                self.polygon16(size, record_data);
            },
            0x57 => {
                self.polyline16(size, record_data);
            },
            0x58 => {
                self.polybezier_to16(size, record_data);
            },
            0x59 => {
                self.polyline_to16(size, record_data);
            },
            0x5A => {
                self.poly_polyline16(size, record_data);
            },
            0x5B => {
                self.poly_polygon16(size, record_data);
            },
            0x5C => {
                self.polydraw16(size, record_data);
            },
            0x5F => {
                self.ext_create_pen(size, record_data);
            },
            0x62 => {
                self.set_icm_mode(size, record_data);
            },
            0x63 => {
                self.create_color_space(size, record_data);
            },
            0x64 => {
                self.set_color_space(size, record_data);
            },
            0x65 => {
                self.delete_color_space(size, record_data);
            },
            0x6D => {
                self.force_ufi_mapping(size, record_data);
            },
            0x70 => {
                self.set_icm_profile_a(size, record_data);
            },
            0x71 => {
                self.set_icm_profile_w(size, record_data);
            },
            0x73 => {
                self.set_layout(size, record_data);
            },
            0x78 => {
                self.set_text_justification(size, record_data);
            },
            0x79 => {
                self.clr_match_to_target_w(size, record_data);
            },
            _ => {
                return Err(EmfParseError::InvalidRecordType(record_type));
            },
        }
        assert(self@ =~= old(self)@ + record_items(record_type, record_data@));
        Ok(())
    }
}

} // verus!
