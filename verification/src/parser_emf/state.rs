//! Records that change how the drawing is done: windows and viewports,
//! modes, colours, clipping, saved contexts.

use super::fields::hex_item;
use super::fields::i16_item;
use super::fields::i32_item;
use super::fields::point_l_items;
use super::fields::rgb_item;
use super::fields::u32_item;
use super::geometry::rectangle_items;
use super::model::ItemView;
use super::parser::EmfParser;
use vstd::prelude::*;

verus! {

/// The fields of the extent of the window: one point.
pub open spec fn set_window_ext_ex_items(value: Seq<u8>) -> Seq<ItemView> {
    point_l_items(value, 8, ""@)
}

/// The fields of the origin of the brush: one point.
pub open spec fn set_brush_org_ex_items(value: Seq<u8>) -> Seq<ItemView> {
    point_l_items(value, 8, "Org"@)
}

/// The fields of the flags of the font mapper.
pub open spec fn set_mapper_flags_items(value: Seq<u8>) -> Seq<ItemView> {
    seq![
        u32_item("Mode"@, value, 8),
    ]
}

/// The fields of the background mode.
pub open spec fn set_bk_mode_items(value: Seq<u8>) -> Seq<ItemView> {
    seq![
        u32_item("Mode"@, value, 8),
    ]
}

/// The fields of the binary raster operation, in hexadecimal.
pub open spec fn set_rop2_items(value: Seq<u8>) -> Seq<ItemView> {
    seq![
        hex_item("Mode"@, value, 8),
    ]
}

/// The fields of the twelve signed 16-bit values of a colour adjustment.
pub open spec fn set_color_adjustment_items(value: Seq<u8>) -> Seq<ItemView> {
    seq![
        i16_item("Size"@, value, 8, "<i"@),
        i16_item("Values"@, value, 10, "<i"@),
        i16_item("IllumIdx"@, value, 12, "<i"@),
        i16_item("RedGamma"@, value, 14, "<i"@),
        i16_item("GreenGamma"@, value, 16, "<i"@),
        i16_item("BlueGamma"@, value, 18, "<i"@),
        i16_item("RefBlack"@, value, 20, "<i"@),
        i16_item("RefWhite"@, value, 22, "<i"@),
        i16_item("Contrast"@, value, 24, "<i"@),
        i16_item("Brightness"@, value, 26, "<i"@),
        i16_item("Colorfull"@, value, 28, "<i"@),
        i16_item("RedGreenTint"@, value, 30, "<i"@),
    ]
}

/// The fields of the background colour.
pub open spec fn set_bk_color_items(value: Seq<u8>) -> Seq<ItemView> {
    seq![
        rgb_item(value, 8),
    ]
}

/// The fields of the two ratios by which the viewport is scaled.
pub open spec fn scale_viewport_ext_ex_items(value: Seq<u8>) -> Seq<ItemView> {
    seq![
        i32_item("xNum"@, value, 8),
        i32_item("xDenom"@, value, 12),
        i32_item("yNum"@, value, 16),
        i32_item("yDenom"@, value, 20),
    ]
}

/// The fields of the saved device context to go back to.
pub open spec fn restore_dc_items(value: Seq<u8>) -> Seq<ItemView> {
    seq![
        i32_item("SavedDC"@, value, 8),
    ]
}

/// The fields of the direction in which arcs are drawn.
pub open spec fn set_arc_direction_items(value: Seq<u8>) -> Seq<ItemView> {
    seq![
        u32_item("ArcDirection"@, value, 8),
    ]
}

/// The fields of the limit of mitred joins.
pub open spec fn set_miter_limit_items(value: Seq<u8>) -> Seq<ItemView> {
    seq![
        u32_item("MiterLimit"@, value, 8),
    ]
}

/// The fields of how the path is combined with the clipping region.
pub open spec fn select_clip_path_items(value: Seq<u8>) -> Seq<ItemView> {
    seq![
        u32_item("RegionMode"@, value, 8),
    ]
}

/// The fields of the layout mode.
pub open spec fn set_layout_items(value: Seq<u8>) -> Seq<ItemView> {
    seq![
        u32_item("LayoutMode"@, value, 8),
    ]
}

/// The fields of the extra space of a justified line and the breaks that share it.
pub open spec fn set_text_justification_items(value: Seq<u8>) -> Seq<ItemView> {
    seq![
        i32_item("nBreakExtra"@, value, 8),
        i32_item("nBreakCount"@, value, 12),
    ]
}

impl EmfParser {
    /// The extent of the window: one point.
    pub fn set_window_ext_ex(&mut self, _size: usize, value: &[u8])
        requires
            value.len() >= 16,
        ensures
            final(self)@ == old(self)@ + set_window_ext_ex_items(value@),
    {
        self.point_l(value, 8, "");
        assert(self@ =~= old(self)@ + set_window_ext_ex_items(value@));
    }

    /// The origin of the brush: one point.
    pub fn set_brush_org_ex(&mut self, _size: usize, value: &[u8])
        requires
            value.len() >= 16,
        ensures
            final(self)@ == old(self)@ + set_brush_org_ex_items(value@),
    {
        self.point_l(value, 8, "Org");
        assert(self@ =~= old(self)@ + set_brush_org_ex_items(value@));
    }

    /// The flags of the font mapper.
    pub fn set_mapper_flags(&mut self, _size: usize, value: &[u8])
        requires
            value.len() >= 12,
        ensures
            final(self)@ == old(self)@ + set_mapper_flags_items(value@),
    {
        self.put_u32("Mode", value, 8);
        assert(self@ =~= old(self)@ + set_mapper_flags_items(value@));
    }

    /// The background mode.
    pub fn set_bk_mode(&mut self, _size: usize, value: &[u8])
        requires
            value.len() >= 12,
        ensures
            final(self)@ == old(self)@ + set_bk_mode_items(value@),
    {
        self.put_u32("Mode", value, 8);
        assert(self@ =~= old(self)@ + set_bk_mode_items(value@));
    }

    /// The binary raster operation, in hexadecimal.
    pub fn set_rop2(&mut self, _size: usize, value: &[u8])
        requires
            value.len() >= 12,
        ensures
            final(self)@ == old(self)@ + set_rop2_items(value@),
    {
        self.put_hex("Mode", value, 8);
        assert(self@ =~= old(self)@ + set_rop2_items(value@));
    }

    /// The twelve signed 16-bit values of a colour adjustment.
    pub fn set_color_adjustment(&mut self, _size: usize, value: &[u8])
        requires
            value.len() >= 32,
        ensures
            final(self)@ == old(self)@ + set_color_adjustment_items(value@),
    {
        self.put_i16("Size", value, 8, "<i");
        self.put_i16("Values", value, 10, "<i");
        self.put_i16("IllumIdx", value, 12, "<i");
        self.put_i16("RedGamma", value, 14, "<i");
        self.put_i16("GreenGamma", value, 16, "<i");
        self.put_i16("BlueGamma", value, 18, "<i");
        self.put_i16("RefBlack", value, 20, "<i");
        self.put_i16("RefWhite", value, 22, "<i");
        self.put_i16("Contrast", value, 24, "<i");
        self.put_i16("Brightness", value, 26, "<i");
        self.put_i16("Colorfull", value, 28, "<i");
        self.put_i16("RedGreenTint", value, 30, "<i");
        assert(self@ =~= old(self)@ + set_color_adjustment_items(value@));
    }

    /// The background colour.
    pub fn set_bk_color(&mut self, _size: usize, value: &[u8])
        requires
            value.len() >= 11,
        ensures
            final(self)@ == old(self)@ + set_bk_color_items(value@),
    {
        self.put_rgb(value, 8);
        assert(self@ =~= old(self)@ + set_bk_color_items(value@));
    }

    /// The two ratios by which the viewport is scaled.
    pub fn scale_viewport_ext_ex(&mut self, _size: usize, value: &[u8])
        requires
            value.len() >= 24,
        ensures
            final(self)@ == old(self)@ + scale_viewport_ext_ex_items(value@),
    {
        self.put_i32("xNum", value, 8);
        self.put_i32("xDenom", value, 12);
        self.put_i32("yNum", value, 16);
        self.put_i32("yDenom", value, 20);
        assert(self@ =~= old(self)@ + scale_viewport_ext_ex_items(value@));
    }

    /// The saved device context to go back to.
    pub fn restore_dc(&mut self, _size: usize, value: &[u8])
        requires
            value.len() >= 12,
        ensures
            final(self)@ == old(self)@ + restore_dc_items(value@),
    {
        self.put_i32("SavedDC", value, 8);
        assert(self@ =~= old(self)@ + restore_dc_items(value@));
    }

    /// The direction in which arcs are drawn.
    pub fn set_arc_direction(&mut self, _size: usize, value: &[u8])
        requires
            value.len() >= 12,
        ensures
            final(self)@ == old(self)@ + set_arc_direction_items(value@),
    {
        self.put_u32("ArcDirection", value, 8);
        assert(self@ =~= old(self)@ + set_arc_direction_items(value@));
    }

    /// The limit of mitred joins.
    pub fn set_miter_limit(&mut self, _size: usize, value: &[u8])
        requires
            value.len() >= 12,
        ensures
            final(self)@ == old(self)@ + set_miter_limit_items(value@),
    {
        self.put_u32("MiterLimit", value, 8);
        assert(self@ =~= old(self)@ + set_miter_limit_items(value@));
    }

    /// How the path is combined with the clipping region.
    pub fn select_clip_path(&mut self, _size: usize, value: &[u8])
        requires
            value.len() >= 12,
        ensures
            final(self)@ == old(self)@ + select_clip_path_items(value@),
    {
        self.put_u32("RegionMode", value, 8);
        assert(self@ =~= old(self)@ + select_clip_path_items(value@));
    }

    /// The layout mode.
    pub fn set_layout(&mut self, _size: usize, value: &[u8])
        requires
            value.len() >= 12,
        ensures
            final(self)@ == old(self)@ + set_layout_items(value@),
    {
        self.put_u32("LayoutMode", value, 8);
        assert(self@ =~= old(self)@ + set_layout_items(value@));
    }

    /// The extra space of a justified line and the breaks that share it.
    pub fn set_text_justification(&mut self, _size: usize, value: &[u8])
        requires
            value.len() >= 16,
        ensures
            final(self)@ == old(self)@ + set_text_justification_items(value@),
    {
        self.put_i32("nBreakExtra", value, 8);
        self.put_i32("nBreakCount", value, 12);
        assert(self@ =~= old(self)@ + set_text_justification_items(value@));
    }

    /// The origin of the window: read as `set_window_ext_ex` is.
    pub fn set_window_org_ex(&mut self, size: usize, value: &[u8])
        requires
            value.len() >= 16,
        ensures
            final(self)@ == old(self)@ + set_window_ext_ex_items(value@),
    {
        self.set_window_ext_ex(size, value);
    }

    /// The extent of the viewport: read as `set_window_ext_ex` is.
    pub fn set_viewport_ext_ex(&mut self, size: usize, value: &[u8])
        requires
            value.len() >= 16,
        ensures
            final(self)@ == old(self)@ + set_window_ext_ex_items(value@),
    {
        self.set_window_ext_ex(size, value);
    }

    /// The origin of the viewport: read as `set_window_ext_ex` is.
    pub fn set_viewport_org_ex(&mut self, size: usize, value: &[u8])
        requires
            value.len() >= 16,
        ensures
            final(self)@ == old(self)@ + set_window_ext_ex_items(value@),
    {
        self.set_window_ext_ex(size, value);
    }

    /// The mapping mode: read as `set_bk_mode` is.
    pub fn set_map_mode(&mut self, size: usize, value: &[u8])
        requires
            value.len() >= 12,
        ensures
            final(self)@ == old(self)@ + set_bk_mode_items(value@),
    {
        self.set_bk_mode(size, value);
    }

    /// The mode in which polygons are filled: read as `set_bk_mode` is.
    pub fn set_polyfill_mode(&mut self, size: usize, value: &[u8])
        requires
            value.len() >= 12,
        ensures
            final(self)@ == old(self)@ + set_bk_mode_items(value@),
    {
        self.set_bk_mode(size, value);
    }

    /// The mode in which bitmaps are stretched: read as `set_bk_mode` is.
    pub fn set_stretch_blt_mode(&mut self, size: usize, value: &[u8])
        requires
            value.len() >= 12,
        ensures
            final(self)@ == old(self)@ + set_bk_mode_items(value@),
    {
        self.set_bk_mode(size, value);
    }

    /// The alignment of text: read as `set_bk_mode` is.
    pub fn set_text_align(&mut self, size: usize, value: &[u8])
        requires
            value.len() >= 12,
        ensures
            final(self)@ == old(self)@ + set_bk_mode_items(value@),
    {
        self.set_bk_mode(size, value);
    }

    /// The colour of text: read as `set_bk_color` is.
    pub fn set_text_color(&mut self, size: usize, value: &[u8])
        requires
            value.len() >= 11,
        ensures
            final(self)@ == old(self)@ + set_bk_color_items(value@),
    {
        self.set_bk_color(size, value);
    }

    /// The offset by which the clipping region moves: read as `set_window_ext_ex` is.
    pub fn offset_clip_rgn(&mut self, size: usize, value: &[u8])
        requires
            value.len() >= 16,
        ensures
            final(self)@ == old(self)@ + set_window_ext_ex_items(value@),
    {
        self.set_window_ext_ex(size, value);
    }

    /// A rectangle to take out of the clipping region: read as `rectangle` is.
    pub fn exclude_clip_rect(&mut self, size: usize, value: &[u8])
        requires
            value.len() >= 24,
        ensures
            final(self)@ == old(self)@ + rectangle_items(value@),
    {
        self.rectangle(size, value);
    }

    /// A rectangle to cut the clipping region with: read as `rectangle` is.
    pub fn intersect_clip_rect(&mut self, size: usize, value: &[u8])
        requires
            value.len() >= 24,
        ensures
            final(self)@ == old(self)@ + rectangle_items(value@),
    {
        self.rectangle(size, value);
    }

    /// The two ratios by which the window is scaled: read as `scale_viewport_ext_ex` is.
    pub fn scale_window_ext_ex(&mut self, size: usize, value: &[u8])
        requires
            value.len() >= 24,
        ensures
            final(self)@ == old(self)@ + scale_viewport_ext_ex_items(value@),
    {
        self.scale_viewport_ext_ex(size, value);
    }

    /// The mode of colour management: read as `set_bk_mode` is.
    pub fn set_icm_mode(&mut self, size: usize, value: &[u8])
        requires
            value.len() >= 12,
        ensures
            final(self)@ == old(self)@ + set_bk_mode_items(value@),
    {
        self.set_bk_mode(size, value);
    }

    /// The device context is saved: the record has no fields.
    pub fn save_dc(&mut self, _size: usize, _value: &[u8])
        ensures
            final(self)@ == old(self)@,
    {
    }
}

} // verus!
