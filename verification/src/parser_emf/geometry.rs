//! Records that draw: rectangles, arcs, lines and curves through lists of
//! points, paths.

use super::fields::i32_item;
use super::fields::item;
use super::fields::labelled_item;
use super::fields::numbered_bytes;
use super::fields::numbered_u32s;
use super::fields::point_l_items;
use super::fields::points_l;
use super::fields::points_s;
use super::fields::times;
use super::fields::u32_item;
use super::model::ItemView;
use super::parser::EmfParser;
use super::state::set_window_ext_ex_items;
use crate::bytes::i32_le;
use crate::bytes::read_i32;
use crate::bytes::read_u32;
use crate::bytes::u32_le;
use crate::text::decimal;
use crate::text::decimal_signed;
use crate::text::decimal_unsigned;
use vstd::prelude::*;

verus! {

/// The fields of a rectangle: the four signed coordinates of its corners.
pub open spec fn rectangle_items(value: Seq<u8>) -> Seq<ItemView> {
    seq![
        i32_item("xS"@, value, 8),
        i32_item("yS"@, value, 12),
        i32_item("xE"@, value, 16),
        i32_item("yE"@, value, 20),
    ]
}

/// The fields of a rectangle with round corners: the rectangle and the size of a corner.
pub open spec fn round_rect_items(value: Seq<u8>) -> Seq<ItemView> {
    rectangle_items(value) + point_l_items(value, 24, "R"@)
}

/// The fields of an arc: the rectangle of its ellipse, its start and its end.
pub open spec fn arc_items(value: Seq<u8>) -> Seq<ItemView> {
    rectangle_items(value) + point_l_items(value, 24, "S"@) + point_l_items(value, 32, "E"@)
}

/// The fields of a region to invert: its bounds and the size of its data.
pub open spec fn invert_rgn_items(value: Seq<u8>) -> Seq<ItemView> {
    rectangle_items(value) + seq![
        u32_item("RgnDataSize"@, value, 24),
    ]
}

/// What a way of filling stands for.
pub open spec fn flood_fill_label(mode: int) -> Seq<char> {
    if mode == 0 {
        "Border"@
    } else if mode == 1 {
        "Surface"@
    } else {
        "unknown"@
    }
}

/// The fields of a flood fill: where it starts, its colour and its way.
pub open spec fn ext_flood_fill_items(value: Seq<u8>) -> Seq<ItemView> {
    point_l_items(value, 8, "Start"@) + seq![
        u32_item("Color"@, value, 16),
        labelled_item("FloodFillMode"@, value, 20, flood_fill_label(u32_le(value, 20))),
    ]
}

/// Whether `value` holds the points that it counts, of eight bytes each.
pub open spec fn polybezier_fits(value: Seq<u8>) -> bool {
    value.len() >= 28 && 28 + 8 * times(i32_le(value, 24)) <= value.len()
}

/// The fields of a curve through points: its bounds, the number of its
/// points, and the points.
pub open spec fn polybezier_items(value: Seq<u8>) -> Seq<ItemView> {
    rectangle_items(value).push(i32_item("Count"@, value, 24)) + points_l(
        value,
        28,
        times(i32_le(value, 24)),
    )
}

/// Whether `value` holds the points that it counts, of four bytes each.
pub open spec fn polybezier16_fits(value: Seq<u8>) -> bool {
    value.len() >= 28 && 4 * times(i32_le(value, 24)) <= i32::MAX && 28 + 4 * times(
        i32_le(value, 24),
    ) <= value.len()
}

/// The fields of a curve through 16-bit points: its bounds, the number of
/// its points, and the points.
pub open spec fn polybezier16_items(value: Seq<u8>) -> Seq<ItemView> {
    rectangle_items(value).push(i32_item("Count"@, value, 24)) + points_s(
        value,
        28,
        times(i32_le(value, 24)),
    )
}

/// Whether `value` holds the counts and the points that it announces, the
/// points of `stride` bytes each.  Points behind a negative number of
/// counts have no place.
pub open spec fn poly_fits(value: Seq<u8>, stride: int) -> bool {
    let polys = i32_le(value, 24);
    let points = i32_le(value, 28);
    &&& value.len() >= 32
    &&& 4 * times(polys) <= i32::MAX
    &&& 32 + 4 * times(polys) <= value.len()
    &&& points > 0 ==> polys >= 0 && stride * points <= i32::MAX && 32 + 4 * polys + stride * points
        <= value.len()
}

/// Whether `value` holds several lines of 32-bit points.
pub open spec fn poly_polyline_fits(value: Seq<u8>) -> bool {
    poly_fits(value, 8)
}

/// Whether `value` holds several lines of 16-bit points.
pub open spec fn poly_polyline16_fits(value: Seq<u8>) -> bool {
    poly_fits(value, 4)
}

/// What several lines have in common: bounds, the number of lines, the
/// number of points, and the number of points of each line.
pub open spec fn poly_head_items(value: Seq<u8>) -> Seq<ItemView> {
    rectangle_items(value) + seq![
        i32_item("NumOfPoly"@, value, 24),
        i32_item("Count"@, value, 28),
    ] + numbered_u32s("PolyPnt "@, value, 32, times(i32_le(value, 24)))
}

/// The fields of several lines through 32-bit points.
pub open spec fn poly_polyline_items(value: Seq<u8>) -> Seq<ItemView> {
    poly_head_items(value) + points_l(
        value,
        32 + 4 * (times(i32_le(value, 24)) as int),
        times(i32_le(value, 28)),
    )
}

/// The fields of several lines through 16-bit points.
pub open spec fn poly_polyline16_items(value: Seq<u8>) -> Seq<ItemView> {
    poly_head_items(value) + points_s(
        value,
        32 + 4 * (times(i32_le(value, 24)) as int),
        times(i32_le(value, 28)),
    )
}

/// The kinds of the points of a drawing: one byte each, from four bytes
/// for each point behind the head of the record.
pub open spec fn point_kinds(value: Seq<u8>) -> Seq<ItemView> {
    numbered_bytes(
        "abType "@,
        value,
        28 + 4 * (times(i32_le(value, 24)) as int),
        times(i32_le(value, 24)),
    )
}

/// Whether `value` holds the points that it counts and a kind for each.
pub open spec fn polydraw_fits(value: Seq<u8>) -> bool {
    polybezier_fits(value) && 28 + 5 * times(i32_le(value, 24)) <= i32::MAX
}

/// The fields of a drawing through points of several kinds: the curve,
/// the number of points once more, and the kind of each point.
pub open spec fn polydraw_items(value: Seq<u8>) -> Seq<ItemView> {
    polybezier_items(value).push(i32_item("Count"@, value, 24)) + point_kinds(value)
}

/// Whether `value` holds the 16-bit points that it counts and a kind for
/// each.
pub open spec fn polydraw16_fits(value: Seq<u8>) -> bool {
    polybezier16_fits(value) && 28 + 5 * times(i32_le(value, 24)) <= value.len()
}

/// The fields of a drawing through 16-bit points of several kinds: the
/// curve, the number of points once more, placed behind itself, and the
/// kind of each point.
pub open spec fn polydraw16_items(value: Seq<u8>) -> Seq<ItemView> {
    polybezier16_items(value).push(item("Count"@, decimal(i32_le(value, 24)), 28, 4, "<i"@))
        + point_kinds(value)
}

impl EmfParser {
    /// A rectangle: the four signed coordinates of its corners.
    pub fn rectangle(&mut self, _size: usize, value: &[u8])
        requires
            value.len() >= 24,
        ensures
            final(self)@ == old(self)@ + rectangle_items(value@),
    {
        self.put_i32("xS", value, 8);
        self.put_i32("yS", value, 12);
        self.put_i32("xE", value, 16);
        self.put_i32("yE", value, 20);
        assert(self@ =~= old(self)@ + rectangle_items(value@));
    }

    /// A rectangle with round corners: the rectangle and the size of a corner.
    pub fn round_rect(&mut self, size: usize, value: &[u8])
        requires
            value.len() >= 32,
        ensures
            final(self)@ == old(self)@ + round_rect_items(value@),
    {
        self.rectangle(size, value);
        self.point_l(value, 24, "R");
        assert(self@ =~= old(self)@ + round_rect_items(value@));
    }

    /// An arc: the rectangle of its ellipse, its start and its end.
    pub fn arc(&mut self, size: usize, value: &[u8])
        requires
            value.len() >= 40,
        ensures
            final(self)@ == old(self)@ + arc_items(value@),
    {
        self.rectangle(size, value);
        self.point_l(value, 24, "S");
        self.point_l(value, 32, "E");
        assert(self@ =~= old(self)@ + arc_items(value@));
    }

    /// A region to invert: its bounds and the size of its data.
    pub fn invert_rgn(&mut self, size: usize, value: &[u8])
        requires
            value.len() >= 28,
        ensures
            final(self)@ == old(self)@ + invert_rgn_items(value@),
    {
        self.rectangle(size, value);
        self.put_u32("RgnDataSize", value, 24);
        assert(self@ =~= old(self)@ + invert_rgn_items(value@));
    }

    /// The point to move to: read as `set_window_ext_ex` is.
    pub fn move_to_ex(&mut self, size: usize, value: &[u8])
        requires
            value.len() >= 16,
        ensures
            final(self)@ == old(self)@ + set_window_ext_ex_items(value@),
    {
        self.set_window_ext_ex(size, value);
    }

    /// An ellipse, by the rectangle around it: read as `rectangle` is.
    pub fn ellipse(&mut self, size: usize, value: &[u8])
        requires
            value.len() >= 24,
        ensures
            final(self)@ == old(self)@ + rectangle_items(value@),
    {
        self.rectangle(size, value);
    }

    /// A chord: read as `arc` is.
    pub fn chord(&mut self, size: usize, value: &[u8])
        requires
            value.len() >= 40,
        ensures
            final(self)@ == old(self)@ + arc_items(value@),
    {
        self.arc(size, value);
    }

    /// A pie: read as `arc` is.
    pub fn pie(&mut self, size: usize, value: &[u8])
        requires
            value.len() >= 40,
        ensures
            final(self)@ == old(self)@ + arc_items(value@),
    {
        self.arc(size, value);
    }

    /// The point to draw a line to: read as `set_window_ext_ex` is.
    pub fn line_to(&mut self, size: usize, value: &[u8])
        requires
            value.len() >= 16,
        ensures
            final(self)@ == old(self)@ + set_window_ext_ex_items(value@),
    {
        self.set_window_ext_ex(size, value);
    }

    /// An arc that moves the current point: read as `arc` is.
    pub fn arc_to(&mut self, size: usize, value: &[u8])
        requires
            value.len() >= 40,
        ensures
            final(self)@ == old(self)@ + arc_items(value@),
    {
        self.arc(size, value);
    }

    /// The bounds of the path that is filled: read as `rectangle` is.
    pub fn fill_path(&mut self, size: usize, value: &[u8])
        requires
            value.len() >= 24,
        ensures
            final(self)@ == old(self)@ + rectangle_items(value@),
    {
        self.rectangle(size, value);
    }

    /// The bounds of the path that is stroked and filled: read as `rectangle` is.
    pub fn stroke_and_fill_path(&mut self, size: usize, value: &[u8])
        requires
            value.len() >= 24,
        ensures
            final(self)@ == old(self)@ + rectangle_items(value@),
    {
        self.rectangle(size, value);
    }

    /// The bounds of the path that is stroked: read as `rectangle` is.
    pub fn stroke_path(&mut self, size: usize, value: &[u8])
        requires
            value.len() >= 24,
        ensures
            final(self)@ == old(self)@ + rectangle_items(value@),
    {
        self.rectangle(size, value);
    }

    /// A polygon: read as `polybezier` is.
    pub fn polygon(&mut self, size: usize, value: &[u8])
        requires
            polybezier_fits(value@),
        ensures
            final(self)@ == old(self)@ + polybezier_items(value@),
    {
        self.polybezier(size, value);
    }

    /// A line through several points: read as `polybezier` is.
    pub fn polyline(&mut self, size: usize, value: &[u8])
        requires
            polybezier_fits(value@),
        ensures
            final(self)@ == old(self)@ + polybezier_items(value@),
    {
        self.polybezier(size, value);
    }

    /// Bezier curves that move the current point: read as `polybezier` is.
    pub fn polybezier_to(&mut self, size: usize, value: &[u8])
        requires
            polybezier_fits(value@),
        ensures
            final(self)@ == old(self)@ + polybezier_items(value@),
    {
        self.polybezier(size, value);
    }

    /// Lines that move the current point: read as `polybezier` is.
    pub fn polyline_to(&mut self, size: usize, value: &[u8])
        requires
            polybezier_fits(value@),
        ensures
            final(self)@ == old(self)@ + polybezier_items(value@),
    {
        self.polybezier(size, value);
    }

    /// Several polygons: read as `poly_polyline` is.
    pub fn poly_polygon(&mut self, size: usize, value: &[u8])
        requires
            poly_polyline_fits(value@),
        ensures
            final(self)@ == old(self)@ + poly_polyline_items(value@),
    {
        self.poly_polyline(size, value);
    }

    /// A polygon of 16-bit points: read as `polybezier16` is.
    pub fn polygon16(&mut self, size: usize, value: &[u8])
        requires
            polybezier16_fits(value@),
        ensures
            final(self)@ == old(self)@ + polybezier16_items(value@),
    {
        self.polybezier16(size, value);
    }

    /// A line through several 16-bit points: read as `polybezier16` is.
    pub fn polyline16(&mut self, size: usize, value: &[u8])
        requires
            polybezier16_fits(value@),
        ensures
            final(self)@ == old(self)@ + polybezier16_items(value@),
    {
        self.polybezier16(size, value);
    }

    /// Bezier curves of 16-bit points that move the current point: read as `polybezier16` is.
    pub fn polybezier_to16(&mut self, size: usize, value: &[u8])
        requires
            polybezier16_fits(value@),
        ensures
            final(self)@ == old(self)@ + polybezier16_items(value@),
    {
        self.polybezier16(size, value);
    }

    /// Lines of 16-bit points that move the current point: read as `polybezier16` is.
    pub fn polyline_to16(&mut self, size: usize, value: &[u8])
        requires
            polybezier16_fits(value@),
        ensures
            final(self)@ == old(self)@ + polybezier16_items(value@),
    {
        self.polybezier16(size, value);
    }

    /// Several polygons of 16-bit points: read as `poly_polyline16` is.
    pub fn poly_polygon16(&mut self, size: usize, value: &[u8])
        requires
            poly_polyline16_fits(value@),
        ensures
            final(self)@ == old(self)@ + poly_polyline16_items(value@),
    {
        self.poly_polyline16(size, value);
    }

    /// A path begins: the record has no fields.
    pub fn begin_path(&mut self, _size: usize, _value: &[u8])
        ensures
            final(self)@ == old(self)@,
    {
    }

    /// A path ends: the record has no fields.
    pub fn end_path(&mut self, _size: usize, _value: &[u8])
        ensures
            final(self)@ == old(self)@,
    {
    }

    /// The figure is closed: the record has no fields.
    pub fn close_figure(&mut self, _size: usize, _value: &[u8])
        ensures
            final(self)@ == old(self)@,
    {
    }

    /// The path is flattened: the record has no fields.
    pub fn flatten_path(&mut self, _size: usize, _value: &[u8])
        ensures
            final(self)@ == old(self)@,
    {
    }

    /// The path is widened: the record has no fields.
    pub fn widen_path(&mut self, _size: usize, _value: &[u8])
        ensures
            final(self)@ == old(self)@,
    {
    }

    /// The path is dropped: the record has no fields.
    pub fn abort_path(&mut self, _size: usize, _value: &[u8])
        ensures
            final(self)@ == old(self)@,
    {
    }

    /// A flood fill: where it starts, its colour and its way.
    pub fn ext_flood_fill(&mut self, _size: usize, value: &[u8])
        requires
            value.len() >= 24,
        ensures
            final(self)@ == old(self)@ + ext_flood_fill_items(value@),
    {
        self.point_l(value, 8, "Start");
        self.put_u32("Color", value, 16);
        let mode: u32 = read_u32(value, 20);
        let label: &str = if mode == 0 {
            "Border"
        } else if mode == 1 {
            "Surface"
        } else {
            "unknown"
        };
        self.put_labelled("FloodFillMode", value, 20, label);
        assert(self@ =~= old(self)@ + ext_flood_fill_items(value@));
    }

    /// Adds `count` points of 32-bit coordinates from `start` on.
    fn put_points_l(&mut self, value: &[u8], start: usize, count: usize)
        requires
            start + 8 * count <= value.len(),
        ensures
            final(self)@ == old(self)@ + points_l(value@, start as int, count as nat),
    {
        let mut i: usize = 0;
        assert(self@ =~= old(self)@ + points_l(value@, start as int, 0));
        while i < count
            invariant
                i <= count,
                start + 8 * count <= value.len(),
                self@ == old(self)@ + points_l(value@, start as int, i as nat),
            decreases count - i,
        {
            let ghost before = self@;
            self.point_l(value, start + 8 * i, decimal_unsigned(i as u64).as_str());
            assert(self@ =~= old(self)@ + points_l(value@, start as int, (i + 1) as nat));
            i += 1;
        }
    }

    /// Adds `count` points of 16-bit coordinates from `start` on.
    fn put_points_s(&mut self, value: &[u8], start: usize, count: usize)
        requires
            start + 4 * count <= value.len(),
        ensures
            final(self)@ == old(self)@ + points_s(value@, start as int, count as nat),
    {
        let mut i: usize = 0;
        assert(self@ =~= old(self)@ + points_s(value@, start as int, 0));
        while i < count
            invariant
                i <= count,
                start + 4 * count <= value.len(),
                self@ == old(self)@ + points_s(value@, start as int, i as nat),
            decreases count - i,
        {
            self.point_s(value, start + 4 * i, decimal_unsigned(i as u64).as_str());
            assert(self@ =~= old(self)@ + points_s(value@, start as int, (i + 1) as nat));
            i += 1;
        }
    }

    /// Adds `count` unsigned 32-bit fields from `start` on, each called
    /// `name` and its number.
    pub(crate) fn put_numbered_u32s(&mut self, name: &str, value: &[u8], start: usize, count: usize)
        requires
            start + 4 * count <= value.len(),
        ensures
            final(self)@ == old(self)@ + numbered_u32s(name@, value@, start as int, count as nat),
    {
        let mut i: usize = 0;
        assert(self@ =~= old(self)@ + numbered_u32s(name@, value@, start as int, 0));
        while i < count
            invariant
                i <= count,
                start + 4 * count <= value.len(),
                self@ == old(self)@ + numbered_u32s(name@, value@, start as int, i as nat),
            decreases count - i,
        {
            let label: String = Self::numbered_name(name, i as u64);
            self.put_u32(label.as_str(), value, start + 4 * i);
            assert(self@ =~= old(self)@ + numbered_u32s(
                name@,
                value@,
                start as int,
                (i + 1) as nat,
            ));
            i += 1;
        }
    }

    /// Adds `count` single bytes from `start` on, each called `name` and
    /// its number.
    fn put_numbered_bytes(&mut self, name: &str, value: &[u8], start: usize, count: usize)
        requires
            start + count <= value.len(),
        ensures
            final(self)@ == old(self)@ + numbered_bytes(name@, value@, start as int, count as nat),
    {
        let mut i: usize = 0;
        assert(self@ =~= old(self)@ + numbered_bytes(name@, value@, start as int, 0));
        while i < count
            invariant
                i <= count,
                start + count <= value.len(),
                self@ == old(self)@ + numbered_bytes(name@, value@, start as int, i as nat),
            decreases count - i,
        {
            let label: String = Self::numbered_name(name, i as u64);
            self.put_byte(label.as_str(), value, start + i);
            assert(self@ =~= old(self)@ + numbered_bytes(
                name@,
                value@,
                start as int,
                (i + 1) as nat,
            ));
            i += 1;
        }
    }

    /// The signed count at `at` as a number of repetitions.
    fn count_at(value: &[u8], at: usize) -> (count: usize)
        requires
            at + 4 <= value.len(),
        ensures
            count == times(i32_le(value@, at as int)),
    {
        let count: i32 = read_i32(value, at);
        if count > 0 {
            count as usize
        } else {
            0
        }
    }

    /// A curve through points: its bounds, the number of its points, and
    /// the points.
    pub fn polybezier(&mut self, size: usize, value: &[u8])
        requires
            polybezier_fits(value@),
        ensures
            final(self)@ == old(self)@ + polybezier_items(value@),
    {
        self.rectangle(size, value);
        self.put_i32("Count", value, 24);
        self.put_points_l(value, 28, Self::count_at(value, 24));
        assert(self@ =~= old(self)@ + polybezier_items(value@));
    }

    /// A curve through 16-bit points: its bounds, the number of its
    /// points, and the points.
    pub fn polybezier16(&mut self, size: usize, value: &[u8])
        requires
            polybezier16_fits(value@),
        ensures
            final(self)@ == old(self)@ + polybezier16_items(value@),
    {
        self.rectangle(size, value);
        self.put_i32("Count", value, 24);
        self.put_points_s(value, 28, Self::count_at(value, 24));
        assert(self@ =~= old(self)@ + polybezier16_items(value@));
    }

    /// What several lines have in common.
    fn poly_head(&mut self, size: usize, value: &[u8])
        requires
            value.len() >= 32,
            32 + 4 * times(i32_le(value@, 24)) <= value.len(),
        ensures
            final(self)@ == old(self)@ + poly_head_items(value@),
    {
        self.rectangle(size, value);
        self.put_i32("NumOfPoly", value, 24);
        self.put_i32("Count", value, 28);
        self.put_numbered_u32s("PolyPnt ", value, 32, Self::count_at(value, 24));
        assert(self@ =~= old(self)@ + poly_head_items(value@));
    }

    /// Several lines through 32-bit points: bounds, the number of lines,
    /// the number of points, the number of points of each line, and the
    /// points.
    pub fn poly_polyline(&mut self, size: usize, value: &[u8])
        requires
            poly_polyline_fits(value@),
        ensures
            final(self)@ == old(self)@ + poly_polyline_items(value@),
    {
        self.poly_head(size, value);
        let polys: usize = Self::count_at(value, 24);
        self.put_points_l(value, 32 + 4 * polys, Self::count_at(value, 28));
        assert(self@ =~= old(self)@ + poly_polyline_items(value@));
    }

    /// Several lines through 16-bit points.
    pub fn poly_polyline16(&mut self, size: usize, value: &[u8])
        requires
            poly_polyline16_fits(value@),
        ensures
            final(self)@ == old(self)@ + poly_polyline16_items(value@),
    {
        self.poly_head(size, value);
        let polys: usize = Self::count_at(value, 24);
        self.put_points_s(value, 32 + 4 * polys, Self::count_at(value, 28));
        assert(self@ =~= old(self)@ + poly_polyline16_items(value@));
    }

    /// A drawing through points of several kinds: the curve, the number
    /// of points once more, and the kind of each point.
    pub fn polydraw(&mut self, size: usize, value: &[u8])
        requires
            polydraw_fits(value@),
        ensures
            final(self)@ == old(self)@ + polydraw_items(value@),
    {
        self.polybezier(size, value);
        self.put_i32("Count", value, 24);
        let count: usize = Self::count_at(value, 24);
        self.put_numbered_bytes("abType ", value, 28 + 4 * count, count);
        assert(self@ =~= old(self)@ + polydraw_items(value@));
    }

    /// A drawing through 16-bit points of several kinds.  The number of
    /// points is added once more, at the place behind its own.
    pub fn polydraw16(&mut self, size: usize, value: &[u8])
        requires
            polydraw16_fits(value@),
        ensures
            final(self)@ == old(self)@ + polydraw16_items(value@),
    {
        self.polybezier16(size, value);
        let stated: i32 = read_i32(value, 24);
        self.add_iter("Count", decimal_signed(stated as i64), 28, 4, "<i");
        let count: usize = Self::count_at(value, 24);
        self.put_numbered_bytes("abType ", value, 28 + 4 * count, count);
        assert(self@ =~= old(self)@ + polydraw16_items(value@));
    }
}

} // verus!
