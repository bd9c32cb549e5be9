//! Pixel rectangles and their rescaling between display resolutions.
//!
//! A [`Region`] names a rectangle of an image by its four edges. The named
//! regions of the game's screens are laid out against one design resolution,
//! [`BASE_RESOLUTION`], and are rescaled to the resolution the game actually
//! runs at, each axis by its own ratio.

use vstd::prelude::*;

verus! {

/// A display resolution: width and height in pixels.
pub type Resolution = (i32, i32);

/// The resolution against which the named regions are laid out.
pub const BASE_RESOLUTION: Resolution = (2048, 1152);

/// A rectangle of pixels, given by its edges.
#[derive(Clone, Copy, Debug, PartialEq, Eq, Structural)]
pub struct Region {
    pub left: i32,
    pub right: i32,
    pub top: i32,
    pub bottom: i32,
}

/// A resolution by which one can divide: both dimensions are positive.
pub open spec fn resolution_valid(resolution: Resolution) -> bool {
    resolution.0 > 0 && resolution.1 > 0
}

/// One coordinate carried from a `from` pixels wide axis to a `to` pixels
/// wide one: `value * to / from`, rounded down.
pub open spec fn scaled(value: int, from: int, to: int) -> int {
    (value * to) / from
}

/// How far a coordinate may have moved after it was scaled from `from` to
/// `to` and back: it never grows, and it shrinks by less than
/// `from / to + 1` pixels.
pub open spec fn within_tolerance(start: int, back: int, from: int, to: int) -> bool {
    0 <= start - back && (start - back) * to < from + to
}

impl Region {
    /// The edges are in order: the right edge is not left of the left one,
    /// the bottom edge not above the top one.
    pub open spec fn well_formed(&self) -> bool {
        self.left <= self.right && self.top <= self.bottom
    }

    /// The horizontal extent, as a mathematical integer.
    pub open spec fn spec_width(&self) -> int {
        self.right - self.left
    }

    /// The vertical extent, as a mathematical integer.
    pub open spec fn spec_height(&self) -> int {
        self.bottom - self.top
    }

    /// Both extents are representable as `i32`.
    pub open spec fn measurable(&self) -> bool {
        &&& i32::MIN <= self.spec_width() <= i32::MAX
        &&& i32::MIN <= self.spec_height() <= i32::MAX
    }

    /// The rectangle with every edge rescaled, before any machine limit.
    pub open spec fn scaled_edges(&self, from: Resolution, to: Resolution) -> (int, int, int, int) {
        (
            scaled(self.left as int, from.0 as int, to.0 as int),
            scaled(self.right as int, from.0 as int, to.0 as int),
            scaled(self.top as int, from.1 as int, to.1 as int),
            scaled(self.bottom as int, from.1 as int, to.1 as int),
        )
    }

    /// Rescaling from `from` to `to` is defined, and every rescaled edge is
    /// representable as `i32`.
    pub open spec fn scalable(&self, from: Resolution, to: Resolution) -> bool {
        let e = self.scaled_edges(from, to);
        &&& resolution_valid(from)
        &&& i32::MIN <= e.0 <= i32::MAX
        &&& i32::MIN <= e.1 <= i32::MAX
        &&& i32::MIN <= e.2 <= i32::MAX
        &&& i32::MIN <= e.3 <= i32::MAX
    }

    /// The rectangle rescaled from `from` to `to`.
    pub open spec fn spec_scale(&self, from: Resolution, to: Resolution) -> Region {
        let e = self.scaled_edges(from, to);
        Region { left: e.0 as i32, right: e.1 as i32, top: e.2 as i32, bottom: e.3 as i32 }
    }

    /// Every edge of `back` is within the rounding tolerance of the same edge
    /// of `self`, for a journey from `from` to `to` and back.
    pub open spec fn recovered_by(&self, back: Region, from: Resolution, to: Resolution) -> bool {
        &&& within_tolerance(self.left as int, back.left as int, from.0 as int, to.0 as int)
        &&& within_tolerance(self.right as int, back.right as int, from.0 as int, to.0 as int)
        &&& within_tolerance(self.top as int, back.top as int, from.1 as int, to.1 as int)
        &&& within_tolerance(self.bottom as int, back.bottom as int, from.1 as int, to.1 as int)
    }

    /// The "DUEL" prompt of the main menu, at the design resolution.
    pub fn main_menu_duel() -> (r: Region)
        ensures
            r == (Region { left: 140, right: 390, top: 225, bottom: 300 }),
            r.well_formed(),
    {
        Region { left: 140, right: 390, top: 225, bottom: 300 }
    }

    /// The card name shown in the deck editor, at the design resolution.
    pub fn card_name_deck_edit() -> (r: Region)
        ensures
            r == (Region { left: 59, right: 424, top: 168, bottom: 201 }),
            r.well_formed(),
    {
        Region { left: 59, right: 424, top: 168, bottom: 201 }
    }

    /// Whether the edges are in order.
    pub fn is_well_formed(&self) -> (b: bool)
        ensures
            b == self.well_formed(),
    {
        self.left <= self.right && self.top <= self.bottom
    }

    /// Whether `width` and `height` can be asked of this rectangle.
    pub fn is_measurable(&self) -> (b: bool)
        ensures
            b == self.measurable(),
    {
        let w: i64 = self.right as i64 - self.left as i64;
        let h: i64 = self.bottom as i64 - self.top as i64;
        -2147483648 <= w && w <= 2147483647 && -2147483648 <= h && h <= 2147483647
    }

    /// The horizontal extent, `right - left`.
    pub fn width(&self) -> (w: i32)
        requires
            i32::MIN <= self.spec_width() <= i32::MAX,
        ensures
            w == self.right - self.left,
            self.well_formed() ==> w >= 0,
    {
        self.right - self.left
    }

    /// The vertical extent, `bottom - top`.
    pub fn height(&self) -> (h: i32)
        requires
            i32::MIN <= self.spec_height() <= i32::MAX,
        ensures
            h == self.bottom - self.top,
            self.well_formed() ==> h >= 0,
    {
        self.bottom - self.top
    }

    /// The rectangle rescaled from the resolution `from` to the resolution
    /// `to`, or `None` where `from` has a dimension that is not positive or
    /// a rescaled edge is not representable.
    pub fn checked_scale(&self, from: Resolution, to: Resolution) -> (r: Option<Region>)
        ensures
            r is Some <==> self.scalable(from, to),
            r is Some ==> r->Some_0 == self.spec_scale(from, to),
    {
        if from.0 <= 0 || from.1 <= 0 {
            return None;
        }
        let left: i64 = scale_coordinate(self.left, from.0, to.0);
        let right: i64 = scale_coordinate(self.right, from.0, to.0);
        let top: i64 = scale_coordinate(self.top, from.1, to.1);
        let bottom: i64 = scale_coordinate(self.bottom, from.1, to.1);
        if fits_i32(left) && fits_i32(right) && fits_i32(top) && fits_i32(bottom) {
            Some(Region { left: left as i32, right: right as i32, top: top as i32, bottom: bottom as i32 })
        } else {
            None
        }
    }

    /// The rectangle rescaled from the resolution `from` to the resolution
    /// `to`: every horizontal edge by `to.0 / from.0`, every vertical edge by
    /// `to.1 / from.1`, rounded down. Edges that were in order stay in order
    /// when `to` has no negative dimension.
    pub fn scale(&self, from: Resolution, to: Resolution) -> (r: Region)
        requires
            self.scalable(from, to),
        ensures
            r == self.spec_scale(from, to),
            r.left == scaled(self.left as int, from.0 as int, to.0 as int),
            r.right == scaled(self.right as int, from.0 as int, to.0 as int),
            r.top == scaled(self.top as int, from.1 as int, to.1 as int),
            r.bottom == scaled(self.bottom as int, from.1 as int, to.1 as int),
            self.well_formed() && to.0 >= 0 && to.1 >= 0 ==> r.well_formed(),
    {
        let left: i64 = scale_coordinate(self.left, from.0, to.0);
        let right: i64 = scale_coordinate(self.right, from.0, to.0);
        let top: i64 = scale_coordinate(self.top, from.1, to.1);
        let bottom: i64 = scale_coordinate(self.bottom, from.1, to.1);
        proof {
            if self.well_formed() && to.0 >= 0 && to.1 >= 0 {
                lemma_scaled_monotone(self.left as int, self.right as int, from.0 as int, to.0 as int);
                lemma_scaled_monotone(self.top as int, self.bottom as int, from.1 as int, to.1 as int);
            }
        }
        Region { left: left as i32, right: right as i32, top: top as i32, bottom: bottom as i32 }
    }

    /// The rectangle carried from the design resolution to `resolution`.
    pub fn calc_by_resolution(&self, resolution: Resolution) -> (r: Region)
        requires
            self.scalable(BASE_RESOLUTION, resolution),
        ensures
            r == self.spec_scale(BASE_RESOLUTION, resolution),
            r.left == (self.left * resolution.0) / 2048,
            r.right == (self.right * resolution.0) / 2048,
            r.top == (self.top * resolution.1) / 1152,
            r.bottom == (self.bottom * resolution.1) / 1152,
            self.well_formed() && resolution.0 >= 0 && resolution.1 >= 0 ==> r.well_formed(),
    {
        self.scale(BASE_RESOLUTION, resolution)
    }
}

/// Whether `value` is representable as `i32`.
fn fits_i32(value: i64) -> (b: bool)
    ensures
        b == (i32::MIN <= value <= i32::MAX),
{
    -2147483648 <= value && value <= 2147483647
}

/// `value * to / from`, rounded down, in a type wide enough for every input.
fn scale_coordinate(value: i32, from: i32, to: i32) -> (r: i64)
    requires
        from > 0,
    ensures
        r == scaled(value as int, from as int, to as int),
{
    assert(-0x4000_0000_0000_0000 <= (value as int) * (to as int) <= 0x4000_0000_0000_0000)
        by (nonlinear_arith)
        requires
            -0x8000_0000 <= value <= 0x7fff_ffff,
            -0x8000_0000 <= to <= 0x7fff_ffff,
    ;
    let product: i64 = (value as i64) * (to as i64);
    let divisor: i64 = from as i64;
    if product >= 0 {
        product / divisor
    } else {
        proof {
            lemma_floor_of_negative(product as int, divisor as int);
        }
        -((-product + divisor - 1) / divisor)
    }
}

/// Rounding a negative quotient down is rounding its opposite up.
proof fn lemma_floor_of_negative(p: int, d: int)
    requires
        p < 0,
        d > 0,
    ensures
        p / d == -((-p + d - 1) / d),
{
    let q = (-p + d - 1) / d;
    let r = (-p + d - 1) % d;
    vstd::arithmetic::div_mod::lemma_fundamental_div_mod(-p + d - 1, d);
    vstd::arithmetic::div_mod::lemma_mod_bound(-p + d - 1, d);
    // -p + d - 1 == d * q + r with 0 <= r < d, so p == d * (-q) + (d - 1 - r)
    assert(p == d * (-q) + (d - 1 - r)) by (nonlinear_arith)
        requires
            -p + d - 1 == d * q + r,
    ;
    vstd::arithmetic::div_mod::lemma_fundamental_div_mod_converse_div(p, d, -q, d - 1 - r);
}

/// Rescaling by a ratio that is not negative keeps the order of two
/// coordinates.
pub proof fn lemma_scaled_monotone(a: int, b: int, from: int, to: int)
    requires
        a <= b,
        from > 0,
        to >= 0,
    ensures
        scaled(a, from, to) <= scaled(b, from, to),
{
    assert(a * to <= b * to) by (nonlinear_arith)
        requires
            a <= b,
            to >= 0,
    ;
    vstd::arithmetic::div_mod::lemma_div_is_ordered(a * to, b * to, from);
}

/// Rescaling to the same resolution changes nothing.
pub proof fn lemma_scale_to_itself(region: Region, resolution: Resolution)
    requires
        resolution_valid(resolution),
    ensures
        region.scalable(resolution, resolution),
        region.spec_scale(resolution, resolution) == region,
{
    vstd::arithmetic::div_mod::lemma_div_multiples_vanish(region.left as int, resolution.0 as int);
    vstd::arithmetic::div_mod::lemma_div_multiples_vanish(region.right as int, resolution.0 as int);
    vstd::arithmetic::div_mod::lemma_div_multiples_vanish(region.top as int, resolution.1 as int);
    vstd::arithmetic::div_mod::lemma_div_multiples_vanish(region.bottom as int, resolution.1 as int);
    assert(region.left * resolution.0 == resolution.0 * region.left) by (nonlinear_arith);
    assert(region.right * resolution.0 == resolution.0 * region.right) by (nonlinear_arith);
    assert(region.top * resolution.1 == resolution.1 * region.top) by (nonlinear_arith);
    assert(region.bottom * resolution.1 == resolution.1 * region.bottom) by (nonlinear_arith);
}

/// A coordinate that is scaled from `from` to `to` and then back from `to`
/// to `from` returns within the rounding tolerance of where it started.
pub proof fn lemma_scaled_round_trip(value: int, from: int, to: int)
    requires
        from > 0,
        to > 0,
    ensures
        within_tolerance(value, scaled(scaled(value, from, to), to, from), from, to),
{
    let y = scaled(value, from, to);
    let z = scaled(y, to, from);
    let r1 = (value * to) % from;
    let r2 = (y * from) % to;
    vstd::arithmetic::div_mod::lemma_fundamental_div_mod(value * to, from);
    vstd::arithmetic::div_mod::lemma_mod_bound(value * to, from);
    vstd::arithmetic::div_mod::lemma_fundamental_div_mod(y * from, to);
    vstd::arithmetic::div_mod::lemma_mod_bound(y * from, to);
    // value * to == from * y + r1 and y * from == to * z + r2
    assert((value - z) * to == r1 + r2) by (nonlinear_arith)
        requires
            value * to == from * y + r1,
            y * from == to * z + r2,
    ;
    assert(0 <= value - z) by (nonlinear_arith)
        requires
            (value - z) * to == r1 + r2,
            0 <= r1 + r2,
            to > 0,
    ;
}

/// When the journey goes to a resolution that is no smaller than the one it
/// started from, a coordinate comes back at most one pixel short.
pub proof fn lemma_scaled_round_trip_enlarging(value: int, from: int, to: int)
    requires
        from > 0,
        to >= from,
    ensures
        value - 1 <= scaled(scaled(value, from, to), to, from) <= value,
{
    lemma_scaled_round_trip(value, from, to);
    let z = scaled(scaled(value, from, to), to, from);
    assert(value - z < 2) by (nonlinear_arith)
        requires
            (value - z) * to < from + to,
            0 <= value - z,
            to >= from,
            from > 0,
    ;
}

/// A rectangle that is rescaled to another resolution and back comes out with
/// every edge within the rounding tolerance of where it was.
pub proof fn lemma_scale_round_trip(region: Region, from: Resolution, to: Resolution)
    requires
        resolution_valid(from),
        resolution_valid(to),
        region.scalable(from, to),
        region.spec_scale(from, to).scalable(to, from),
    ensures
        region.recovered_by(region.spec_scale(from, to).spec_scale(to, from), from, to),
{
    lemma_scaled_round_trip(region.left as int, from.0 as int, to.0 as int);
    lemma_scaled_round_trip(region.right as int, from.0 as int, to.0 as int);
    lemma_scaled_round_trip(region.top as int, from.1 as int, to.1 as int);
    lemma_scaled_round_trip(region.bottom as int, from.1 as int, to.1 as int);
}

} // verus!
