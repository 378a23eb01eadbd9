//! Integer rectangles, their overlap ratio, and regions clamped to a frame.
//!
//! Everything here is a pure function of its arguments. The overlap ratio is
//! kept as an exact fraction of two areas, so that ratios can be compared
//! without rounding.

use vstd::prelude::*;

verus! {

/// An axis-aligned rectangle in the pixel coordinates of one frame.
///
/// Any four integers form a `Rect`; a rectangle that can bound a target has
/// positive width and height (`is_valid`).
#[derive(Clone, Copy, Debug, PartialEq, Eq, Structural)]
pub struct Rect {
    pub x: i32,
    pub y: i32,
    pub width: i32,
    pub height: i32,
}

impl Rect {
    /// The column of the left edge.
    pub open spec fn left(self) -> int {
        self.x as int
    }

    /// The row of the top edge.
    pub open spec fn top(self) -> int {
        self.y as int
    }

    /// One past the last column.
    pub open spec fn right(self) -> int {
        self.x + self.width
    }

    /// One past the last row.
    pub open spec fn bottom(self) -> int {
        self.y + self.height
    }

    /// Width times height, negative when exactly one of them is.
    pub open spec fn area(self) -> int {
        self.width * self.height
    }

    /// Positive width and positive height.
    pub open spec fn is_valid(self) -> bool {
        self.width > 0 && self.height > 0
    }

    /// Whether the pixel at column `px`, row `py` lies inside the rectangle.
    pub open spec fn contains(self, px: int, py: int) -> bool {
        self.left() <= px < self.right() && self.top() <= py < self.bottom()
    }

    /// Builds a rectangle from its corner and its size.
    pub fn new(x: i32, y: i32, width: i32, height: i32) -> (r: Rect)
        ensures
            r == (Rect { x, y, width, height }),
    {
        Rect { x, y, width, height }
    }

    /// Tells whether the rectangle has positive width and height.
    pub fn valid(&self) -> (b: bool)
        ensures
            b == self.is_valid(),
    {
        self.width > 0 && self.height > 0
    }
}

/// The length that the spans `[lo_a, hi_a)` and `[lo_b, hi_b)` share, zero
/// when they share nothing.
pub open spec fn overlap_len(lo_a: int, hi_a: int, lo_b: int, hi_b: int) -> int {
    let lo = if lo_a >= lo_b { lo_a } else { lo_b };
    let hi = if hi_a <= hi_b { hi_a } else { hi_b };
    if hi > lo { hi - lo } else { 0 }
}

/// The area of the intersection of `a` and `b`.
pub open spec fn intersection_area(a: Rect, b: Rect) -> int {
    overlap_len(a.left(), a.right(), b.left(), b.right())
        * overlap_len(a.top(), a.bottom(), b.top(), b.bottom())
}

/// The area of the union of `a` and `b`: both areas less what they share.
pub open spec fn union_area(a: Rect, b: Rect) -> int {
    a.area() + b.area() - intersection_area(a, b)
}

/// Numerator of the overlap ratio of `a` and `b`.
pub open spec fn iou_num(a: Rect, b: Rect) -> int {
    if union_area(a, b) > 0 { intersection_area(a, b) } else { 0 }
}

/// Denominator of the overlap ratio of `a` and `b`; always positive.
///
/// Where the union has no positive area the ratio is defined as zero,
/// written `0 / 1`.
pub open spec fn iou_den(a: Rect, b: Rect) -> int {
    if union_area(a, b) > 0 { union_area(a, b) } else { 1 }
}

/// No pixel lies in both rectangles.
pub open spec fn disjoint(a: Rect, b: Rect) -> bool {
    forall|px: int, py: int| !(#[trigger] a.contains(px, py) && b.contains(px, py))
}

/// An overlap ratio: the fraction `num / den`.
///
/// `iou` only ever returns fractions with `0 <= num <= den` and `den > 0`.
#[derive(Clone, Copy, Debug)]
pub struct Iou {
    pub num: u64,
    pub den: u64,
}

impl Iou {
    /// The fraction is zero.
    pub open spec fn is_zero_spec(self) -> bool {
        self.num == 0
    }

    /// `self` is a strictly greater fraction than `other`, by cross
    /// multiplication. For positive denominators this is the order of the
    /// rationals.
    pub open spec fn gt_spec(self, other: Iou) -> bool {
        self.num * other.den > other.num * self.den
    }

    /// Tells whether the ratio is zero.
    pub fn is_zero(&self) -> (b: bool)
        ensures
            b == self.is_zero_spec(),
    {
        self.num == 0
    }

    /// Tells whether `self` is strictly greater than `other`.
    pub fn exceeds(&self, other: &Iou) -> (b: bool)
        ensures
            b == self.gt_spec(*other),
    {
        let lhs: u128 = widening_mul(self.num, other.den);
        let rhs: u128 = widening_mul(other.num, self.den);
        lhs > rhs
    }
}

/// The product of two `u64` values, which always fits in a `u128`.
fn widening_mul(a: u64, b: u64) -> (p: u128)
    ensures
        p == a * b,
{
    assert(a * b <= 0xffff_ffff_ffff_ffff * 0xffff_ffff_ffff_ffff) by (nonlinear_arith)
        requires
            0 <= a <= 0xffff_ffff_ffff_ffff,
            0 <= b <= 0xffff_ffff_ffff_ffff,
    ;
    (a as u128) * (b as u128)
}

/// The shared length of two spans, computed on machine integers.
fn overlap(lo_a: i64, hi_a: i64, lo_b: i64, hi_b: i64) -> (len: i64)
    requires
        -0x2_0000_0000 <= lo_a <= 0x2_0000_0000,
        -0x2_0000_0000 <= hi_a <= 0x2_0000_0000,
        -0x2_0000_0000 <= lo_b <= 0x2_0000_0000,
        -0x2_0000_0000 <= hi_b <= 0x2_0000_0000,
    ensures
        len == overlap_len(lo_a as int, hi_a as int, lo_b as int, hi_b as int),
{
    let lo: i64 = if lo_a >= lo_b { lo_a } else { lo_b };
    let hi: i64 = if hi_a <= hi_b { hi_a } else { hi_b };
    if hi > lo { hi - lo } else { 0 }
}

/// The shared length of two spans is at most the length of either, and is
/// positive only where both spans are.
pub proof fn lemma_overlap_len_bounds(lo_a: int, hi_a: int, lo_b: int, hi_b: int)
    ensures
        0 <= overlap_len(lo_a, hi_a, lo_b, hi_b),
        overlap_len(lo_a, hi_a, lo_b, hi_b) > 0 ==> overlap_len(lo_a, hi_a, lo_b, hi_b) <= hi_a
            - lo_a && overlap_len(lo_a, hi_a, lo_b, hi_b) <= hi_b - lo_b,
{
}

/// The intersection is never negative, and where it is positive both
/// rectangles are valid and each holds at least the intersection.
pub proof fn lemma_intersection_bounds(a: Rect, b: Rect)
    ensures
        0 <= intersection_area(a, b),
        intersection_area(a, b) > 0 ==> a.is_valid() && b.is_valid() && intersection_area(a, b)
            <= a.area() && intersection_area(a, b) <= b.area(),
{
    let iw = overlap_len(a.left(), a.right(), b.left(), b.right());
    let ih = overlap_len(a.top(), a.bottom(), b.top(), b.bottom());
    lemma_overlap_len_bounds(a.left(), a.right(), b.left(), b.right());
    lemma_overlap_len_bounds(a.top(), a.bottom(), b.top(), b.bottom());
    assert(0 <= iw * ih) by (nonlinear_arith)
        requires
            0 <= iw,
            0 <= ih,
    ;
    if iw * ih > 0 {
        assert(iw > 0 && ih > 0) by (nonlinear_arith)
            requires
                0 <= iw,
                0 <= ih,
                iw * ih > 0,
        ;
        let wa = a.width as int;
        let ha = a.height as int;
        let wb = b.width as int;
        let hb = b.height as int;
        assert(iw * ih <= wa * ha) by (nonlinear_arith)
            requires
                0 < iw <= wa,
                0 < ih <= ha,
        ;
        assert(iw * ih <= wb * hb) by (nonlinear_arith)
            requires
                0 < iw <= wb,
                0 < ih <= hb,
        ;
    }
}

/// The overlap ratio lies between zero and one.
pub proof fn lemma_iou_is_fraction(a: Rect, b: Rect)
    ensures
        0 <= iou_num(a, b) <= iou_den(a, b),
        0 < iou_den(a, b),
{
    lemma_intersection_bounds(a, b);
}

/// Intersection over union of `a` and `b`, as an exact fraction.
///
/// The ratio is zero where the union has no positive area.
pub fn iou(a: &Rect, b: &Rect) -> (r: Iou)
    ensures
        r.num == iou_num(*a, *b),
        r.den == iou_den(*a, *b),
        0 <= r.num <= r.den,
        0 < r.den,
{
    let iw: i64 = overlap(
        a.x as i64,
        a.x as i64 + a.width as i64,
        b.x as i64,
        b.x as i64 + b.width as i64,
    );
    let ih: i64 = overlap(
        a.y as i64,
        a.y as i64 + a.height as i64,
        b.y as i64,
        b.y as i64 + b.height as i64,
    );
    proof {
        lemma_overlap_len_bounds(a.left(), a.right(), b.left(), b.right());
        lemma_overlap_len_bounds(a.top(), a.bottom(), b.top(), b.bottom());
        lemma_intersection_bounds(*a, *b);
        assert(0 <= iw <= 0x7fff_ffff && 0 <= ih <= 0x7fff_ffff);
        assert(iw * ih <= 0x7fff_ffff * 0x7fff_ffff) by (nonlinear_arith)
            requires
                0 <= iw <= 0x7fff_ffff,
                0 <= ih <= 0x7fff_ffff,
        ;
        assert(0 <= iw * ih) by (nonlinear_arith)
            requires
                0 <= iw,
                0 <= ih,
        ;
    }
    let inter: i64 = iw * ih;
    let area_a: i64 = area_of(a);
    let area_b: i64 = area_of(b);
    let union: i128 = area_a as i128 + area_b as i128 - inter as i128;
    if union > 0 {
        Iou { num: inter as u64, den: union as u64 }
    } else {
        Iou { num: 0, den: 1 }
    }
}

/// Width times height on machine integers.
fn area_of(r: &Rect) -> (area: i64)
    ensures
        area == r.area(),
        -0x4000_0000_0000_0000 <= area <= 0x4000_0000_0000_0000,
{
    let w: i64 = r.width as i64;
    let h: i64 = r.height as i64;
    assert(-0x4000_0000_0000_0000 <= w * h <= 0x4000_0000_0000_0000) by (nonlinear_arith)
        requires
            -0x8000_0000 <= w <= 0x7fff_ffff,
            -0x8000_0000 <= h <= 0x7fff_ffff,
    ;
    w * h
}

/// A valid rectangle overlaps itself completely: the ratio is exactly one.
pub proof fn lemma_iou_self(a: Rect)
    requires
        a.is_valid(),
    ensures
        iou_num(a, a) == iou_den(a, a),
        iou_den(a, a) > 0,
{
    let w = a.width as int;
    let h = a.height as int;
    assert(overlap_len(a.left(), a.right(), a.left(), a.right()) == w);
    assert(overlap_len(a.top(), a.bottom(), a.top(), a.bottom()) == h);
    assert(w * h > 0) by (nonlinear_arith)
        requires
            w > 0,
            h > 0,
    ;
}

/// The overlap ratio does not depend on the order of its arguments.
pub proof fn lemma_iou_symmetric(a: Rect, b: Rect)
    ensures
        iou_num(a, b) == iou_num(b, a),
        iou_den(a, b) == iou_den(b, a),
{
    assert(overlap_len(a.left(), a.right(), b.left(), b.right()) == overlap_len(
        b.left(),
        b.right(),
        a.left(),
        a.right(),
    ));
    assert(overlap_len(a.top(), a.bottom(), b.top(), b.bottom()) == overlap_len(
        b.top(),
        b.bottom(),
        a.top(),
        a.bottom(),
    ));
}

/// Rectangles share no pixel exactly when their intersection has no area;
/// the overlap ratio of such rectangles is zero.
pub proof fn lemma_iou_disjoint(a: Rect, b: Rect)
    ensures
        disjoint(a, b) <==> intersection_area(a, b) == 0,
        disjoint(a, b) ==> iou_num(a, b) == 0,
{
    let iw = overlap_len(a.left(), a.right(), b.left(), b.right());
    let ih = overlap_len(a.top(), a.bottom(), b.top(), b.bottom());
    lemma_intersection_bounds(a, b);
    if disjoint(a, b) && iw * ih != 0 {
        assert(iw > 0 && ih > 0) by (nonlinear_arith)
            requires
                0 <= iw,
                0 <= ih,
                iw * ih > 0,
        ;
        let px = if a.left() >= b.left() { a.left() } else { b.left() };
        let py = if a.top() >= b.top() { a.top() } else { b.top() };
        assert(a.contains(px, py) && b.contains(px, py));
    }
    if iw * ih == 0 && !disjoint(a, b) {
        let (px, py) = choose|px: int, py: int| #[trigger] a.contains(px, py) && b.contains(px, py);
        assert(iw >= 1 && ih >= 1);
        assert(iw * ih >= 1) by (nonlinear_arith)
            requires
                iw >= 1,
                ih >= 1,
        ;
    }
}

} // verus!
