//! Screen-space geometry for the path renderer: points, the viewport
//! rectangle, Cohen-Sutherland region codes and segment clipping.
//!
//! Coordinates are integer pixels. The clipping routine never invents a
//! point outside the bounding box of the segment it was given, returns the
//! segment unchanged when it is already fully visible, and rejects exactly
//! the segments that lie entirely beyond one viewport edge.

use vstd::prelude::*;
use vstd::arithmetic::div_mod::{
    lemma_div_is_ordered, lemma_div_multiples_vanish, lemma_div_pos_is_pos,
};
use vstd::arithmetic::mul::{lemma_mul_inequality, lemma_mul_upper_bound};

verus! {

/// Largest coordinate magnitude the renderer accepts, in pixels. Keeps all
/// intermediate products comfortably inside `i64`.
pub const COORD_BOUND: i64 = 1_000_000;

/// A point in screen space, in integer pixels.
#[derive(Debug, Clone, Copy, PartialEq, Eq, Structural)]
pub struct ScreenPos {
    pub x: i64,
    pub y: i64,
}

/// An axis-aligned viewport rectangle, `min` at the top-left corner
/// (screen y grows downward).
#[derive(Debug, Clone, Copy, PartialEq, Eq, Structural)]
pub struct ScreenRect {
    pub min: ScreenPos,
    pub max: ScreenPos,
}

impl ScreenPos {
    /// Both coordinates within the renderer's working range.
    pub open spec fn bounded(self) -> bool {
        &&& -COORD_BOUND <= self.x <= COORD_BOUND
        &&& -COORD_BOUND <= self.y <= COORD_BOUND
    }
}

impl ScreenRect {
    /// A rectangle is well formed when each minimum is at most its maximum.
    pub open spec fn wf(self) -> bool {
        self.min.x <= self.max.x && self.min.y <= self.max.y
    }

    /// Corner coordinates within the renderer's working range.
    pub open spec fn bounded(self) -> bool {
        self.min.bounded() && self.max.bounded()
    }

    /// Whether `p` lies inside the rectangle, boundary included.
    pub open spec fn contains(self, p: ScreenPos) -> bool {
        &&& self.min.x <= p.x <= self.max.x
        &&& self.min.y <= p.y <= self.max.y
    }
}

/// Region-code flag: left of the viewport.
pub const CODE_LEFT: u8 = 1;

/// Region-code flag: right of the viewport.
pub const CODE_RIGHT: u8 = 2;

/// Region-code flag: below the viewport (beyond `max.y`).
pub const CODE_BOTTOM: u8 = 4;

/// Region-code flag: above the viewport (before `min.y`).
pub const CODE_TOP: u8 = 8;

/// The Cohen-Sutherland region code of `p` against `r`: the sum of the
/// flags of the half-planes that `p` violates. The horizontal flags and
/// the vertical flags are each mutually exclusive, so the sum encodes the
/// flag set exactly.
pub open spec fn spec_region_code(p: ScreenPos, r: ScreenRect) -> int {
    (if p.x < r.min.x {
        1int
    } else if p.x > r.max.x {
        2int
    } else {
        0int
    }) + (if p.y < r.min.y {
        8int
    } else if p.y > r.max.y {
        4int
    } else {
        0int
    })
}

/// Classifies `p` against the four half-planes of `r`.
pub fn region_code(p: ScreenPos, r: ScreenRect) -> (c: u8)
    ensures
        c == spec_region_code(p, r),
        c == 0 <==> r.contains(p),
{
    let horizontal: u8 = if p.x < r.min.x {
        CODE_LEFT
    } else if p.x > r.max.x {
        CODE_RIGHT
    } else {
        0
    };
    let vertical: u8 = if p.y < r.min.y {
        CODE_TOP
    } else if p.y > r.max.y {
        CODE_BOTTOM
    } else {
        0
    };
    horizontal + vertical
}

/// Both endpoints lie strictly beyond the same viewport edge: the segment
/// cannot touch the viewport, and the region codes of the endpoints share
/// a flag.
pub open spec fn same_side(a: ScreenPos, b: ScreenPos, r: ScreenRect) -> bool {
    ||| (a.x < r.min.x && b.x < r.min.x)
    ||| (a.x > r.max.x && b.x > r.max.x)
    ||| (a.y < r.min.y && b.y < r.min.y)
    ||| (a.y > r.max.y && b.y > r.max.y)
}

/// Whether `p` lies within the axis-aligned bounding box of the segment
/// from `a` to `b`.
pub open spec fn in_segment_box(p: ScreenPos, a: ScreenPos, b: ScreenPos) -> bool {
    &&& (if a.x <= b.x {
        a.x <= p.x <= b.x
    } else {
        b.x <= p.x <= a.x
    })
    &&& (if a.y <= b.y {
        a.y <= p.y <= b.y
    } else {
        b.y <= p.y <= a.y
    })
}

/// How many viewport edges still have some endpoint of the working segment
/// strictly beyond them. Each clipping step settles one edge for good, so
/// this is the loop measure of `clip_segment`.
pub open spec fn pending_sides(p1: ScreenPos, p2: ScreenPos, r: ScreenRect) -> int {
    (if p1.y >= r.min.y && p2.y >= r.min.y {
        0int
    } else {
        1int
    }) + (if p1.y <= r.max.y && p2.y <= r.max.y {
        0int
    } else {
        1int
    }) + (if p1.x >= r.min.x && p2.x >= r.min.x {
        0int
    } else {
        1int
    }) + (if p1.x <= r.max.x && p2.x <= r.max.x {
        0int
    } else {
        1int
    })
}

/// The scaled offset `d * num / den`, bounded by `d`: the workhorse of the
/// boundary-intersection step.
fn scaled_offset(d: u64, num: u64, den: u64) -> (q: u64)
    requires
        0 < den <= 2 * COORD_BOUND,
        num <= den,
        d <= 2 * COORD_BOUND,
    ensures
        q <= d,
        q == (d as int * num as int) / (den as int),
{
    proof {
        let di: int = d as int;
        let ni: int = num as int;
        let de: int = den as int;
        lemma_mul_upper_bound(di, 2_000_000, ni, 2_000_000);
        lemma_mul_inequality(ni, de, di);
        lemma_div_is_ordered(ni * di, de * di, de);
        lemma_div_multiples_vanish(di, de);
        assert(di * ni == ni * di) by (nonlinear_arith);
        assert(de * di == di * de) by (nonlinear_arith);
        assert(di * ni <= di * de);
        lemma_div_pos_is_pos(di * ni, de);
        assert(0 <= di * ni) by (nonlinear_arith)
            requires
                0 <= di,
                0 <= ni,
        ;
    }
    d * num / den
}

/// Interpolates from `from` toward `to` by the fraction `num / den`,
/// rounding toward `from`. The result never leaves the closed interval
/// between the two inputs.
fn interp(from: i64, to: i64, num: i64, den: i64) -> (r: i64)
    requires
        0 < den <= 2 * COORD_BOUND,
        0 <= num <= den,
        -COORD_BOUND <= from <= COORD_BOUND,
        -COORD_BOUND <= to <= COORD_BOUND,
    ensures
        from <= to ==> from <= r <= to,
        to <= from ==> to <= r <= from,
{
    if to >= from {
        let q: u64 = scaled_offset((to - from) as u64, num as u64, den as u64);
        from + (q as i64)
    } else {
        let q: u64 = scaled_offset((from - to) as u64, num as u64, den as u64);
        from - (q as i64)
    }
}

/// Clips the segment from `a` to `b` against the viewport `r` with the
/// Cohen-Sutherland scheme: trivially accept when both endpoints are
/// inside, trivially reject when both region codes share a flag, and
/// otherwise pull the endpoint that violates a half-plane onto that
/// boundary until one of the trivial cases decides.
///
/// A segment that is already fully visible comes back unchanged, a segment
/// entirely beyond one edge comes back `None`, and every returned endpoint
/// lies both inside the viewport and inside the bounding box of the
/// original segment. An endpoint that was already visible is never moved.
pub fn clip_segment(a: ScreenPos, b: ScreenPos, r: ScreenRect) -> (res: Option<
    (ScreenPos, ScreenPos),
>)
    requires
        r.wf(),
        r.bounded(),
        a.bounded(),
        b.bounded(),
    ensures
        r.contains(a) && r.contains(b) ==> res == Some((a, b)),
        same_side(a, b, r) ==> res is None,
        res matches Some(pq) ==> r.contains(pq.0) && r.contains(pq.1),
        res matches Some(pq) ==> in_segment_box(pq.0, a, b) && in_segment_box(pq.1, a, b),
        r.contains(a) ==> (res matches Some(pq) && pq.0 == a),
        r.contains(b) ==> (res matches Some(pq) && pq.1 == b),
{
    let mut p1 = a;
    let mut p2 = b;
    loop
        invariant
            r.wf(),
            r.bounded(),
            a.bounded(),
            b.bounded(),
            p1.bounded(),
            p2.bounded(),
            in_segment_box(p1, a, b),
            in_segment_box(p2, a, b),
            r.contains(a) ==> p1 == a,
            r.contains(b) ==> p2 == b,
            same_side(a, b, r) ==> same_side(p1, p2, r),
        decreases pending_sides(p1, p2, r),
    {
        let c1 = region_code(p1, r);
        let c2 = region_code(p2, r);
        if c1 == 0 && c2 == 0 {
            return Some((p1, p2));
        }
        if (p1.x < r.min.x && p2.x < r.min.x) || (p1.x > r.max.x && p2.x > r.max.x) || (p1.y
            < r.min.y && p2.y < r.min.y) || (p1.y > r.max.y && p2.y > r.max.y) {
            return None;
        }
        if c1 != 0 {
            if p1.y < r.min.y {
                let nx: i64 = interp(p1.x, p2.x, r.min.y - p1.y, p2.y - p1.y);
                p1 = ScreenPos { x: nx, y: r.min.y };
            } else if p1.y > r.max.y {
                let nx: i64 = interp(p1.x, p2.x, p1.y - r.max.y, p1.y - p2.y);
                p1 = ScreenPos { x: nx, y: r.max.y };
            } else if p1.x > r.max.x {
                let ny: i64 = interp(p1.y, p2.y, p1.x - r.max.x, p1.x - p2.x);
                p1 = ScreenPos { x: r.max.x, y: ny };
            } else {
                let ny: i64 = interp(p1.y, p2.y, r.min.x - p1.x, p2.x - p1.x);
                p1 = ScreenPos { x: r.min.x, y: ny };
            }
        } else {
            if p2.y < r.min.y {
                let nx: i64 = interp(p2.x, p1.x, r.min.y - p2.y, p1.y - p2.y);
                p2 = ScreenPos { x: nx, y: r.min.y };
            } else if p2.y > r.max.y {
                let nx: i64 = interp(p2.x, p1.x, p2.y - r.max.y, p2.y - p1.y);
                p2 = ScreenPos { x: nx, y: r.max.y };
            } else if p2.x > r.max.x {
                let ny: i64 = interp(p2.y, p1.y, p2.x - r.max.x, p2.x - p1.x);
                p2 = ScreenPos { x: r.max.x, y: ny };
            } else {
                let ny: i64 = interp(p2.y, p1.y, r.min.x - p2.x, p1.x - p2.x);
                p2 = ScreenPos { x: r.min.x, y: ny };
            }
        }
    }
}

} // verus!
