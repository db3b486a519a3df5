//! Flow-arrow placement along the visible part of a path segment.
//!
//! Arrows sit at a fixed screen-space spacing: a segment of visible length
//! `len` gets `floor(len / spacing)` arrows, centred at the fractions
//! `(i + 1) / (count + 1)` of the visible sub-segment, so the arrows are
//! evenly spaced with equal margins at both ends and never sit exactly on
//! an endpoint. Centres are exact rationals: a pair of numerators over the
//! common denominator `count + 1`, which the painting layer divides out.

use vstd::prelude::*;
use crate::geometry::{clip_segment, in_segment_box, same_side, ScreenPos, ScreenRect, COORD_BOUND};

verus! {

/// Squared Euclidean length of the segment from `a` to `b`.
pub open spec fn dist2(a: ScreenPos, b: ScreenPos) -> int {
    (b.x - a.x) * (b.x - a.x) + (b.y - a.y) * (b.y - a.y)
}

/// `n` is the number of whole `spacing` lengths that fit into the distance
/// from `a` to `b`: exactly `floor(len / spacing)`, phrased over squares so
/// that no irrational length is ever mentioned.
pub open spec fn is_arrow_count(n: int, a: ScreenPos, b: ScreenPos, spacing: int) -> bool {
    &&& 0 <= n
    &&& n * spacing * (n * spacing) <= dist2(a, b)
    &&& dist2(a, b) < (n + 1) * spacing * ((n + 1) * spacing)
}

/// The exact centre of one flow arrow: the point
/// `(num_x / den, num_y / den)` in screen space.
#[derive(Debug, Clone, Copy, PartialEq, Eq, Structural)]
pub struct ArrowCenter {
    pub num_x: i64,
    pub num_y: i64,
    pub den: i64,
}

/// The centre of arrow `i` out of `count` on the segment from `a` to `b`:
/// the point at fraction `(i + 1) / (count + 1)` from `a`.
pub open spec fn arrow_center_at(a: ScreenPos, b: ScreenPos, count: int, i: int) -> ArrowCenter {
    ArrowCenter {
        num_x: (a.x * (count + 1) + (i + 1) * (b.x - a.x)) as i64,
        num_y: (a.y * (count + 1) + (i + 1) * (b.y - a.y)) as i64,
        den: (count + 1) as i64,
    }
}

/// Counts how many whole `spacing` lengths fit into the segment from `a`
/// to `b`: `floor(length / spacing)` without ever computing the square
/// root.
pub fn arrow_count(a: ScreenPos, b: ScreenPos, spacing: i64) -> (n: usize)
    requires
        a.bounded(),
        b.bounded(),
        0 < spacing <= COORD_BOUND,
    ensures
        is_arrow_count(n as int, a, b, spacing as int),
{
    let dx: i64 = if b.x >= a.x {
        b.x - a.x
    } else {
        a.x - b.x
    };
    let dy: i64 = if b.y >= a.y {
        b.y - a.y
    } else {
        a.y - b.y
    };
    proof {
        assert(0 <= dx * dx <= 4_000_000_000_000 && 0 <= dy * dy <= 4_000_000_000_000)
            by (nonlinear_arith)
            requires
                0 <= dx <= 2_000_000 && 0 <= dy <= 2_000_000,
        ;
        assert(dx * dx == (b.x - a.x) * (b.x - a.x) && dy * dy == (b.y - a.y) * (b.y - a.y))
            by (nonlinear_arith)
            requires
                dx == (if b.x >= a.x { b.x - a.x } else { a.x - b.x }) && dy == (if b.y >= a.y {
                    b.y - a.y
                } else {
                    a.y - b.y
                }),
        ;
    }
    let d2: i64 = dx * dx + dy * dy;
    let mut n: usize = 0;
    proof {
        assert((0int) * (spacing as int) * ((0int) * (spacing as int)) == 0) by (nonlinear_arith);
    }
    loop
        invariant
            0 <= d2 <= 8_000_000_000_000,
            0 < spacing <= 1_000_000,
            n <= 3_000_000,
            (n as int) * (spacing as int) * ((n as int) * (spacing as int)) <= d2 as int,
            d2 == dist2(a, b),
        decreases 3_000_000 - n,
    {
        proof {
            assert(0 < (n as int + 1) * (spacing as int) <= 3_000_001 * 1_000_000)
                by (nonlinear_arith)
                requires
                    0 <= n as int <= 3_000_000 && 0 < spacing as int <= 1_000_000,
            ;
        }
        let next: i64 = (n as i64 + 1) * spacing;
        if next > 3_000_000 {
            proof {
                assert((d2 as int) < (next as int) * (next as int)) by (nonlinear_arith)
                    requires
                        next as int > 3_000_000 && d2 as int <= 8_000_000_000_000,
                ;
            }
            return n;
        }
        proof {
            assert(0 <= (next as int) * (next as int) <= 9_000_000_000_000) by (nonlinear_arith)
                requires
                    0 < next as int <= 3_000_000,
            ;
        }
        if next * next > d2 {
            return n;
        }
        proof {
            assert((n as int + 1) * (spacing as int) <= 3_000_000 ==> n as int + 1 <= 3_000_000)
                by (nonlinear_arith)
                requires
                    0 < spacing as int,
            ;
        }
        n = n + 1;
    }
}

/// Builds the exact arrow centres for `count` arrows on the segment from
/// `a` to `b`: arrow `i` sits at fraction `(i + 1) / (count + 1)`.
pub fn arrow_centers(a: ScreenPos, b: ScreenPos, count: usize) -> (v: Vec<ArrowCenter>)
    requires
        a.bounded(),
        b.bounded(),
        count <= 3_000_000,
    ensures
        v@.len() == count,
        forall|i: int| 0 <= i < count ==> v@[i] == arrow_center_at(a, b, count as int, i),
{
    let mut v: Vec<ArrowCenter> = Vec::new();
    let den: i64 = count as i64 + 1;
    proof {
        assert(a.x * (count as int + 1) <= 1_000_000 * 3_000_001 && a.x * (count as int + 1)
            >= -1_000_000 * 3_000_001 && a.y * (count as int + 1) <= 1_000_000 * 3_000_001 && a.y
            * (count as int + 1) >= -1_000_000 * 3_000_001) by (nonlinear_arith)
            requires
                -1_000_000 <= a.x <= 1_000_000 && -1_000_000 <= a.y <= 1_000_000 && 0 < count as int
                    + 1 <= 3_000_001,
        ;
    }
    let base_x: i64 = a.x * den;
    let base_y: i64 = a.y * den;
    let mut i: usize = 0;
    while i < count
        invariant
            a.bounded(),
            b.bounded(),
            count <= 3_000_000,
            den == count as int + 1,
            base_x == a.x * (count as int + 1),
            base_y == a.y * (count as int + 1),
            -3_100_000_000_000 <= base_x <= 3_100_000_000_000,
            -3_100_000_000_000 <= base_y <= 3_100_000_000_000,
            i <= count,
            v@.len() == i,
            forall|k: int| 0 <= k < i ==> v@[k] == arrow_center_at(a, b, count as int, k),
        decreases count - i,
    {
        proof {
            assert((i as int + 1) * (b.x - a.x) <= 3_000_001 * 2_000_000 && (i as int + 1) * (b.x
                - a.x) >= 3_000_001 * -2_000_000 && (i as int + 1) * (b.y - a.y) <= 3_000_001
                * 2_000_000 && (i as int + 1) * (b.y - a.y) >= 3_000_001 * -2_000_000)
                by (nonlinear_arith)
                requires
                    0 < i as int + 1 <= 3_000_001 && -2_000_000 <= b.x - a.x <= 2_000_000
                        && -2_000_000 <= b.y - a.y <= 2_000_000,
            ;
        }
        let step_x: i64 = (i as i64 + 1) * (b.x - a.x);
        let step_y: i64 = (i as i64 + 1) * (b.y - a.y);
        v.push(
            ArrowCenter { num_x: base_x + step_x, num_y: base_y + step_y, den },
        );
        i = i + 1;
    }
    v
}

/// The visible part of one path segment: the clipped endpoints and the
/// flow-arrow centres placed along them.
#[derive(Debug, Clone)]
pub struct VisiblePart {
    pub start: ScreenPos,
    pub end: ScreenPos,
    pub arrows: Vec<ArrowCenter>,
}

/// What a correct decoration of the segment from `a` to `b` looks like:
/// nothing when both endpoints sit beyond one viewport edge, the whole
/// segment when it is fully visible, and otherwise a visible sub-segment
/// inside both the viewport and the segment's bounding box, carrying
/// `floor(length / spacing)` arrow centres at the even fractions.
pub open spec fn decorates(
    a: ScreenPos,
    b: ScreenPos,
    r: ScreenRect,
    spacing: int,
    res: Option<VisiblePart>,
) -> bool {
    &&& (same_side(a, b, r) ==> res is None)
    &&& (r.contains(a) && r.contains(b) ==> (res matches Some(v) && v.start == a && v.end == b))
    &&& (res matches Some(v) ==> {
        &&& r.contains(v.start) && r.contains(v.end)
        &&& in_segment_box(v.start, a, b) && in_segment_box(v.end, a, b)
        &&& is_arrow_count(v.arrows@.len() as int, v.start, v.end, spacing)
        &&& forall|i: int|
            0 <= i < v.arrows@.len() ==> v.arrows@[i] == arrow_center_at(
                v.start,
                v.end,
                v.arrows@.len() as int,
                i,
            )
    })
}

/// Clips the segment from `a` to `b` against the viewport and places flow
/// arrows along the visible sub-segment at the given spacing. `None` when
/// the segment misses the viewport entirely; the full unclipped line is
/// still the caller's to draw either way.
pub fn segment_decoration(a: ScreenPos, b: ScreenPos, r: ScreenRect, spacing: i64) -> (res: Option<
    VisiblePart,
>)
    requires
        r.wf(),
        r.bounded(),
        a.bounded(),
        b.bounded(),
        0 < spacing <= COORD_BOUND,
    ensures
        decorates(a, b, r, spacing as int, res),
{
    match clip_segment(a, b, r) {
        Some((p, q)) => {
            let count: usize = arrow_count(p, q, spacing);
            proof {
                assert(count as int * spacing as int * (count as int * spacing as int) <= dist2(
                    p,
                    q,
                ));
                assert(dist2(p, q) <= 8_000_000_000_000) by (nonlinear_arith)
                    requires
                        -2_000_000 <= q.x - p.x <= 2_000_000 && -2_000_000 <= q.y - p.y
                            <= 2_000_000,
                ;
                assert(count as int <= 3_000_000) by (nonlinear_arith)
                    requires
                        count as int * spacing as int * (count as int * spacing as int) <= dist2(
                            p,
                            q,
                        ) && dist2(p, q) <= 8_000_000_000_000 && 0 <= count as int && 0
                            < spacing as int,
                ;
            }
            let arrows = arrow_centers(p, q, count);
            Some(VisiblePart { start: p, end: q, arrows })
        },
        None => None,
    }
}

/// One segment of the rendered path: the full line the painter always
/// draws, and the decorated visible part when the segment touches the
/// viewport.
#[derive(Debug, Clone)]
pub struct SegmentPlan {
    pub from: ScreenPos,
    pub to: ScreenPos,
    pub visible: Option<VisiblePart>,
}

/// Plans the whole path's segments for one redraw: one plan per pair of
/// consecutive projected node positions, each holding the unclipped line
/// and its correctly decorated visible part.
pub fn plan_path(positions: &Vec<ScreenPos>, viewport: ScreenRect, spacing: i64) -> (plans: Vec<
    SegmentPlan,
>)
    requires
        viewport.wf(),
        viewport.bounded(),
        forall|i: int| 0 <= i < positions@.len() ==> (#[trigger] positions@[i]).bounded(),
        0 < spacing <= COORD_BOUND,
    ensures
        positions@.len() == 0 ==> plans@.len() == 0,
        positions@.len() > 0 ==> plans@.len() == positions@.len() - 1,
        forall|i: int|
            0 <= i < plans@.len() ==> {
                &&& (#[trigger] plans@[i]).from == positions@[i]
                &&& plans@[i].to == positions@[i + 1]
                &&& decorates(
                    positions@[i],
                    positions@[i + 1],
                    viewport,
                    spacing as int,
                    plans@[i].visible,
                )
            },
{
    let mut plans: Vec<SegmentPlan> = Vec::new();
    if positions.len() == 0 {
        return plans;
    }
    let mut i: usize = 0;
    while i < positions.len() - 1
        invariant
            viewport.wf(),
            viewport.bounded(),
            forall|k: int| 0 <= k < positions@.len() ==> (#[trigger] positions@[k]).bounded(),
            0 < spacing <= COORD_BOUND,
            positions@.len() > 0,
            i <= positions@.len() - 1,
            plans@.len() == i,
            forall|k: int|
                0 <= k < i ==> {
                    &&& (#[trigger] plans@[k]).from == positions@[k]
                    &&& plans@[k].to == positions@[k + 1]
                    &&& decorates(
                        positions@[k],
                        positions@[k + 1],
                        viewport,
                        spacing as int,
                        plans@[k].visible,
                    )
                },
        decreases positions@.len() - i,
    {
        let from = positions[i];
        let to = positions[i + 1];
        let visible = segment_decoration(from, to, viewport, spacing);
        plans.push(SegmentPlan { from, to, visible });
        i = i + 1;
    }
    plans
}

} // verus!
