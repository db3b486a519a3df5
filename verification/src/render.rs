//! Per-node rendering decisions: position-dependent node colors and hover
//! detection against projected screen positions.

use vstd::prelude::*;
use crate::geometry::{ScreenPos, COORD_BOUND};

verus! {

/// The color role a node takes from its place in the path: the first node
/// marks the trace's origin, the last its destination, and every other
/// node is an intermediate hop.
#[derive(Debug, Clone, Copy, PartialEq, Eq, Structural)]
pub enum ColorClass {
    Start,
    End,
    Mid,
}

/// The color role of the node at `index` in a path of `count` nodes. The
/// start rule is checked first, so a single-node path gets the start
/// color even though its node is also the last.
pub open spec fn spec_color_class(index: int, count: int) -> ColorClass {
    if index == 0 {
        ColorClass::Start
    } else if index == count - 1 {
        ColorClass::End
    } else {
        ColorClass::Mid
    }
}

/// Picks the color role for the node at `index` of a `count`-node path.
pub fn node_color_class(index: usize, count: usize) -> (c: ColorClass)
    requires
        index < count,
    ensures
        c == spec_color_class(index as int, count as int),
{
    if index == 0 {
        ColorClass::Start
    } else if index == count - 1 {
        ColorClass::End
    } else {
        ColorClass::Mid
    }
}

/// Whether the pointer at `p` is strictly within `radius` pixels of the
/// projected node position `q`, phrased over squared distances.
pub open spec fn within_radius(p: ScreenPos, q: ScreenPos, radius: int) -> bool {
    (q.x - p.x) * (q.x - p.x) + (q.y - p.y) * (q.y - p.y) < radius * radius
}

/// Finds the hovered node: the first node, in index order, whose projected
/// position lies strictly within `radius` pixels of the pointer. `None`
/// when no node is close enough.
pub fn hover_find(positions: &Vec<ScreenPos>, pointer: ScreenPos, radius: i64) -> (r: Option<
    usize,
>)
    requires
        pointer.bounded(),
        forall|i: int| 0 <= i < positions@.len() ==> (#[trigger] positions@[i]).bounded(),
        0 < radius <= COORD_BOUND,
    ensures
        r matches Some(i) ==> {
            &&& i < positions@.len()
            &&& within_radius(pointer, positions@[i as int], radius as int)
            &&& forall|j: int|
                0 <= j < i ==> !within_radius(pointer, positions@[j], radius as int)
        },
        r is None ==> forall|j: int|
            0 <= j < positions@.len() ==> !within_radius(pointer, positions@[j], radius as int),
{
    proof {
        assert(0 <= (radius as int) * (radius as int) <= 1_000_000_000_000) by (nonlinear_arith)
            requires
                0 < radius as int <= 1_000_000,
        ;
    }
    let r2: i64 = radius * radius;
    let mut i: usize = 0;
    while i < positions.len()
        invariant
            pointer.bounded(),
            forall|k: int| 0 <= k < positions@.len() ==> (#[trigger] positions@[k]).bounded(),
            0 < radius <= 1_000_000,
            r2 == (radius as int) * (radius as int),
            i <= positions@.len(),
            forall|j: int| 0 <= j < i ==> !within_radius(pointer, positions@[j], radius as int),
        decreases positions@.len() - i,
    {
        let dx: i64 = positions[i].x - pointer.x;
        let dy: i64 = positions[i].y - pointer.y;
        proof {
            assert(0 <= dx * dx <= 4_000_000_000_000 && 0 <= dy * dy <= 4_000_000_000_000)
                by (nonlinear_arith)
                requires
                    -2_000_000 <= dx <= 2_000_000 && -2_000_000 <= dy <= 2_000_000,
            ;
        }
        let d2: i64 = dx * dx + dy * dy;
        if d2 < r2 {
            return Some(i);
        }
        i = i + 1;
    }
    None
}

} // verus!
