//! The viewport partitioner: from the window's pixel dimensions it computes
//! the two side-by-side viewports, left and right. The left viewport spans
//! columns `[0, width / 2)` and clears the background at render priority 0;
//! the right viewport spans `[width / 2, width)` and composites over it at
//! priority 1. Both span the full height.

use vstd::prelude::*;

use crate::geometry::Point;
use crate::geometry::Viewport;
use crate::geometry::WindowDimensions;
use crate::geometry::vp_contains;

verus! {

/// The left half of the window: origin `(0, 0)`, width `floor(width / 2)`,
/// full height, priority 0, clearing the background.
pub open spec fn left_viewport_of(w: WindowDimensions) -> Viewport {
    Viewport {
        origin_x: 0,
        origin_y: 0,
        width: (w.width / 2) as u32,
        height: w.height,
        priority: 0,
        clears_background: true,
    }
}

/// The right half of the window: origin `(width / 2, 0)`, the remaining
/// `width - floor(width / 2)` columns, full height, priority 1, compositing
/// over the already-cleared buffer.
pub open spec fn right_viewport_of(w: WindowDimensions) -> Viewport {
    Viewport {
        origin_x: (w.width / 2) as u32,
        origin_y: 0,
        width: (w.width - w.width / 2) as u32,
        height: w.height,
        priority: 1,
        clears_background: false,
    }
}

/// Computes the pair of viewports for a window. Called once at startup and
/// once per resize event. Degenerate window sizes yield zero-area viewports,
/// which contain no point, so the router treats them as empty.
pub fn recompute(window: WindowDimensions) -> (r: (Viewport, Viewport))
    ensures
        r.0 == left_viewport_of(window),
        r.1 == right_viewport_of(window),
{
    let half: u32 = window.width / 2;
    let left = Viewport {
        origin_x: 0,
        origin_y: 0,
        width: half,
        height: window.height,
        priority: 0,
        clears_background: true,
    };
    let right = Viewport {
        origin_x: half,
        origin_y: 0,
        width: window.width - half,
        height: window.height,
        priority: 1,
        clears_background: false,
    };
    (left, right)
}

/// The two viewports partition the window's columns: their widths sum to the
/// window width, both span the full height, the left one starts at the
/// window origin and the right one at column `floor(width / 2)`.
pub proof fn lemma_partition_dimensions(w: WindowDimensions)
    ensures
        left_viewport_of(w).width + right_viewport_of(w).width == w.width,
        left_viewport_of(w).height == w.height,
        right_viewport_of(w).height == w.height,
        left_viewport_of(w).origin_x == 0,
        left_viewport_of(w).origin_y == 0,
        right_viewport_of(w).origin_x == w.width / 2,
        right_viewport_of(w).origin_y == 0,
{
}

/// The partition is exact: no point lies in both halves, and a point lies in
/// one of them exactly when it lies inside the window rectangle.
pub proof fn lemma_partition_exact(w: WindowDimensions, p: Point)
    ensures
        !(vp_contains(left_viewport_of(w), p) && vp_contains(right_viewport_of(w), p)),
        (vp_contains(left_viewport_of(w), p) || vp_contains(right_viewport_of(w), p)) <==> (0
            <= p.x < w.width && 0 <= p.y < w.height),
{
}

/// Recomputing is deterministic: equal window dimensions yield equal
/// viewport pairs, so two calls of `recompute` on the same window agree
/// bit for bit.
pub proof fn lemma_recompute_deterministic(w1: WindowDimensions, w2: WindowDimensions)
    requires
        w1 == w2,
    ensures
        left_viewport_of(w1) == left_viewport_of(w2),
        right_viewport_of(w1) == right_viewport_of(w2),
{
}

} // verus!
