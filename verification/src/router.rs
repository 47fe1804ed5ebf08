//! The pointer router: given the current pointer sample, if any, and the
//! ordered sequence of active viewports, it finds the first viewport that
//! contains the pointer and the pointer's position relative to that
//! viewport's origin. Iteration order is the caller's (ascending priority
//! under the partition), so overlapping viewports resolve deterministically
//! to the first match.

use vstd::prelude::*;

use crate::geometry::Point;
use crate::geometry::PointerSample;
use crate::geometry::Viewport;
use crate::geometry::WindowDimensions;
use crate::geometry::local_offset_of;
use crate::geometry::vp_contains;
use crate::partition::left_viewport_of;
use crate::partition::right_viewport_of;

verus! {

/// The first index at or after `i` whose viewport contains `p`, paired with
/// the pointer's offset from that viewport's origin; `None` when no such
/// viewport exists.
pub open spec fn first_match_from(vps: Seq<Viewport>, p: Point, i: int) -> Option<(int, Point)>
    decreases vps.len() - i,
{
    if i < 0 || i >= vps.len() {
        None
    } else if vp_contains(vps[i], p) {
        Some((i, local_offset_of(vps[i], p)))
    } else {
        first_match_from(vps, p, i + 1)
    }
}

/// What `route` returns: `None` without a pointer sample, else the first
/// viewport in order that contains the sample, with the sample's offset from
/// its origin.
pub open spec fn route_spec(pointer: Option<PointerSample>, vps: Seq<Viewport>) -> Option<
    (int, Point),
> {
    match pointer {
        None => None,
        Some(s) => first_match_from(vps, s.position, 0),
    }
}

/// Scans the viewports in order and returns the index of the first one that
/// contains the pointer, together with the pointer's position minus that
/// viewport's origin. Returns `None` when there is no pointer sample or no
/// viewport contains it. A pure function of its inputs.
pub fn route(pointer: Option<PointerSample>, viewports: &Vec<Viewport>) -> (r: Option<
    (usize, Point),
>)
    ensures
        r is Some <==> route_spec(pointer, viewports@) is Some,
        r matches Some(hit) ==> route_spec(pointer, viewports@) == Some((hit.0 as int, hit.1)),
{
    let sample = match pointer {
        None => { return None; },
        Some(s) => s,
    };
    let p = sample.position;
    let mut i: usize = 0;
    while i < viewports.len()
        invariant
            0 <= i <= viewports@.len(),
            pointer == Some(PointerSample { position: p }),
            first_match_from(viewports@, p, 0) == first_match_from(viewports@, p, i as int),
        decreases viewports@.len() - i,
    {
        let vp = viewports[i];
        if vp.contains(p) {
            let off = vp.local_offset(p);
            proof {
                assert(first_match_from(viewports@, p, i as int) == Some(
                    (i as int, local_offset_of(viewports@[i as int], p)),
                ));
            }
            return Some((i, off));
        }
        proof {
            assert(first_match_from(viewports@, p, i as int) == first_match_from(
                viewports@,
                p,
                i + 1,
            ));
        }
        i = i + 1;
    }
    proof {
        assert(first_match_from(viewports@, p, i as int) is None);
    }
    None
}

/// The ordered viewport sequence that the partition yields for a window:
/// left first, then right, matching ascending render priority.
pub open spec fn partition_viewports(w: WindowDimensions) -> Seq<Viewport> {
    seq![left_viewport_of(w), right_viewport_of(w)]
}

/// A pointer strictly inside the left viewport routes to it: index 0, with
/// the offset equal to the pointer position itself, since the left viewport
/// sits at the window origin.
pub proof fn lemma_route_left(w: WindowDimensions, s: PointerSample)
    requires
        vp_contains(left_viewport_of(w), s.position),
    ensures
        route_spec(Some(s), partition_viewports(w)) == Some((0int, s.position)),
{
    let vps = partition_viewports(w);
    assert(vps[0] == left_viewport_of(w));
    assert(first_match_from(vps, s.position, 0) == Some(
        (0int, local_offset_of(vps[0], s.position)),
    ));
    assert(local_offset_of(left_viewport_of(w), s.position) == s.position);
}

/// A pointer strictly inside the right viewport routes to it: index 1, with
/// the offset equal to the pointer position minus the right viewport's
/// origin `(width / 2, 0)`.
pub proof fn lemma_route_right(w: WindowDimensions, s: PointerSample)
    requires
        vp_contains(right_viewport_of(w), s.position),
    ensures
        route_spec(Some(s), partition_viewports(w)) == Some(
            (1int, Point { x: (s.position.x as int - (w.width / 2) as int) as i64, y: s.position.y }),
        ),
{
    let vps = partition_viewports(w);
    let p = s.position;
    crate::partition::lemma_partition_exact(w, p);
    assert(vps[0] == left_viewport_of(w));
    assert(vps[1] == right_viewport_of(w));
    assert(!vp_contains(vps[0], p));
    assert(first_match_from(vps, p, 1) == Some((1int, local_offset_of(vps[1], p))));
    assert(first_match_from(vps, p, 0) == first_match_from(vps, p, 1));
}

/// A pointer inside neither viewport, for example one with a negative
/// coordinate, routes nowhere.
pub proof fn lemma_route_miss(w: WindowDimensions, s: PointerSample)
    requires
        !vp_contains(left_viewport_of(w), s.position),
        !vp_contains(right_viewport_of(w), s.position),
    ensures
        route_spec(Some(s), partition_viewports(w)) is None,
{
    let vps = partition_viewports(w);
    let p = s.position;
    assert(vps[0] == left_viewport_of(w));
    assert(vps[1] == right_viewport_of(w));
    assert(first_match_from(vps, p, 2) is None);
    assert(first_match_from(vps, p, 1) is None);
    assert(first_match_from(vps, p, 0) is None);
}

} // verus!
