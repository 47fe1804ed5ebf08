//! The frame driver: an explicit ordered pipeline over the partitioner, the
//! router and the binder. Each frame first applies a pending resize, if any,
//! so that the router always consults the viewports of the current window,
//! then routes the frame's pointer sample and rebinds the overlay label.
//! Ordering is thereby a visible contract, not an artifact of host wiring.

use vstd::prelude::*;

use crate::binder::BindPolicy;
use crate::binder::OverlayLabel;
use crate::binder::bind_step;
use crate::binder::update;
use crate::geometry::Point;
use crate::geometry::PointerSample;
use crate::geometry::Viewport;
use crate::geometry::WindowDimensions;
use crate::partition::left_viewport_of;
use crate::partition::recompute;
use crate::partition::right_viewport_of;
use crate::router::partition_viewports;
use crate::router::route;
use crate::router::route_spec;

verus! {

/// The routing result for a window's partition, with the viewport index as
/// the executable code carries it: 0 for the left viewport, 1 for the right.
pub open spec fn routed_hit(pointer: Option<PointerSample>, w: WindowDimensions) -> Option<
    (usize, Point),
> {
    match route_spec(pointer, partition_viewports(w)) {
        None => None,
        Some(hit) => Some((hit.0 as usize, hit.1)),
    }
}

/// The state a host carries between frames: the window dimensions it last
/// saw, the two viewports computed from them, and the overlay label.
pub struct SplitScreen {
    pub window: WindowDimensions,
    pub left: Viewport,
    pub right: Viewport,
    pub label: OverlayLabel,
}

impl SplitScreen {
    /// The two viewports are exactly the partition of the stored window.
    pub open spec fn well_formed(self) -> bool {
        &&& self.left == left_viewport_of(self.window)
        &&& self.right == right_viewport_of(self.window)
    }

    /// Startup: partition the initial window; the label starts unbound at
    /// offset `(0, 0)`.
    pub fn new(window: WindowDimensions) -> (s: Self)
        ensures
            s.well_formed(),
            s.window == window,
            s.label == (OverlayLabel {
                owning_viewport: None,
                local_offset: Point { x: 0, y: 0 },
            }),
    {
        let (left, right) = recompute(window);
        SplitScreen {
            window,
            left,
            right,
            label: OverlayLabel { owning_viewport: None, local_offset: Point { x: 0, y: 0 } },
        }
    }

    /// One frame: apply the resize event, if one arrived, then route the
    /// frame's pointer sample against the freshly current viewports, then
    /// rebind the label under the given policy. The label afterwards is one
    /// binder step from the old one, taken on the routing result for the
    /// new window dimensions.
    pub fn on_frame(
        &mut self,
        resize: Option<WindowDimensions>,
        pointer: Option<PointerSample>,
        policy: BindPolicy,
    )
        requires
            old(self).well_formed(),
        ensures
            final(self).well_formed(),
            final(self).window == (match resize {
                Some(w) => w,
                None => old(self).window,
            }),
            final(self).label == bind_step(
                routed_hit(pointer, final(self).window),
                old(self).label,
                policy,
            ),
    {
        if let Some(w) = resize {
            let (left, right) = recompute(w);
            self.window = w;
            self.left = left;
            self.right = right;
        }
        let mut vps: Vec<Viewport> = Vec::new();
        vps.push(self.left);
        vps.push(self.right);
        proof {
            assert(vps@ =~= partition_viewports(self.window));
        }
        let hit = route(pointer, &vps);
        update(hit, &mut self.label, policy);
    }
}

} // verus!
