//! The overlay binder: it keeps a single movable label bound to the viewport
//! currently under the pointer, at the pointer's offset inside that
//! viewport. What happens when the pointer matches no viewport is an
//! explicit policy: either the label stays where it last was, or its
//! viewport association is cleared.

use vstd::prelude::*;

use crate::geometry::Point;

verus! {

/// What the binder does on a frame in which the router matched no viewport:
/// `Sticky` leaves the label bound at its last known position,
/// `HideOnExit` clears the label's viewport association.
#[derive(Clone, Copy, PartialEq, Eq, Debug)]
pub enum BindPolicy {
    Sticky,
    HideOnExit,
}

/// The overlay label's binding state: the viewport it is attached to, as an
/// index into the caller's viewport order, if any, and its offset from that
/// viewport's origin. A label starts unbound.
#[derive(Clone, Copy, PartialEq, Eq, Debug)]
pub struct OverlayLabel {
    pub owning_viewport: Option<usize>,
    pub local_offset: Point,
}

/// The label state after one binder step: a routed hit binds the label to
/// that viewport at that offset; a miss either keeps the label unchanged
/// (`Sticky`) or clears the association while leaving the offset in place
/// (`HideOnExit`).
pub open spec fn bind_step(
    route_result: Option<(usize, Point)>,
    label: OverlayLabel,
    policy: BindPolicy,
) -> OverlayLabel {
    match route_result {
        Some(hit) => OverlayLabel { owning_viewport: Some(hit.0), local_offset: hit.1 },
        None => if policy is Sticky {
            label
        } else {
            OverlayLabel { owning_viewport: None, local_offset: label.local_offset }
        },
    }
}

/// Under the hide-on-exit policy the label's association tracks the router
/// exactly: after a binder step the label owns the viewport the router
/// matched, and is unbound when the router matched none.
pub proof fn lemma_hide_on_exit_tracks_routing(
    route_result: Option<(usize, Point)>,
    label: OverlayLabel,
)
    ensures
        bind_step(route_result, label, BindPolicy::HideOnExit).owning_viewport == (
        match route_result {
            Some(hit) => Some(hit.0),
            None => None::<usize>,
        }),
{
}

/// Applies one routing result to the label, once per frame.
pub fn update(
    route_result: Option<(usize, Point)>,
    label: &mut OverlayLabel,
    policy: BindPolicy,
)
    ensures
        *final(label) == bind_step(route_result, *old(label), policy),
{
    match route_result {
        Some((vp, off)) => {
            label.owning_viewport = Some(vp);
            label.local_offset = off;
        },
        None => {
            match policy {
                BindPolicy::Sticky => {},
                BindPolicy::HideOnExit => {
                    label.owning_viewport = None;
                },
            }
        },
    }
}

} // verus!
