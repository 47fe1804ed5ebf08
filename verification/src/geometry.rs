//! Pixel-space values: window dimensions, points, pointer samples and
//! axis-aligned viewport rectangles, with the containment test that the
//! router builds on.

use vstd::prelude::*;

verus! {

/// Physical size of the window, in pixels.
#[derive(Clone, Copy, PartialEq, Eq, Debug)]
pub struct WindowDimensions {
    pub width: u32,
    pub height: u32,
}

/// A position in window space. Signed, so that positions outside the window
/// (for example a cursor reported left of or above the origin) are
/// representable.
#[derive(Clone, Copy, PartialEq, Eq, Debug)]
pub struct Point {
    pub x: i64,
    pub y: i64,
}

/// The cursor's position in window coordinates for the current frame.
#[derive(Clone, Copy, PartialEq, Eq, Debug)]
pub struct PointerSample {
    pub position: Point,
}

/// An axis-aligned rectangular sub-region of the window to which one logical
/// camera renders. `priority` is the render order; at most one viewport per
/// frame should have `clears_background` set.
#[derive(Clone, Copy, PartialEq, Eq, Debug)]
pub struct Viewport {
    pub origin_x: u32,
    pub origin_y: u32,
    pub width: u32,
    pub height: u32,
    pub priority: u32,
    pub clears_background: bool,
}

/// A point lies in a viewport when it falls in the half-open rectangle
/// `[origin, origin + size)` on both axes. A zero-area viewport therefore
/// contains no point at all.
pub open spec fn vp_contains(vp: Viewport, p: Point) -> bool {
    &&& vp.origin_x as int <= p.x as int
    &&& (p.x as int) < vp.origin_x as int + vp.width as int
    &&& vp.origin_y as int <= p.y as int
    &&& (p.y as int) < vp.origin_y as int + vp.height as int
}

/// The point's position relative to the viewport's origin. Meaningful for
/// points the viewport contains, where both coordinates fall in
/// `[0, size)` and the casts are exact.
pub open spec fn local_offset_of(vp: Viewport, p: Point) -> Point {
    Point {
        x: (p.x as int - vp.origin_x as int) as i64,
        y: (p.y as int - vp.origin_y as int) as i64,
    }
}

impl Viewport {
    /// Containment test, exactly the half-open rectangle of `vp_contains`.
    pub fn contains(&self, p: Point) -> (r: bool)
        ensures
            r == vp_contains(*self, p),
    {
        let ox = self.origin_x as i64;
        let oy = self.origin_y as i64;
        let w = self.width as i64;
        let h = self.height as i64;
        ox <= p.x && p.x < ox + w && oy <= p.y && p.y < oy + h
    }

    /// The offset of a contained point from this viewport's origin.
    pub fn local_offset(&self, p: Point) -> (r: Point)
        requires
            vp_contains(*self, p),
        ensures
            r == local_offset_of(*self, p),
            0 <= r.x < self.width,
            0 <= r.y < self.height,
    {
        Point { x: p.x - self.origin_x as i64, y: p.y - self.origin_y as i64 }
    }
}

} // verus!
