//! Split-viewport input routing.
//!
//! The library divides a window into two side-by-side viewports, routes a
//! pointer position to the viewport that contains it, and keeps an overlay
//! label bound to the viewport under the pointer. Everything is a pure
//! function of plain pixel values, so a host application can feed it window
//! sizes and cursor samples from whatever windowing layer it uses.

pub mod binder;
pub mod frame;
pub mod geometry;
pub mod partition;
pub mod router;
