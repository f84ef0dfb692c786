//! The 2D camera: a state source for whatever node derives a projection.
//!
//! The camera owns a position (in pixels), an integer viewport size, and a
//! flag saying whether it is the camera the current frame renders with. It
//! computes no projection itself: projection derivation is left to the node
//! that consumes the camera, so that different consumers can pick different
//! conventions.

use vstd::prelude::*;

verus! {

/// A 2D point with integer pixel coordinates.
#[derive(Clone, Copy, PartialEq, Eq, Structural, Debug)]
pub struct Vec2i {
    pub x: i32,
    pub y: i32,
}

/// An integer viewport size in pixels.
#[derive(Clone, Copy, PartialEq, Eq, Structural, Debug)]
pub struct Extent2u {
    pub width: u32,
    pub height: u32,
}

/// The 2D camera node state.
pub struct Camera2d {
    /// Camera position in pixels.
    pub position: Vec2i,
    /// Viewport size; the source of the aspect ratio.
    pub view_size: Extent2u,
    /// Whether this camera is the one the current frame renders with.
    /// Only one camera should be current at a time; that is the caller's
    /// invariant, not enforced here.
    pub current: bool,
}

impl Camera2d {
    /// Makes a camera that starts out current.
    pub fn new(position: Vec2i, view_size: Extent2u) -> (cam: Self)
        ensures
            cam.position == position,
            cam.view_size == view_size,
            cam.current,
    {
        Camera2d { position, view_size, current: true }
    }

    /// Viewport resize notification: the view size tracks the new extent
    /// exactly; position and currency are untouched.
    pub fn when_view_size_changes(&mut self, new_width: u32, new_height: u32)
        ensures
            final(self).view_size == (Extent2u { width: new_width, height: new_height }),
            final(self).position == old(self).position,
            final(self).current == old(self).current,
    {
        self.view_size.width = new_width;
        self.view_size.height = new_height;
    }
}

} // verus!
