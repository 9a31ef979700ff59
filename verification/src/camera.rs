//! The camera a light looks through when it renders its shadow map.

use cgmath::Vector3;
use vstd::prelude::*;

verus! {

/// An orthographic camera: where it stands, what it looks at, which way is
/// up, and the extent of the box it sees. Every scalar is the 32-bit word of
/// a float.
#[derive(Clone, Copy, Debug, PartialEq)]
pub struct Camera {
    pub position: Vector3<u32>,
    pub target: Vector3<u32>,
    pub up: Vector3<u32>,
    pub width: u32,
    pub height: u32,
    pub depth: u32,
}

impl Camera {
    /// The orthographic camera at `position` that looks at `target` and
    /// sees a box of the given width, height and depth.
    pub fn new_orthographic(
        position: Vector3<u32>,
        target: Vector3<u32>,
        up: Vector3<u32>,
        width: u32,
        height: u32,
        depth: u32,
    ) -> (r: Camera)
        ensures
            r == (Camera { position, target, up, width, height, depth }),
    {
        Camera { position, target, up, width, height, depth }
    }
}

} // verus!
