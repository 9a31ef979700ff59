//! Three arrows along the main axes: the x-axis red, the y-axis green, the
//! z-axis blue.

use crate::error::Error;
use crate::math::vec4;
use crate::mesh::{identity_spec, CPUMesh, Mesh, MeshInfo, ONE, ZERO};
use crate::state::{RenderStates, Viewport};
use cgmath::{Matrix4, Vector4};
use vstd::prelude::*;

verus! {

/// The colour of the arrow of axis 0, 1 or 2, as the words of red, green,
/// blue and alpha.
pub open spec fn axis_color(axis: int) -> Vector4<u32> {
    if axis == 0 {
        Vector4 { x: ONE, y: ZERO, z: ZERO, w: ONE }
    } else if axis == 1 {
        Vector4 { x: ZERO, y: ONE, z: ZERO, w: ONE }
    } else {
        Vector4 { x: ZERO, y: ZERO, z: ONE, w: ONE }
    }
}

/// The three arrows.
#[derive(Clone, Copy, Debug, PartialEq)]
pub struct Axes {
    x: Mesh,
    y: Mesh,
    z: Mesh,
}

impl Axes {
    /// The arrow of axis 0, 1 or 2.
    pub closed spec fn arrow(&self, axis: int) -> Mesh {
        if axis == 0 {
            self.x
        } else if axis == 1 {
            self.y
        } else {
            self.z
        }
    }

    /// The axes made of one arrow mesh, which points along the x-axis:
    /// the arrow itself, the arrow turned onto the y-axis and the arrow
    /// turned onto the z-axis by the given rotations.
    pub fn new(arrow: &CPUMesh, onto_y: Matrix4<u32>, onto_z: Matrix4<u32>) -> (r: Axes)
        ensures
            r.arrow(0) == (Mesh {
                info: MeshInfo::of_spec(arrow),
                transformation: identity_spec(),
            }),
            r.arrow(1) == (Mesh { info: MeshInfo::of_spec(arrow), transformation: onto_y }),
            r.arrow(2) == (Mesh { info: MeshInfo::of_spec(arrow), transformation: onto_z }),
    {
        let x = Mesh::new(arrow);
        let mut y = Mesh::new(arrow);
        let mut z = Mesh::new(arrow);
        y.transformation = onto_y;
        z.transformation = onto_z;
        Axes { x, y, z }
    }

    /// What holds of the result of rendering the axes: on success all
    /// three arrows were drawn, each in its colour and with the default
    /// render state; a failure is that of the first arrow that failed.
    pub open spec fn render_outcome<F: Fn(Mesh, Vector4<u32>, RenderStates, Viewport) -> Result<
        (),
        Error,
    >>(&self, viewport: Viewport, draw: F, r: Result<(), Error>) -> bool {
        &&& r is Ok ==> forall|axis: int|
            0 <= axis < 3 ==> call_ensures(
                draw,
                (self.arrow(axis), axis_color(axis), RenderStates::default_spec(), viewport),
                Ok::<(), Error>(()),
            )
        &&& r is Err ==> exists|axis: int|
            {
                &&& 0 <= axis < 3
                &&& #[trigger] call_ensures(
                    draw,
                    (self.arrow(axis), axis_color(axis), RenderStates::default_spec(), viewport),
                    r,
                )
                &&& forall|before: int|
                    0 <= before < axis ==> call_ensures(
                        draw,
                        (
                            self.arrow(before),
                            axis_color(before),
                            RenderStates::default_spec(),
                            viewport,
                        ),
                        Ok::<(), Error>(()),
                    )
            }
    }

    /// Renders the axes: hands `draw` the x-arrow in red, the y-arrow in
    /// green and the z-arrow in blue, in this order, and stops at the first
    /// failure.
    pub fn render<F>(&self, viewport: Viewport, draw: F) -> (r: Result<(), Error>) where
        F: Fn(Mesh, Vector4<u32>, RenderStates, Viewport) -> Result<(), Error>,

        requires
            forall|axis: int|
                0 <= axis < 3 ==> call_requires(
                    draw,
                    (self.arrow(axis), axis_color(axis), RenderStates::default_spec(), viewport),
                ),
        ensures
            self.render_outcome(viewport, draw, r),
    {
        assert(self.arrow(0) == self.x && self.arrow(1) == self.y && self.arrow(2) == self.z);
        let first = draw(self.x, vec4(ONE, ZERO, ZERO, ONE), RenderStates::default(), viewport);
        match first {
            Ok(u) => {
                assert(first == Ok::<(), Error>(()));
            },
            Err(e) => {
                assert(call_ensures(
                    draw,
                    (self.arrow(0), axis_color(0), RenderStates::default_spec(), viewport),
                    first,
                ));
                return first;
            },
        }
        let second = draw(self.y, vec4(ZERO, ONE, ZERO, ONE), RenderStates::default(), viewport);
        match second {
            Ok(u) => {
                assert(second == Ok::<(), Error>(()));
            },
            Err(e) => {
                assert(call_ensures(
                    draw,
                    (self.arrow(1), axis_color(1), RenderStates::default_spec(), viewport),
                    second,
                ));
                return second;
            },
        }
        let third = draw(self.z, vec4(ZERO, ZERO, ONE, ONE), RenderStates::default(), viewport);
        match third {
            Ok(u) => {
                assert(third == Ok::<(), Error>(()));
            },
            Err(e) => {
                assert(call_ensures(
                    draw,
                    (self.arrow(2), axis_color(2), RenderStates::default_spec(), viewport),
                    third,
                ));
                return third;
            },
        }
        Ok(())
    }
}

} // verus!
