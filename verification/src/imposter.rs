//! Flat stand-ins for a costly object: a quad per instance that shows the
//! object as it was rendered from the nearest of eight directions.

use crate::error::Error;
use crate::mesh::{ONE, ZERO};
use crate::state::{BlendParameters, CullType, DepthTestType, RenderStates, WriteMask};
use crate::texture::{Format, Texture2DArray};
use vstd::prelude::*;

verus! {

/// The number of directions from which the object is rendered.
pub const NO_VIEW_ANGLES: usize = 8;

/// The number of vertices of the quad: two triangles.
pub const QUAD_VERTICES: usize = 6;

/// The uv coordinates of the six vertices of the quad.
pub open spec fn quad_uvs() -> Seq<u32> {
    seq![ZERO, ZERO, ONE, ZERO, ONE, ONE, ONE, ONE, ZERO, ONE, ZERO, ZERO]
}

/// The positions of the six vertices of the quad that spans the given
/// range in x and in y at depth zero.
pub open spec fn quad_positions(xmin: u32, xmax: u32, ymin: u32, ymax: u32) -> Seq<u32> {
    seq![
        xmin, ymin, ZERO,
        xmax, ymin, ZERO,
        xmax, ymax, ZERO,
        xmax, ymax, ZERO,
        xmin, ymax, ZERO,
        xmin, ymin, ZERO,
    ]
}

/// The texture array of the views of an object at the given size.
pub open spec fn view_textures(width: usize, height: usize) -> Texture2DArray {
    Texture2DArray { width, height, depth: NO_VIEW_ANGLES, format: Format::RGBA }
}

/// The render state of the imposters: alpha blended, back faces culled,
/// fragments at equal depth pass.
pub open spec fn imposter_states() -> RenderStates {
    RenderStates {
        cull: CullType::Back,
        depth_test: DepthTestType::LessOrEqual,
        blend: Some(BlendParameters::transparency_spec()),
        write_mask: WriteMask::color_and_depth_spec(),
    }
}

/// The one instanced draw that renders the imposters.
#[derive(Clone, Copy, Debug, PartialEq, Eq, Structural)]
pub struct ImposterDraw {
    pub render_states: RenderStates,
    /// The number of views in the texture array.
    pub no_views: usize,
    /// The vertices of one quad.
    pub vertex_count: usize,
    pub instance_count: usize,
    /// After how many instances the centers and rotations move on.
    pub instance_divisor: u32,
}

/// All that can be observed of the imposters.
pub struct ImposterView {
    /// The centers of the instances, three words each.
    pub centers: Seq<u32>,
    /// The rotations of the instances about the y-axis, one word each.
    pub rotations: Seq<u32>,
    /// The positions of the vertices of the quad.
    pub positions: Seq<u32>,
    /// The uv coordinates of the vertices of the quad.
    pub uvs: Seq<u32>,
    pub instance_count: nat,
    pub texture: Texture2DArray,
}

/// The imposters of one object: the quad, the views of the object and the
/// places of the instances.
pub struct Imposter {
    center_buffer: Vec<u32>,
    rotation_buffer: Vec<u32>,
    positions_buffer: Vec<u32>,
    uvs_buffer: Vec<u32>,
    instance_count: usize,
    texture: Texture2DArray,
}

impl View for Imposter {
    type V = ImposterView;

    closed spec fn view(&self) -> ImposterView {
        ImposterView {
            centers: self.center_buffer@,
            rotations: self.rotation_buffer@,
            positions: self.positions_buffer@,
            uvs: self.uvs_buffer@,
            instance_count: self.instance_count as nat,
            texture: self.texture,
        }
    }
}

fn copied(words: &[u32]) -> (r: Vec<u32>)
    ensures
        r@ == words@,
{
    let mut r: Vec<u32> = Vec::new();
    let mut i: usize = 0;
    while i < words.len()
        invariant
            i <= words@.len(),
            r@ == words@.take(i as int),
        decreases words@.len() - i,
    {
        r.push(words[i]);
        assert(r@ =~= words@.take(i + 1));
        i += 1;
    }
    assert(words@.take(i as int) =~= words@);
    r
}

impl Imposter {
    /// The centers come in full runs of three, one run for each instance.
    pub open spec fn wf(&self) -> bool {
        self@.centers.len() == 3 * self@.instance_count
    }

    /// Imposters without an instance and without a view of the object.
    pub fn new() -> (r: Imposter)
        ensures
            r.wf(),
            r@.centers.len() == 0,
            r@.rotations.len() == 0,
            r@.positions.len() == 0,
            r@.uvs == quad_uvs(),
            r@.instance_count == 0,
            r@.texture == view_textures(1, 1),
    {
        let uvs: [u32; 12] = [ZERO, ZERO, ONE, ZERO, ONE, ONE, ONE, ONE, ZERO, ONE, ZERO, ZERO];
        assert(uvs@ =~= quad_uvs());
        Imposter {
            center_buffer: Vec::new(),
            rotation_buffer: Vec::new(),
            positions_buffer: Vec::new(),
            uvs_buffer: copied(uvs.as_slice()),
            instance_count: 0,
            texture: Texture2DArray {
                width: 1,
                height: 1,
                depth: NO_VIEW_ANGLES,
                format: Format::RGBA,
            },
        }
    }

    /// What holds of the result of rendering the views: on success every
    /// view was rendered into its layer; a failure is that of the first
    /// view that failed.
    pub open spec fn views_outcome<F: Fn(usize) -> Result<(), Error>>(
        render: F,
        r: Result<(), Error>,
    ) -> bool {
        &&& r is Ok ==> forall|view: usize|
            view < NO_VIEW_ANGLES ==> call_ensures(render, (view,), Ok::<(), Error>(()))
        &&& r is Err ==> exists|view: usize|
            {
                &&& view < NO_VIEW_ANGLES
                &&& #[trigger] call_ensures(render, (view,), r)
                &&& forall|before: usize|
                    before < view ==> call_ensures(render, (before,), Ok::<(), Error>(()))
            }
    }

    /// Takes a new picture of the object: gives the texture array the
    /// given size, has `render` render each of the eight views into the
    /// layer of its number, and lays the quad out over the given range.
    /// The first view that fails ends the call: the texture then has its
    /// new size and the quad is as it was.
    pub fn update_texture<F>(
        &mut self,
        render: F,
        xmin: u32,
        xmax: u32,
        ymin: u32,
        ymax: u32,
        texture_width: usize,
        texture_height: usize,
    ) -> (r: Result<(), Error>) where F: Fn(usize) -> Result<(), Error>
        requires
            forall|view: usize| view < NO_VIEW_ANGLES ==> call_requires(render, (view,)),
        ensures
            Self::views_outcome(render, r),
            final(self)@ == (ImposterView {
                texture: view_textures(texture_width, texture_height),
                positions: if r is Ok {
                    quad_positions(xmin, xmax, ymin, ymax)
                } else {
                    old(self)@.positions
                },
                ..old(self)@
            }),
    {
        self.texture = Texture2DArray {
            width: texture_width,
            height: texture_height,
            depth: NO_VIEW_ANGLES,
            format: Format::RGBA,
        };
        let mut i: usize = 0;
        while i < NO_VIEW_ANGLES
            invariant
                i <= NO_VIEW_ANGLES,
                forall|view: usize| view < NO_VIEW_ANGLES ==> call_requires(render, (view,)),
                forall|before: usize|
                    before < i ==> call_ensures(render, (before,), Ok::<(), Error>(())),
                self@ == (ImposterView {
                    texture: view_textures(texture_width, texture_height),
                    ..old(self)@
                }),
            decreases NO_VIEW_ANGLES - i,
        {
            let step = render(i);
            match step {
                Ok(u) => {
                    assert(step == Ok::<(), Error>(()));
                },
                Err(e) => {
                    return step;
                },
            }
            i += 1;
        }
        let quad: [u32; 18] = [
            xmin, ymin, ZERO,
            xmax, ymin, ZERO,
            xmax, ymax, ZERO,
            xmax, ymax, ZERO,
            xmin, ymax, ZERO,
            xmin, ymin, ZERO,
        ];
        assert(quad@ =~= quad_positions(xmin, xmax, ymin, ymax));
        self.positions_buffer = copied(quad.as_slice());
        Ok(())
    }

    /// Places the instances: `positions` holds three scalars for each, its
    /// center, and `angles_in_radians` its rotations. Positions that do not
    /// come in full runs of three are refused, and nothing changes.
    pub fn update_positions(&mut self, positions: &[u32], angles_in_radians: &[u32]) -> (r: Result<
        (),
        Error,
    >)
        ensures
            positions@.len() % 3 == 0 ==> {
                &&& r is Ok
                &&& final(self).wf()
                &&& final(self)@ == (ImposterView {
                    centers: positions@,
                    rotations: angles_in_radians@,
                    instance_count: positions@.len() / 3,
                    ..old(self)@
                })
            },
            positions@.len() % 3 != 0 ==> {
                &&& r == Err::<(), Error>(Error::MalformedLength)
                &&& final(self)@ == old(self)@
            },
    {
        if positions.len() % 3 != 0 {
            return Err(Error::MalformedLength);
        }
        self.center_buffer = copied(positions);
        self.rotation_buffer = copied(angles_in_radians);
        self.instance_count = positions.len() / 3;
        Ok(())
    }

    /// The number of instances.
    pub fn instance_count(&self) -> (n: usize)
        ensures
            n == self@.instance_count,
    {
        self.instance_count
    }

    /// The texture array of the views.
    pub fn texture(&self) -> (r: Texture2DArray)
        ensures
            r == self@.texture,
    {
        self.texture
    }

    /// The centers of the instances.
    pub fn centers(&self) -> (r: &[u32])
        ensures
            r@ == self@.centers,
    {
        self.center_buffer.as_slice()
    }

    /// The rotations of the instances.
    pub fn rotations(&self) -> (r: &[u32])
        ensures
            r@ == self@.rotations,
    {
        self.rotation_buffer.as_slice()
    }

    /// The positions of the vertices of the quad.
    pub fn positions(&self) -> (r: &[u32])
        ensures
            r@ == self@.positions,
    {
        self.positions_buffer.as_slice()
    }

    /// The uv coordinates of the vertices of the quad.
    pub fn uvs(&self) -> (r: &[u32])
        ensures
            r@ == self@.uvs,
    {
        self.uvs_buffer.as_slice()
    }

    /// The draw of the imposters: the six vertices of the quad, once for
    /// each instance, with one center and one rotation an instance.
    pub fn render(&self) -> (r: ImposterDraw)
        ensures
            r == (ImposterDraw {
                render_states: imposter_states(),
                no_views: NO_VIEW_ANGLES,
                vertex_count: QUAD_VERTICES,
                instance_count: self@.instance_count as usize,
                instance_divisor: 1,
            }),
    {
        ImposterDraw {
            render_states: RenderStates {
                cull: CullType::Back,
                depth_test: DepthTestType::LessOrEqual,
                blend: Some(BlendParameters::transparency()),
                write_mask: WriteMask::color_and_depth(),
            },
            no_views: NO_VIEW_ANGLES,
            vertex_count: QUAD_VERTICES,
            instance_count: self.instance_count,
            instance_divisor: 1,
        }
    }
}

} // verus!
