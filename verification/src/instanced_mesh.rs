//! One mesh drawn many times over, each instance with a transformation of
//! its own. Every shading variant resolves its program in the cache by its
//! fragment source and describes the one instanced draw that it needs.

use crate::error::Error;
use crate::mesh::{draw, draw_spec, identity, AxisAlignedBoundingBox, CPUMesh, DrawCall, MeshInfo, Uniform};
use crate::program::{request_outcome, ProgramCache};
use crate::state::{BlendParameters, CullType, DepthTestType, RenderStates, Viewport, WriteMask};
use crate::texture::{Color, Format};
use cgmath::{Matrix4, Vector4};
use vstd::prelude::*;

verus! {

/// The fragment stage that passes on the colour of each vertex.
pub const VERTEX_COLOR_FRAGMENT: &'static str =
    "in vec4 col;\nlayout (location = 0) out vec4 outColor;\nvoid main() { outColor = col; }";

/// The fragment stage that gives every fragment the colour of the draw.
pub const COLOR_FRAGMENT: &'static str =
    "uniform vec4 color;\nlayout (location = 0) out vec4 outColor;\nvoid main() { outColor = color; }";

/// The fragment stage that samples a texture.
pub const TEXTURE_FRAGMENT: &'static str =
    "uniform sampler2D tex;\nin vec2 uvs;\nlayout (location = 0) out vec4 outColor;\nvoid main() { outColor = texture(tex, uvs); }";

/// The fragment stage that writes the distance to the camera, as a part of
/// the greatest distance, into the red channel.
pub const PICK_FRAGMENT: &'static str =
    "uniform float maxDistance;\nuniform vec3 eye;\nin vec3 pos;\nlayout (location = 0) out vec4 outColor;\nvoid main() { outColor = vec4(distance(pos, eye) / maxDistance); }";

/// The fragment stage that writes nothing but depth.
pub const DEPTH_FRAGMENT: &'static str = "void main() {}";

/// Column `c` of a matrix.
pub open spec fn column(m: Matrix4<u32>, c: int) -> Vector4<u32> {
    if c == 0 {
        m.x
    } else if c == 1 {
        m.y
    } else if c == 2 {
        m.z
    } else {
        m.w
    }
}

/// Coordinate `r` of a vector.
pub open spec fn coordinate(v: Vector4<u32>, r: int) -> u32 {
    if r == 0 {
        v.x
    } else if r == 1 {
        v.y
    } else if r == 2 {
        v.z
    } else {
        v.w
    }
}

/// Row `r` of every transformation, four words an instance: the stream
/// from which each instance reads that row of its own matrix.
pub open spec fn row_stream(transformations: Seq<Matrix4<u32>>, r: int) -> Seq<u32> {
    Seq::new(
        4 * transformations.len(),
        |i: int| coordinate(column(transformations[i / 4], i % 4), r),
    )
}

/// A mesh with the streams that place its instances.
pub struct InstancedMesh {
    info: MeshInfo,
    instance_count: usize,
    row1: Vec<u32>,
    row2: Vec<u32>,
    row3: Vec<u32>,
    transformation: Matrix4<u32>,
}

impl InstancedMesh {
    /// Each row stream holds four words for every instance.
    pub open spec fn wf(&self) -> bool {
        &&& self.rows().0.len() == 4 * self.instances()
        &&& self.rows().1.len() == 4 * self.instances()
        &&& self.rows().2.len() == 4 * self.instances()
    }

    pub closed spec fn info(&self) -> MeshInfo {
        self.info
    }

    pub closed spec fn instances(&self) -> nat {
        self.instance_count as nat
    }

    pub closed spec fn model_matrix(&self) -> Matrix4<u32> {
        self.transformation
    }

    /// The three row streams.
    pub closed spec fn rows(&self) -> (Seq<u32>, Seq<u32>, Seq<u32>) {
        (self.row1@, self.row2@, self.row3@)
    }

    /// The mesh with one instance for each transformation; the mesh as a
    /// whole is left where it is.
    pub fn new(transformations: &[Matrix4<u32>], cpu_mesh: &CPUMesh) -> (r: InstancedMesh)
        ensures
            r.wf(),
            r.info() == MeshInfo::of_spec(cpu_mesh),
            r.model_matrix() == crate::mesh::identity_spec(),
            r.instances() == transformations@.len(),
            r.rows() == (
                row_stream(transformations@, 0),
                row_stream(transformations@, 1),
                row_stream(transformations@, 2),
            ),
    {
        let mut mesh = InstancedMesh {
            info: MeshInfo::of(cpu_mesh),
            instance_count: 0,
            row1: Vec::new(),
            row2: Vec::new(),
            row3: Vec::new(),
            transformation: identity(),
        };
        mesh.update_transformations(transformations);
        mesh
    }

    /// Replaces the instances: one for each transformation.
    pub fn update_transformations(&mut self, transformations: &[Matrix4<u32>])
        ensures
            final(self).wf(),
            final(self).info() == old(self).info(),
            final(self).model_matrix() == old(self).model_matrix(),
            final(self).instances() == transformations@.len(),
            final(self).rows() == (
                row_stream(transformations@, 0),
                row_stream(transformations@, 1),
                row_stream(transformations@, 2),
            ),
    {
        let mut row1: Vec<u32> = Vec::new();
        let mut row2: Vec<u32> = Vec::new();
        let mut row3: Vec<u32> = Vec::new();
        let mut i: usize = 0;
        while i < transformations.len()
            invariant
                i <= transformations@.len(),
                row1@.len() == 4 * i,
                row2@.len() == 4 * i,
                row3@.len() == 4 * i,
                forall|k: int| 0 <= k < 4 * i ==> row1@[k] == row_stream(transformations@, 0)[k],
                forall|k: int| 0 <= k < 4 * i ==> row2@[k] == row_stream(transformations@, 1)[k],
                forall|k: int| 0 <= k < 4 * i ==> row3@[k] == row_stream(transformations@, 2)[k],
            decreases transformations@.len() - i,
        {
            let t = &transformations[i];
            row1.push(t.x.x);
            row1.push(t.y.x);
            row1.push(t.z.x);
            row1.push(t.w.x);
            row2.push(t.x.y);
            row2.push(t.y.y);
            row2.push(t.z.y);
            row2.push(t.w.y);
            row3.push(t.x.z);
            row3.push(t.y.z);
            row3.push(t.z.z);
            row3.push(t.w.z);
            i += 1;
        }
        assert(row1@ =~= row_stream(transformations@, 0));
        assert(row2@ =~= row_stream(transformations@, 1));
        assert(row3@ =~= row_stream(transformations@, 2));
        self.instance_count = transformations.len();
        self.row1 = row1;
        self.row2 = row2;
        self.row3 = row3;
    }

    /// The three row streams, for upload.
    pub fn streams(&self) -> (r: (&[u32], &[u32], &[u32]))
        ensures
            (r.0@, r.1@, r.2@) == self.rows(),
    {
        (self.row1.as_slice(), self.row2.as_slice(), self.row3.as_slice())
    }
}

/// An instanced mesh with the culling it is drawn with.
pub struct InstancedModel {
    mesh: InstancedMesh,
    pub cull: CullType,
}

/// The render state of a draw by whether its content is transparent:
/// transparent content is blended over what is there and writes no depth,
/// opaque content is drawn with the default state. The culling is the
/// drawable's own in both cases.
pub open spec fn render_states_spec(cull: CullType, transparent: bool) -> RenderStates {
    if transparent {
        RenderStates {
            cull,
            write_mask: WriteMask::color_spec(),
            blend: Some(BlendParameters::transparency_spec()),
            ..RenderStates::default_spec()
        }
    } else {
        RenderStates { cull, ..RenderStates::default_spec() }
    }
}

/// What a request for the program of `source` followed by the draw `plan`
/// gives: the failure of the request, or the draw with the handle of the
/// program, or the refusal of the draw.
pub open spec fn render_outcome(
    requested: Result<usize, Error>,
    info: MeshInfo,
    model_matrix: Matrix4<u32>,
    instance_count: usize,
    render_states: RenderStates,
    uniform: Uniform,
    uses_uvs: bool,
    uses_colors: bool,
    viewport: Viewport,
) -> Result<DrawCall, Error> {
    match requested {
        Ok(program) => draw_spec(
            info,
            model_matrix,
            1,
            instance_count,
            program,
            render_states,
            uniform,
            uses_uvs,
            uses_colors,
            viewport,
        ),
        Err(e) => Err(e),
    }
}

impl InstancedModel {
    /// Each row stream holds four words for every instance.
    pub open spec fn wf(&self) -> bool {
        &&& self.rows().0.len() == 4 * self.instances()
        &&& self.rows().1.len() == 4 * self.instances()
        &&& self.rows().2.len() == 4 * self.instances()
    }

    /// What is known of the mesh.
    pub closed spec fn info(&self) -> MeshInfo {
        self.mesh.info
    }

    /// The culling that the drawable is drawn with.
    pub closed spec fn culling(&self) -> CullType {
        self.cull
    }

    /// The number of instances.
    pub closed spec fn instances(&self) -> usize {
        self.mesh.instance_count
    }

    /// The transformation of the drawable as a whole.
    pub closed spec fn model_matrix(&self) -> Matrix4<u32> {
        self.mesh.transformation
    }

    /// The three row streams of the instances' matrices.
    pub closed spec fn rows(&self) -> (Seq<u32>, Seq<u32>, Seq<u32>) {
        self.mesh.rows()
    }

    /// A drawable with one instance of the mesh for each transformation. It
    /// counts as alive in `programs` from now on.
    pub fn new<P>(
        programs: &mut ProgramCache<P>,
        transformations: &[Matrix4<u32>],
        cpu_mesh: &CPUMesh,
    ) -> (r: InstancedModel)
        requires
            old(programs).wf(),
            old(programs)@.live < u32::MAX,
        ensures
            final(programs).wf(),
            final(programs)@ == old(programs)@.registered(),
            r.wf(),
            r.culling() == CullType::Disabled,
            r.info() == MeshInfo::of_spec(cpu_mesh),
            r.model_matrix() == crate::mesh::identity_spec(),
            r.instances() == transformations@.len(),
            r.rows() == (
                row_stream(transformations@, 0),
                row_stream(transformations@, 1),
                row_stream(transformations@, 2),
            ),
    {
        let mesh = InstancedMesh::new(transformations, cpu_mesh);
        programs.register();
        InstancedModel { mesh, cull: CullType::Disabled }
    }

    /// Ends the life of the drawable. When it was the last one alive, every
    /// program of the cache goes with it.
    pub fn destroy<P>(self, programs: &mut ProgramCache<P>)
        requires
            old(programs).wf(),
            old(programs)@.live > 0,
        ensures
            final(programs).wf(),
            final(programs)@ == old(programs)@.released(),
    {
        programs.release();
    }

    /// The transformation of the drawable as a whole.
    pub fn transformation(&self) -> (r: &Matrix4<u32>)
        ensures
            *r == self.model_matrix(),
    {
        &self.mesh.transformation
    }

    /// Moves the drawable as a whole.
    pub fn set_transformation(&mut self, transformation: Matrix4<u32>)
        ensures
            final(self).model_matrix() == transformation,
            final(self).info() == old(self).info(),
            final(self).instances() == old(self).instances(),
            final(self).rows() == old(self).rows(),
            final(self).culling() == old(self).culling(),
            old(self).wf() ==> final(self).wf(),
    {
        self.mesh.transformation = transformation;
    }

    /// The mesh with its instance streams.
    pub fn mesh(&self) -> (r: &InstancedMesh)
        ensures
            r.rows() == self.rows(),
            r.instances() == self.instances(),
            r.info() == self.info(),
            r.model_matrix() == self.model_matrix(),
    {
        &self.mesh
    }

    /// The render state of a draw of this drawable by whether the content
    /// is transparent.
    pub fn render_states(&self, transparent: bool) -> (r: RenderStates)
        ensures
            r == render_states_spec(self.culling(), transparent),
            !transparent ==> r.blend is None && r.write_mask == WriteMask::color_and_depth_spec(),
            transparent ==> r.blend == Some(BlendParameters::transparency_spec()) && r.write_mask
                == WriteMask::color_spec() && !r.write_mask.depth,
            r.depth_test == DepthTestType::Less,
            r.cull == self.culling(),
    {
        if transparent {
            RenderStates {
                cull: self.cull,
                write_mask: WriteMask::color(),
                blend: Some(BlendParameters::transparency()),
                depth_test: DepthTestType::Less,
            }
        } else {
            RenderStates {
                cull: self.cull,
                write_mask: WriteMask::color_and_depth(),
                blend: None,
                depth_test: DepthTestType::Less,
            }
        }
    }

    /// The handle of the program whose fragment stage is `source`: the one
    /// in the cache, or else the one that `compile` makes now.
    pub fn get_or_insert_program<P, F>(
        &self,
        programs: &mut ProgramCache<P>,
        fragment_shader_source: &str,
        compile: F,
    ) -> (r: Result<usize, Error>) where F: FnOnce(&str) -> Result<P, Error>
        requires
            old(programs).wf(),
            call_requires(compile, (fragment_shader_source,)),
        ensures
            final(programs).wf(),
            request_outcome(old(programs)@, final(programs)@, fragment_shader_source, compile, r),
    {
        programs.get_or_create(fragment_shader_source, compile)
    }

    fn instanced_draw(
        &self,
        requested: Result<usize, Error>,
        render_states: RenderStates,
        uniform: Uniform,
        uses_uvs: bool,
        uses_colors: bool,
        viewport: Viewport,
    ) -> (r: Result<DrawCall, Error>)
        ensures
            r == render_outcome(
                requested,
                self.info(),
                self.model_matrix(),
                self.instances(),
                render_states,
                uniform,
                uses_uvs,
                uses_colors,
                viewport,
            ),
    {
        match requested {
            Ok(program) => draw(
                self.mesh.info,
                self.mesh.transformation,
                1,
                self.mesh.instance_count,
                program,
                render_states,
                uniform,
                uses_uvs,
                uses_colors,
                viewport,
            ),
            Err(e) => Err(e),
        }
    }

    /// The draw of the instances with the colours of their vertices. It is
    /// refused when the mesh has no vertex colours.
    pub fn render_color<P, F>(
        &self,
        programs: &mut ProgramCache<P>,
        compile: F,
        viewport: Viewport,
    ) -> (r: Result<DrawCall, Error>) where F: FnOnce(&str) -> Result<P, Error>
        requires
            old(programs).wf(),
            call_requires(compile, (VERTEX_COLOR_FRAGMENT,)),
        ensures
            final(programs).wf(),
            exists|requested: Result<usize, Error>|
                {
                    &&& #[trigger] request_outcome(
                        old(programs)@,
                        final(programs)@,
                        VERTEX_COLOR_FRAGMENT,
                        compile,
                        requested,
                    )
                    &&& r == render_outcome(
                        requested,
                        self.info(),
                        self.model_matrix(),
                        self.instances(),
                        render_states_spec(self.culling(), self.info().transparent),
                        Uniform::Unset,
                        false,
                        true,
                        viewport,
                    )
                },
            r is Ok ==> self.info().has_colors,
    {
        let requested = self.get_or_insert_program(programs, VERTEX_COLOR_FRAGMENT, compile);
        let render_states = self.render_states(self.mesh.info.transparent);
        self.instanced_draw(requested, render_states, Uniform::Unset, false, true, viewport)
    }

    /// The draw of the instances in one colour. A colour that is not
    /// opaque is blended.
    pub fn render_with_color<P, F>(
        &self,
        programs: &mut ProgramCache<P>,
        compile: F,
        color: &Color,
        viewport: Viewport,
    ) -> (r: Result<DrawCall, Error>) where F: FnOnce(&str) -> Result<P, Error>
        requires
            old(programs).wf(),
            call_requires(compile, (COLOR_FRAGMENT,)),
        ensures
            final(programs).wf(),
            exists|requested: Result<usize, Error>|
                {
                    &&& #[trigger] request_outcome(
                        old(programs)@,
                        final(programs)@,
                        COLOR_FRAGMENT,
                        compile,
                        requested,
                    )
                    &&& r == render_outcome(
                        requested,
                        self.info(),
                        self.model_matrix(),
                        self.instances(),
                        render_states_spec(self.culling(), color.a != 255),
                        Uniform::Color(*color),
                        false,
                        false,
                        viewport,
                    )
                },
            r is Ok <==> final(programs)@.holds(COLOR_FRAGMENT@),
    {
        let requested = self.get_or_insert_program(programs, COLOR_FRAGMENT, compile);
        let render_states = self.render_states(color.a != 255);
        self.instanced_draw(requested, render_states, Uniform::Color(*color), false, false, viewport)
    }

    /// The draw of the instances with a texture of the given format. A
    /// texture with an alpha channel is blended. The draw is refused when
    /// the mesh has no uv coordinates.
    pub fn render_with_texture<P, F>(
        &self,
        programs: &mut ProgramCache<P>,
        compile: F,
        format: Format,
        viewport: Viewport,
    ) -> (r: Result<DrawCall, Error>) where F: FnOnce(&str) -> Result<P, Error>
        requires
            old(programs).wf(),
            call_requires(compile, (TEXTURE_FRAGMENT,)),
        ensures
            final(programs).wf(),
            exists|requested: Result<usize, Error>|
                {
                    &&& #[trigger] request_outcome(
                        old(programs)@,
                        final(programs)@,
                        TEXTURE_FRAGMENT,
                        compile,
                        requested,
                    )
                    &&& r == render_outcome(
                        requested,
                        self.info(),
                        self.model_matrix(),
                        self.instances(),
                        render_states_spec(self.culling(), format.has_alpha_spec()),
                        Uniform::Texture,
                        true,
                        false,
                        viewport,
                    )
                },
            r is Ok ==> self.info().has_uvs,
    {
        let requested = self.get_or_insert_program(programs, TEXTURE_FRAGMENT, compile);
        let render_states = self.render_states(format.has_alpha());
        self.instanced_draw(requested, render_states, Uniform::Texture, true, false, viewport)
    }

    /// The draw that writes the depth of the instances, as a part of
    /// `max_depth`, into the red channel and into the depth buffer.
    pub fn render_depth_to_red<P, F>(
        &self,
        programs: &mut ProgramCache<P>,
        compile: F,
        max_depth: u32,
        viewport: Viewport,
    ) -> (r: Result<DrawCall, Error>) where F: FnOnce(&str) -> Result<P, Error>
        requires
            old(programs).wf(),
            call_requires(compile, (PICK_FRAGMENT,)),
        ensures
            final(programs).wf(),
            exists|requested: Result<usize, Error>|
                {
                    &&& #[trigger] request_outcome(
                        old(programs)@,
                        final(programs)@,
                        PICK_FRAGMENT,
                        compile,
                        requested,
                    )
                    &&& r == render_outcome(
                        requested,
                        self.info(),
                        self.model_matrix(),
                        self.instances(),
                        (RenderStates {
                            write_mask: WriteMask {
                                red: true,
                                depth: true,
                                ..WriteMask::none_spec()
                            },
                            cull: self.culling(),
                            ..RenderStates::default_spec()
                        }),
                        Uniform::MaxDistance(max_depth),
                        false,
                        false,
                        viewport,
                    )
                },
    {
        let requested = self.get_or_insert_program(programs, PICK_FRAGMENT, compile);
        let render_states = RenderStates {
            write_mask: WriteMask { red: true, green: false, blue: false, alpha: false, depth: true },
            cull: self.cull,
            depth_test: DepthTestType::Less,
            blend: None,
        };
        self.instanced_draw(
            requested,
            render_states,
            Uniform::MaxDistance(max_depth),
            false,
            false,
            viewport,
        )
    }

    /// The draw that writes the depth of the instances and no colour.
    pub fn render_depth<P, F>(
        &self,
        programs: &mut ProgramCache<P>,
        compile: F,
        viewport: Viewport,
    ) -> (r: Result<DrawCall, Error>) where F: FnOnce(&str) -> Result<P, Error>
        requires
            old(programs).wf(),
            call_requires(compile, (DEPTH_FRAGMENT,)),
        ensures
            final(programs).wf(),
            exists|requested: Result<usize, Error>|
                {
                    &&& #[trigger] request_outcome(
                        old(programs)@,
                        final(programs)@,
                        DEPTH_FRAGMENT,
                        compile,
                        requested,
                    )
                    &&& r == render_outcome(
                        requested,
                        self.info(),
                        self.model_matrix(),
                        self.instances(),
                        (RenderStates {
                            write_mask: WriteMask::depth_spec(),
                            cull: self.culling(),
                            ..RenderStates::default_spec()
                        }),
                        Uniform::Unset,
                        false,
                        false,
                        viewport,
                    )
                },
    {
        let requested = self.get_or_insert_program(programs, DEPTH_FRAGMENT, compile);
        let render_states = RenderStates {
            write_mask: WriteMask::depth(),
            cull: self.cull,
            depth_test: DepthTestType::Less,
            blend: None,
        };
        self.instanced_draw(requested, render_states, Uniform::Unset, false, false, viewport)
    }

    /// No bound is known of an instanced drawable: whoever culls by
    /// bounding boxes takes it for visible.
    pub fn aabb(&self) -> (r: Option<AxisAlignedBoundingBox>)
        ensures
            r is None,
    {
        None
    }
}

/// No two shading variants have the same fragment source, so no two of
/// them share an entry of the cache.
pub proof fn lemma_fragments_differ()
    ensures
        VERTEX_COLOR_FRAGMENT@ != COLOR_FRAGMENT@,
        VERTEX_COLOR_FRAGMENT@ != TEXTURE_FRAGMENT@,
        VERTEX_COLOR_FRAGMENT@ != PICK_FRAGMENT@,
        VERTEX_COLOR_FRAGMENT@ != DEPTH_FRAGMENT@,
        COLOR_FRAGMENT@ != TEXTURE_FRAGMENT@,
        COLOR_FRAGMENT@ != PICK_FRAGMENT@,
        COLOR_FRAGMENT@ != DEPTH_FRAGMENT@,
        TEXTURE_FRAGMENT@ != PICK_FRAGMENT@,
        TEXTURE_FRAGMENT@ != DEPTH_FRAGMENT@,
        PICK_FRAGMENT@ != DEPTH_FRAGMENT@,
{
    reveal_strlit("in vec4 col;\nlayout (location = 0) out vec4 outColor;\nvoid main() { outColor = col; }");
    reveal_strlit("uniform vec4 color;\nlayout (location = 0) out vec4 outColor;\nvoid main() { outColor = color; }");
    reveal_strlit("uniform sampler2D tex;\nin vec2 uvs;\nlayout (location = 0) out vec4 outColor;\nvoid main() { outColor = texture(tex, uvs); }");
    reveal_strlit("uniform float maxDistance;\nuniform vec3 eye;\nin vec3 pos;\nlayout (location = 0) out vec4 outColor;\nvoid main() { outColor = vec4(distance(pos, eye) / maxDistance); }");
    reveal_strlit("void main() {}");
    assert(VERTEX_COLOR_FRAGMENT@.len() == 85);
    assert(COLOR_FRAGMENT@.len() == 94);
    assert(TEXTURE_FRAGMENT@.len() == 122);
    assert(PICK_FRAGMENT@.len() == 165);
    assert(DEPTH_FRAGMENT@.len() == 14);
}

} // verus!
