//! Meshes as the library sees them: what streams of data they carry and how
//! many vertices and instances a draw of them covers.

use crate::error::Error;
use crate::state::{RenderStates, Viewport};
use crate::texture::Color;
use cgmath::{Matrix4, Vector3, Vector4};
use vstd::prelude::*;

verus! {

/// The word of the float 0.0.
pub const ZERO: u32 = 0;

/// The word of the float 1.0.
pub const ONE: u32 = 0x3F80_0000;

/// The matrix that leaves every point where it is.
pub open spec fn identity_spec() -> Matrix4<u32> {
    Matrix4 {
        x: Vector4 { x: ONE, y: ZERO, z: ZERO, w: ZERO },
        y: Vector4 { x: ZERO, y: ONE, z: ZERO, w: ZERO },
        z: Vector4 { x: ZERO, y: ZERO, z: ONE, w: ZERO },
        w: Vector4 { x: ZERO, y: ZERO, z: ZERO, w: ONE },
    }
}

/// The matrix that leaves every point where it is.
pub fn identity() -> (m: Matrix4<u32>)
    ensures
        m == identity_spec(),
{
    Matrix4 {
        x: crate::math::vec4(ONE, ZERO, ZERO, ZERO),
        y: crate::math::vec4(ZERO, ONE, ZERO, ZERO),
        z: crate::math::vec4(ZERO, ZERO, ONE, ZERO),
        w: crate::math::vec4(ZERO, ZERO, ZERO, ONE),
    }
}

/// A box with sides along the axes, by two opposite corners.
#[derive(Clone, Copy, Debug, PartialEq)]
pub struct AxisAlignedBoundingBox {
    pub min: Vector3<u32>,
    pub max: Vector3<u32>,
}

/// A mesh in main memory. Scalars are the words of floats; a colour takes
/// four bytes, the last of them its alpha.
pub struct CPUMesh {
    pub positions: Vec<u32>,
    pub indices: Option<Vec<u32>>,
    pub normals: Option<Vec<u32>>,
    pub uvs: Option<Vec<u32>>,
    pub colors: Option<Vec<u8>>,
}

/// The alpha of colour `k` in a run of colours of four bytes each.
pub open spec fn alpha_of(colors: Seq<u8>, k: int) -> u8 {
    colors[4 * k + 3]
}

/// Whether one of the colours, four bytes each, has an alpha below 255.
pub open spec fn has_transparency(colors: Seq<u8>) -> bool {
    exists|k: int| 0 <= k < colors.len() / 4 && #[trigger] alpha_of(colors, k) != 255
}

impl CPUMesh {
    /// The number of vertices that a draw of the mesh runs through: the
    /// number of indices where there are any, else one for every three
    /// position scalars.
    pub open spec fn vertex_count_spec(&self) -> nat {
        match self.indices {
            Some(indices) => indices@.len(),
            None => self.positions@.len() / 3,
        }
    }

    /// Whether the mesh has vertex colours one of which is not opaque.
    pub open spec fn transparent_spec(&self) -> bool {
        match self.colors {
            Some(colors) => has_transparency(colors@),
            None => false,
        }
    }

    /// The number of vertices that a draw of the mesh runs through.
    pub fn vertex_count(&self) -> (n: usize)
        ensures
            n == self.vertex_count_spec(),
    {
        match &self.indices {
            Some(indices) => indices.len(),
            None => self.positions.len() / 3,
        }
    }

    /// Whether the mesh has vertex colours one of which is not opaque.
    pub fn transparent(&self) -> (r: bool)
        ensures
            r == self.transparent_spec(),
    {
        match &self.colors {
            Some(colors) => any_transparent(colors.as_slice()),
            None => false,
        }
    }
}

/// Whether one of the colours, four bytes each, has an alpha below 255.
pub fn any_transparent(colors: &[u8]) -> (r: bool)
    ensures
        r == has_transparency(colors@),
{
    let len: usize = colors.len();
    let n: usize = len / 4;
    let mut k: usize = 0;
    while k < n
        invariant
            k <= n,
            len == colors@.len(),
            4 * n <= len,
            n == colors@.len() / 4,
            forall|j: int| 0 <= j < k ==> #[trigger] alpha_of(colors@, j) == 255,
        decreases n - k,
    {
        if colors[4 * k + 3] != 255 {
            assert(alpha_of(colors@, k as int) != 255);
            return true;
        }
        k += 1;
    }
    false
}

/// What is known of a mesh once its data is on the GPU.
#[derive(Clone, Copy, Debug, PartialEq, Eq, Structural)]
pub struct MeshInfo {
    pub vertex_count: usize,
    pub has_normals: bool,
    pub has_uvs: bool,
    pub has_colors: bool,
    pub transparent: bool,
}

impl MeshInfo {
    pub open spec fn of_spec(cpu_mesh: &CPUMesh) -> MeshInfo {
        MeshInfo {
            vertex_count: cpu_mesh.vertex_count_spec() as usize,
            has_normals: cpu_mesh.normals is Some,
            has_uvs: cpu_mesh.uvs is Some,
            has_colors: cpu_mesh.colors is Some,
            transparent: cpu_mesh.transparent_spec(),
        }
    }

    /// What is known of the given mesh.
    pub fn of(cpu_mesh: &CPUMesh) -> (r: MeshInfo)
        ensures
            r == Self::of_spec(cpu_mesh),
    {
        MeshInfo {
            vertex_count: cpu_mesh.vertex_count(),
            has_normals: cpu_mesh.normals.is_some(),
            has_uvs: cpu_mesh.uvs.is_some(),
            has_colors: cpu_mesh.colors.is_some(),
            transparent: cpu_mesh.transparent(),
        }
    }
}

/// The one value, besides the camera and the model matrix, that a shading
/// variant hands to its program.
#[derive(Clone, Copy, Debug, PartialEq, Eq, Structural)]
pub enum Uniform {
    /// The variant needs nothing more.
    Unset,
    /// The colour of the whole draw, under the name `color`.
    Color(Color),
    /// A texture to sample, under the name `tex`.
    Texture,
    /// The depth that is written as one, under the name `maxDistance`.
    MaxDistance(u32),
}

/// One draw, as it is to be submitted.
#[derive(Clone, Copy, Debug, PartialEq)]
pub struct DrawCall {
    /// The handle of the program in the cache.
    pub program: usize,
    pub render_states: RenderStates,
    pub viewport: Viewport,
    /// The transformation of the whole drawable.
    pub model_matrix: Matrix4<u32>,
    pub uniform: Uniform,
    /// Whether the uv coordinates of the vertices are bound.
    pub uses_uvs: bool,
    /// Whether the colours of the vertices are bound.
    pub uses_colors: bool,
    /// After how many instances a per-instance stream moves on: one for an
    /// instanced draw, zero where there are no such streams.
    pub instance_divisor: u32,
    pub vertex_count: usize,
    pub instance_count: usize,
}

/// The draw of a mesh, or the refusal when the program reads a stream that
/// the mesh does not have.
pub open spec fn draw_spec(
    info: MeshInfo,
    model_matrix: Matrix4<u32>,
    instance_divisor: u32,
    instance_count: usize,
    program: usize,
    render_states: RenderStates,
    uniform: Uniform,
    uses_uvs: bool,
    uses_colors: bool,
    viewport: Viewport,
) -> Result<DrawCall, Error> {
    if (uses_uvs && !info.has_uvs) || (uses_colors && !info.has_colors) {
        Err(Error::MissingData)
    } else {
        Ok(
            DrawCall {
                program,
                render_states,
                viewport,
                model_matrix,
                uniform,
                uses_uvs,
                uses_colors,
                instance_divisor,
                vertex_count: info.vertex_count,
                instance_count,
            },
        )
    }
}

/// The draw of a mesh, or the refusal when the program reads a stream that
/// the mesh does not have.
pub fn draw(
    info: MeshInfo,
    model_matrix: Matrix4<u32>,
    instance_divisor: u32,
    instance_count: usize,
    program: usize,
    render_states: RenderStates,
    uniform: Uniform,
    uses_uvs: bool,
    uses_colors: bool,
    viewport: Viewport,
) -> (r: Result<DrawCall, Error>)
    ensures
        r == draw_spec(
            info,
            model_matrix,
            instance_divisor,
            instance_count,
            program,
            render_states,
            uniform,
            uses_uvs,
            uses_colors,
            viewport,
        ),
{
    if (uses_uvs && !info.has_uvs) || (uses_colors && !info.has_colors) {
        Err(Error::MissingData)
    } else {
        Ok(
            DrawCall {
                program,
                render_states,
                viewport,
                model_matrix,
                uniform,
                uses_uvs,
                uses_colors,
                instance_divisor,
                vertex_count: info.vertex_count,
                instance_count,
            },
        )
    }
}

/// A mesh on the GPU with the transformation that places it.
#[derive(Clone, Copy, Debug, PartialEq)]
pub struct Mesh {
    pub info: MeshInfo,
    pub transformation: Matrix4<u32>,
}

impl Mesh {
    /// The given mesh, left where it is.
    pub fn new(cpu_mesh: &CPUMesh) -> (r: Mesh)
        ensures
            r.info == MeshInfo::of_spec(cpu_mesh),
            r.transformation == identity_spec(),
    {
        Mesh { info: MeshInfo::of(cpu_mesh), transformation: identity() }
    }
}

} // verus!
