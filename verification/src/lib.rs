//! The verified core of a real-time rendering layer: the light block and
//! shadow pass of a directional light, the shader-program cache, and the
//! draws that instanced geometry asks for.
//!
//! Scalars that the GPU reads as 32-bit floats are held here as their raw
//! 32-bit words; the library moves and places them and never computes on them.

pub mod axes;
pub mod buffer;
pub mod camera;
pub mod error;
pub mod imposter;
pub mod instanced_mesh;
pub mod light;
pub mod math;
pub mod mesh;
pub mod program;
pub mod state;
pub mod texture;
