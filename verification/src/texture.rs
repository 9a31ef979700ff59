//! What the library knows of the textures it asks for: their size and kind.

use vstd::prelude::*;

verus! {

/// What a texture gives when it is sampled outside of the unit square.
#[derive(Clone, Copy, Debug, PartialEq, Eq, Structural)]
pub enum Wrapping {
    Repeat,
    MirroredRepeat,
    ClampToEdge,
}

/// The precision of a depth texture.
#[derive(Clone, Copy, Debug, PartialEq, Eq, Structural)]
pub enum DepthFormat {
    Depth16,
    Depth24,
    Depth32F,
}

/// The channels of a colour texture.
#[derive(Clone, Copy, Debug, PartialEq, Eq, Structural)]
pub enum Format {
    R,
    RGB,
    SRGB,
    RGBA,
    SRGBA,
}

impl Format {
    pub open spec fn has_alpha_spec(&self) -> bool {
        *self == Format::RGBA || *self == Format::SRGBA
    }

    /// Whether the format carries an alpha channel.
    #[verifier::when_used_as_spec(has_alpha_spec)]
    pub fn has_alpha(&self) -> (r: bool)
        ensures
            r == self.has_alpha_spec(),
    {
        match self {
            Format::RGBA => true,
            Format::SRGBA => true,
            _ => false,
        }
    }
}

/// A colour in gamma space, eight bits a channel.
#[derive(Clone, Copy, Debug, PartialEq, Eq, Structural)]
pub struct Color {
    pub r: u8,
    pub g: u8,
    pub b: u8,
    pub a: u8,
}

/// A two-dimensional depth texture that can be rendered into.
#[derive(Clone, Copy, Debug, PartialEq, Eq, Structural)]
pub struct DepthTargetTexture2D {
    pub width: u32,
    pub height: u32,
    pub wrap_s: Wrapping,
    pub wrap_t: Wrapping,
    pub format: DepthFormat,
}

impl DepthTargetTexture2D {
    /// The description of a depth texture of the given size and kind.
    pub fn new(
        width: u32,
        height: u32,
        wrap_s: Wrapping,
        wrap_t: Wrapping,
        format: DepthFormat,
    ) -> (r: DepthTargetTexture2D)
        ensures
            r == (DepthTargetTexture2D { width, height, wrap_s, wrap_t, format }),
    {
        DepthTargetTexture2D { width, height, wrap_s, wrap_t, format }
    }

    /// The number of texels in a row.
    pub fn width(&self) -> (r: u32)
        ensures
            r == self.width,
    {
        self.width
    }

    /// The number of rows.
    pub fn height(&self) -> (r: u32)
        ensures
            r == self.height,
    {
        self.height
    }
}

/// A stack of two-dimensional colour textures of one size.
#[derive(Clone, Copy, Debug, PartialEq, Eq, Structural)]
pub struct Texture2DArray {
    pub width: usize,
    pub height: usize,
    pub depth: usize,
    pub format: Format,
}

} // verus!
