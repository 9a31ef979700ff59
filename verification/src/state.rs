//! The fixed-function state that is in force during a draw.

use vstd::prelude::*;

verus! {

/// Which faces of a triangle are discarded.
#[derive(Clone, Copy, Debug, PartialEq, Eq, Structural)]
pub enum CullType {
    Disabled,
    Back,
    Front,
    FrontAndBack,
}

/// The comparison that a fragment's depth must pass.
#[derive(Clone, Copy, Debug, PartialEq, Eq, Structural)]
pub enum DepthTestType {
    Never,
    Less,
    Equal,
    LessOrEqual,
    Greater,
    NotEqual,
    GreaterOrEqual,
    Always,
}

/// The factor a colour is scaled by before blending.
#[derive(Clone, Copy, Debug, PartialEq, Eq, Structural)]
pub enum BlendMultiplierType {
    Zero,
    One,
    SrcAlpha,
    OneMinusSrcAlpha,
    DstAlpha,
    OneMinusDstAlpha,
}

/// How the scaled source and destination colours are combined.
#[derive(Clone, Copy, Debug, PartialEq, Eq, Structural)]
pub enum BlendEquationType {
    Add,
    Subtract,
    ReverseSubtract,
}

/// How a fragment is combined with what the target already holds.
#[derive(Clone, Copy, Debug, PartialEq, Eq, Structural)]
pub struct BlendParameters {
    pub source_rgb_multiplier: BlendMultiplierType,
    pub source_alpha_multiplier: BlendMultiplierType,
    pub destination_rgb_multiplier: BlendMultiplierType,
    pub destination_alpha_multiplier: BlendMultiplierType,
    pub rgb_equation: BlendEquationType,
    pub alpha_equation: BlendEquationType,
}

impl BlendParameters {
    /// Standard alpha blending: the source weighted by its alpha over the
    /// destination weighted by one minus that alpha.
    pub open spec fn transparency_spec() -> BlendParameters {
        BlendParameters {
            source_rgb_multiplier: BlendMultiplierType::SrcAlpha,
            source_alpha_multiplier: BlendMultiplierType::Zero,
            destination_rgb_multiplier: BlendMultiplierType::OneMinusSrcAlpha,
            destination_alpha_multiplier: BlendMultiplierType::One,
            rgb_equation: BlendEquationType::Add,
            alpha_equation: BlendEquationType::Add,
        }
    }

    #[verifier::when_used_as_spec(transparency_spec)]
    pub fn transparency() -> (r: BlendParameters)
        ensures
            r == Self::transparency_spec(),
    {
        BlendParameters {
            source_rgb_multiplier: BlendMultiplierType::SrcAlpha,
            source_alpha_multiplier: BlendMultiplierType::Zero,
            destination_rgb_multiplier: BlendMultiplierType::OneMinusSrcAlpha,
            destination_alpha_multiplier: BlendMultiplierType::One,
            rgb_equation: BlendEquationType::Add,
            alpha_equation: BlendEquationType::Add,
        }
    }
}

/// The channels of the target that a draw may write.
#[derive(Clone, Copy, Debug, PartialEq, Eq, Structural)]
pub struct WriteMask {
    pub red: bool,
    pub green: bool,
    pub blue: bool,
    pub alpha: bool,
    pub depth: bool,
}

impl WriteMask {
    pub open spec fn color_and_depth_spec() -> WriteMask {
        WriteMask { red: true, green: true, blue: true, alpha: true, depth: true }
    }

    pub open spec fn color_spec() -> WriteMask {
        WriteMask { red: true, green: true, blue: true, alpha: true, depth: false }
    }

    pub open spec fn depth_spec() -> WriteMask {
        WriteMask { red: false, green: false, blue: false, alpha: false, depth: true }
    }

    pub open spec fn none_spec() -> WriteMask {
        WriteMask { red: false, green: false, blue: false, alpha: false, depth: false }
    }

    /// Every colour channel and the depth.
    #[verifier::when_used_as_spec(color_and_depth_spec)]
    pub fn color_and_depth() -> (r: WriteMask)
        ensures
            r == Self::color_and_depth_spec(),
    {
        WriteMask { red: true, green: true, blue: true, alpha: true, depth: true }
    }

    /// The colour channels only.
    #[verifier::when_used_as_spec(color_spec)]
    pub fn color() -> (r: WriteMask)
        ensures
            r == Self::color_spec(),
    {
        WriteMask { red: true, green: true, blue: true, alpha: true, depth: false }
    }

    /// The depth only.
    #[verifier::when_used_as_spec(depth_spec)]
    pub fn depth() -> (r: WriteMask)
        ensures
            r == Self::depth_spec(),
    {
        WriteMask { red: false, green: false, blue: false, alpha: false, depth: true }
    }

    /// Nothing at all.
    #[verifier::when_used_as_spec(none_spec)]
    pub fn none() -> (r: WriteMask)
        ensures
            r == Self::none_spec(),
    {
        WriteMask { red: false, green: false, blue: false, alpha: false, depth: false }
    }
}

impl Default for WriteMask {
    fn default() -> (r: WriteMask)
        ensures
            r == WriteMask::color_and_depth_spec(),
    {
        WriteMask::color_and_depth()
    }
}

/// Everything that is fixed for the length of one draw.
#[derive(Clone, Copy, Debug, PartialEq, Eq, Structural)]
pub struct RenderStates {
    pub write_mask: WriteMask,
    pub depth_test: DepthTestType,
    pub cull: CullType,
    pub blend: Option<BlendParameters>,
}

impl RenderStates {
    /// The state of an ordinary opaque draw: colour and depth are written,
    /// nearer fragments win, nothing is culled and nothing is blended.
    pub open spec fn default_spec() -> RenderStates {
        RenderStates {
            write_mask: WriteMask::color_and_depth_spec(),
            depth_test: DepthTestType::Less,
            cull: CullType::Disabled,
            blend: None,
        }
    }
}

impl Default for RenderStates {
    fn default() -> (r: RenderStates)
        ensures
            r == RenderStates::default_spec(),
    {
        RenderStates {
            write_mask: WriteMask::color_and_depth(),
            depth_test: DepthTestType::Less,
            cull: CullType::Disabled,
            blend: None,
        }
    }
}

/// The rectangle of the target, in pixels, that a draw covers.
#[derive(Clone, Copy, Debug, PartialEq, Eq, Structural)]
pub struct Viewport {
    pub x: i32,
    pub y: i32,
    pub width: u32,
    pub height: u32,
}

impl Viewport {
    pub open spec fn at_origo(width: u32, height: u32) -> Viewport {
        Viewport { x: 0, y: 0, width, height }
    }

    /// A viewport of the given size whose lower left corner is the origin.
    pub fn new_at_origo(width: u32, height: u32) -> (r: Viewport)
        ensures
            r == Self::at_origo(width, height),
    {
        Viewport { x: 0, y: 0, width, height }
    }
}

} // verus!
