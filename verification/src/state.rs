//! The render state description used by the first rendering interface: which
//! channels to write, how to test depth, which faces to cull and how to blend.

use vstd::prelude::*;

verus! {

/// The rectangle of the screen or render target to render to, in pixels.
#[derive(Debug, Copy, Clone, PartialEq, Eq, Structural)]
pub struct Viewport {
    pub x: i32,
    pub y: i32,
    pub width: usize,
    pub height: usize,
}

impl Viewport {
    /// A viewport of the given size at the lower left corner.
    pub fn new(width: usize, height: usize) -> (r: Self)
        ensures
            r == (Viewport { x: 0, y: 0, width, height }),
    {
        Viewport { x: 0, y: 0, width, height }
    }
}

impl Default for Viewport {
    fn default() -> (r: Self)
        ensures
            r == (Viewport { x: 0, y: 0, width: 1024, height: 1024 }),
    {
        Viewport { x: 0, y: 0, width: 1024, height: 1024 }
    }
}

/// Which triangles to skip when rendering.
#[derive(Debug, Copy, Clone, PartialEq, Eq, Structural)]
pub enum CullType {
    /// Skip no triangles.
    NoCulling,
    Back,
    Front,
    FrontAndBack,
}

/// The comparison that decides whether a fragment passes the depth test.
#[derive(Debug, Copy, Clone, PartialEq, Eq, Structural)]
pub enum DepthTestType {
    Never,
    Less,
    Equal,
    LessOrEqual,
    Greater,
    NotEqual,
    GreaterOrEqual,
    Always,
}

/// Which color channels to write to.
#[derive(Debug, Copy, Clone, PartialEq, Eq, Structural)]
pub struct ColorMask {
    pub red: bool,
    pub green: bool,
    pub blue: bool,
    pub alpha: bool,
}

impl Default for ColorMask {
    fn default() -> (r: Self)
        ensures
            r == (ColorMask { red: true, green: true, blue: true, alpha: true }),
    {
        ColorMask { red: true, green: true, blue: true, alpha: true }
    }
}

/// Value multiplied with the source or target color or alpha value when blending.
#[derive(Debug, Copy, Clone, PartialEq, Eq, Structural)]
pub enum BlendMultiplierType {
    Zero,
    One,
    SrcColor,
    OneMinusSrcColor,
    DstColor,
    OneMinusDstColor,
    SrcAlpha,
    OneMinusSrcAlpha,
    DstAlpha,
    OneMinusDstAlpha,
    SrcAlphaSaturate,
}

/// How the source and target color or alpha value are combined when blending.
#[derive(Debug, Copy, Clone, PartialEq, Eq, Structural)]
pub enum BlendEquationType {
    Add,
    Subtract,
    ReverseSubtract,
    Max,
    Min,
}

/// The multipliers and equations of a blend, separately for color and alpha.
#[derive(Debug, Copy, Clone, PartialEq, Eq, Structural)]
pub struct BlendParameters {
    pub source_rgb_multiplier: BlendMultiplierType,
    pub source_alpha_multiplier: BlendMultiplierType,
    pub destination_rgb_multiplier: BlendMultiplierType,
    pub destination_alpha_multiplier: BlendMultiplierType,
    pub rgb_equation: BlendEquationType,
    pub alpha_equation: BlendEquationType,
}

impl BlendParameters {
    /// Blend parameters that use the same equation and multipliers for color and
    /// alpha.
    pub fn new(
        equation: BlendEquationType,
        source_multiplier: BlendMultiplierType,
        destination_multiplier: BlendMultiplierType,
    ) -> (r: BlendParameters)
        ensures
            r == (BlendParameters {
                source_rgb_multiplier: source_multiplier,
                source_alpha_multiplier: source_multiplier,
                destination_rgb_multiplier: destination_multiplier,
                destination_alpha_multiplier: destination_multiplier,
                rgb_equation: equation,
                alpha_equation: equation,
            }),
    {
        BlendParameters {
            source_rgb_multiplier: source_multiplier,
            source_alpha_multiplier: source_multiplier,
            destination_rgb_multiplier: destination_multiplier,
            destination_alpha_multiplier: destination_multiplier,
            rgb_equation: equation,
            alpha_equation: equation,
        }
    }
}

impl Default for BlendParameters {
    fn default() -> (r: Self)
        ensures
            r == (BlendParameters {
                source_rgb_multiplier: BlendMultiplierType::One,
                source_alpha_multiplier: BlendMultiplierType::One,
                destination_rgb_multiplier: BlendMultiplierType::Zero,
                destination_alpha_multiplier: BlendMultiplierType::Zero,
                rgb_equation: BlendEquationType::Add,
                alpha_equation: BlendEquationType::Add,
            }),
    {
        BlendParameters::new(
            BlendEquationType::Add,
            BlendMultiplierType::One,
            BlendMultiplierType::Zero,
        )
    }
}

/// The render states of one draw call.
#[derive(Debug, Copy, Clone, PartialEq, Eq, Structural)]
pub struct RenderStates {
    pub color_mask: ColorMask,
    pub depth_mask: bool,
    pub depth_test: DepthTestType,
    pub viewport: Viewport,
    pub cull: CullType,
    pub blend: Option<BlendParameters>,
}

impl Default for RenderStates {
    fn default() -> (r: Self)
        ensures
            r == (RenderStates {
                color_mask: ColorMask { red: true, green: true, blue: true, alpha: true },
                depth_mask: true,
                depth_test: DepthTestType::Less,
                viewport: Viewport { x: 0, y: 0, width: 1024, height: 1024 },
                cull: CullType::NoCulling,
                blend: None,
            }),
    {
        RenderStates {
            color_mask: ColorMask::default(),
            depth_mask: true,
            depth_test: DepthTestType::Less,
            viewport: Viewport::default(),
            cull: CullType::NoCulling,
            blend: None,
        }
    }
}

} // verus!
