//! Definitions of the input state needed for any draw call, and the graphics API
//! calls that put a context into that state.

use vstd::prelude::*;

use crate::command::GlCommand;
use crate::glenum;

verus! {

/// Value multiplied with the source or target color or alpha value in [Blend].
#[derive(Debug, Copy, Clone, PartialEq, Eq, Structural)]
pub enum BlendMultiplierType {
    Zero,
    One,
    SrcColor,
    OneMinusSrcColor,
    DstColor,
    OneMinusDstColor,
    SrcAlpha,
    OneMinusSrcAlpha,
    DstAlpha,
    OneMinusDstAlpha,
    SrcAlphaSaturate,
}

/// How the source and target color or alpha value are combined in [Blend].
#[derive(Debug, Copy, Clone, PartialEq, Eq, Structural)]
pub enum BlendEquationType {
    Add,
    Subtract,
    ReverseSubtract,
    Max,
    Min,
}

/// The OpenGL blend factor that stands for a multiplier.
pub open spec fn spec_blend_factor(m: BlendMultiplierType) -> u32 {
    match m {
        BlendMultiplierType::Zero => 0,
        BlendMultiplierType::One => 1,
        BlendMultiplierType::SrcColor => 0x0300,
        BlendMultiplierType::OneMinusSrcColor => 0x0301,
        BlendMultiplierType::DstColor => 0x0306,
        BlendMultiplierType::OneMinusDstColor => 0x0307,
        BlendMultiplierType::SrcAlpha => 0x0302,
        BlendMultiplierType::OneMinusSrcAlpha => 0x0303,
        BlendMultiplierType::DstAlpha => 0x0304,
        BlendMultiplierType::OneMinusDstAlpha => 0x0305,
        BlendMultiplierType::SrcAlphaSaturate => 0x0308,
    }
}

/// The OpenGL blend equation mode that stands for an equation.
pub open spec fn spec_blend_mode(e: BlendEquationType) -> u32 {
    match e {
        BlendEquationType::Add => 0x8006,
        BlendEquationType::Subtract => 0x800A,
        BlendEquationType::ReverseSubtract => 0x800B,
        BlendEquationType::Min => 0x8007,
        BlendEquationType::Max => 0x8008,
    }
}

/// Defines whether the triangles that are backfacing, frontfacing, both or none
/// should be rendered in a render call.
#[derive(Debug, Copy, Clone, PartialEq, Eq, Structural)]
pub enum Cull {
    /// Render both front- and backfacing triangles.
    NoCulling,
    /// Render only frontfacing triangles.
    Back,
    /// Render only backfacing triangles.
    Front,
    /// Render nothing.
    FrontAndBack,
}

/// Determines whether or not a fragment from the current render call should be
/// discarded when comparing its depth with the depth of the current fragment.
#[derive(Debug, Copy, Clone, PartialEq, Eq, Structural)]
pub enum DepthTest {
    Never,
    Less,
    Equal,
    LessOrEqual,
    Greater,
    NotEqual,
    GreaterOrEqual,
    Always,
}

/// The OpenGL comparison function that stands for a depth test.
pub open spec fn spec_depth_func(t: DepthTest) -> u32 {
    match t {
        DepthTest::Never => 0x0200,
        DepthTest::Less => 0x0201,
        DepthTest::Equal => 0x0202,
        DepthTest::LessOrEqual => 0x0203,
        DepthTest::Greater => 0x0204,
        DepthTest::NotEqual => 0x0205,
        DepthTest::GreaterOrEqual => 0x0206,
        DepthTest::Always => 0x0207,
    }
}

/// `GL_CULL_FACE`.
pub open spec fn spec_cull_face_cap() -> u32 {
    0x0B44
}

/// `GL_DEPTH_TEST`.
pub open spec fn spec_depth_test_cap() -> u32 {
    0x0B71
}

/// `GL_BLEND`.
pub open spec fn spec_blend_cap() -> u32 {
    0x0BE2
}

/// The calls that select a culling mode.
pub open spec fn spec_cull_commands(c: Cull) -> Seq<GlCommand> {
    match c {
        Cull::NoCulling => seq![GlCommand::Disable(spec_cull_face_cap())],
        Cull::Back => seq![GlCommand::Enable(spec_cull_face_cap()), GlCommand::CullFace(0x0405)],
        Cull::Front => seq![GlCommand::Enable(spec_cull_face_cap()), GlCommand::CullFace(0x0404)],
        Cull::FrontAndBack => seq![
            GlCommand::Enable(spec_cull_face_cap()),
            GlCommand::CullFace(0x0408),
        ],
    }
}

/// The calls that set the depth test and the depth write flag: the test is switched
/// off when nothing is written to depth and every fragment passes anyway.
pub open spec fn spec_depth_commands(depth_test: Option<DepthTest>, depth_mask: bool) -> Seq<
    GlCommand,
> {
    if !depth_mask && depth_test == Some(DepthTest::Always) {
        seq![GlCommand::Disable(spec_depth_test_cap())]
    } else {
        seq![GlCommand::Enable(spec_depth_test_cap()), GlCommand::DepthMask(depth_mask)] + match
            depth_test {
            Some(t) => seq![GlCommand::DepthFunc(spec_depth_func(t))],
            None => Seq::empty(),
        }
    }
}

impl Cull {
    /// The calls that make a context cull as `self` says.
    pub fn commands(&self) -> (r: Vec<GlCommand>)
        ensures
            r@ == spec_cull_commands(*self),
    {
        match self {
            Cull::NoCulling => vec![GlCommand::Disable(glenum::gl_cull_face())],
            Cull::Back => vec![
                GlCommand::Enable(glenum::gl_cull_face()),
                GlCommand::CullFace(glenum::gl_back()),
            ],
            Cull::Front => vec![
                GlCommand::Enable(glenum::gl_cull_face()),
                GlCommand::CullFace(glenum::gl_front()),
            ],
            Cull::FrontAndBack => vec![
                GlCommand::Enable(glenum::gl_cull_face()),
                GlCommand::CullFace(glenum::gl_front_and_back()),
            ],
        }
    }
}

impl Default for Cull {
    fn default() -> (r: Self)
        ensures
            r == Cull::NoCulling,
    {
        Cull::NoCulling
    }
}

/// The comparison function of a depth test.
pub fn depth_func(t: DepthTest) -> (r: u32)
    ensures
        r == spec_depth_func(t),
{
    match t {
        DepthTest::Never => glenum::gl_never(),
        DepthTest::Less => glenum::gl_less(),
        DepthTest::Equal => glenum::gl_equal(),
        DepthTest::LessOrEqual => glenum::gl_lequal(),
        DepthTest::Greater => glenum::gl_greater(),
        DepthTest::NotEqual => glenum::gl_notequal(),
        DepthTest::GreaterOrEqual => glenum::gl_gequal(),
        DepthTest::Always => glenum::gl_always(),
    }
}

/// The calls that set the depth test (when one is given) and the depth write flag.
pub fn depth_commands(depth_test: Option<DepthTest>, depth_mask: bool) -> (r: Vec<GlCommand>)
    ensures
        r@ == spec_depth_commands(depth_test, depth_mask),
{
    if !depth_mask && depth_test == Some(DepthTest::Always) {
        vec![GlCommand::Disable(glenum::gl_depth_test())]
    } else {
        let mut r = vec![GlCommand::Enable(glenum::gl_depth_test()), GlCommand::DepthMask(depth_mask)];
        match depth_test {
            Some(t) => {
                r.push(GlCommand::DepthFunc(depth_func(t)));
            },
            None => {},
        }
        r
    }
}

impl DepthTest {
    /// The calls that apply this depth test together with the given depth write flag.
    pub fn commands(&self, depth_mask: bool) -> (r: Vec<GlCommand>)
        ensures
            r@ == spec_depth_commands(Some(*self), depth_mask),
    {
        depth_commands(Some(*self), depth_mask)
    }
}

impl Default for DepthTest {
    fn default() -> (r: Self)
        ensures
            r == DepthTest::Less,
    {
        DepthTest::Less
    }
}


/// Defines which channels (red, green, blue, alpha and depth) to write to in a render call.
#[derive(Debug, Copy, Clone, PartialEq, Eq, Structural)]
pub struct WriteMask {
    pub red: bool,
    pub green: bool,
    pub blue: bool,
    pub alpha: bool,
    pub depth: bool,
}

impl WriteMask {
    /// Writes to all channels (red, green, blue, alpha and depth).
    pub fn color_and_depth() -> (r: WriteMask)
        ensures
            r == (WriteMask { red: true, green: true, blue: true, alpha: true, depth: true }),
    {
        WriteMask { red: true, green: true, blue: true, alpha: true, depth: true }
    }

    /// Writes to all color channels (red, green, blue and alpha).
    pub fn color() -> (r: WriteMask)
        ensures
            r == (WriteMask { red: true, green: true, blue: true, alpha: true, depth: false }),
    {
        WriteMask { red: true, green: true, blue: true, alpha: true, depth: false }
    }

    /// Writes to the depth channel only.
    pub fn depth() -> (r: WriteMask)
        ensures
            r == (WriteMask { red: false, green: false, blue: false, alpha: false, depth: true }),
    {
        WriteMask { red: false, green: false, blue: false, alpha: false, depth: true }
    }

    /// Does not write to any channel.
    pub fn none() -> (r: WriteMask)
        ensures
            r == (WriteMask { red: false, green: false, blue: false, alpha: false, depth: false }),
    {
        WriteMask { red: false, green: false, blue: false, alpha: false, depth: false }
    }

    /// The calls that set the color write mask and the depth write flag.
    pub fn commands(&self) -> (r: Vec<GlCommand>)
        ensures
            r@ == seq![GlCommand::ColorMask(self.red, self.green, self.blue, self.alpha)]
                + spec_depth_commands(Option::None, self.depth),
    {
        let mut r = vec![GlCommand::ColorMask(self.red, self.green, self.blue, self.alpha)];
        let mut d = depth_commands(Option::None, self.depth);
        r.append(&mut d);
        r
    }
}

impl Default for WriteMask {
    fn default() -> (r: Self)
        ensures
            r == (WriteMask { red: true, green: true, blue: true, alpha: true, depth: true }),
    {
        WriteMask::color_and_depth()
    }
}


/// Defines which type of blending to use for a render call.
/// Blending allows combining each color channel of a render call with the color
/// already in the color channels of the render target.
#[derive(Debug, Copy, Clone, PartialEq, Eq, Structural)]
pub enum Blend {
    Enabled {
        source_rgb_multiplier: BlendMultiplierType,
        source_alpha_multiplier: BlendMultiplierType,
        destination_rgb_multiplier: BlendMultiplierType,
        destination_alpha_multiplier: BlendMultiplierType,
        rgb_equation: BlendEquationType,
        alpha_equation: BlendEquationType,
    },
    Disabled,
}

/// The calls that apply a blend state.
pub open spec fn spec_blend_commands(b: Blend) -> Seq<GlCommand> {
    match b {
        Blend::Enabled {
            source_rgb_multiplier,
            source_alpha_multiplier,
            destination_rgb_multiplier,
            destination_alpha_multiplier,
            rgb_equation,
            alpha_equation,
        } => seq![
            GlCommand::Enable(spec_blend_cap()),
            GlCommand::BlendFuncSeparate(
                spec_blend_factor(source_rgb_multiplier),
                spec_blend_factor(destination_rgb_multiplier),
                spec_blend_factor(source_alpha_multiplier),
                spec_blend_factor(destination_alpha_multiplier),
            ),
            GlCommand::BlendEquationSeparate(
                spec_blend_mode(rgb_equation),
                spec_blend_mode(alpha_equation),
            ),
        ],
        Blend::Disabled => seq![GlCommand::Disable(spec_blend_cap())],
    }
}

/// What blending asks of the graphics API: an enabled blend switches blending on,
/// then passes its multipliers in the order of `glBlendFuncSeparate` (source color,
/// destination color, source alpha, destination alpha), then its equations in the
/// order of `glBlendEquationSeparate` (color first, alpha second); a disabled
/// blend only switches blending off.
pub proof fn lemma_blend_call_arguments(b: Blend)
    ensures
        match b {
            Blend::Enabled {
                source_rgb_multiplier,
                source_alpha_multiplier,
                destination_rgb_multiplier,
                destination_alpha_multiplier,
                rgb_equation,
                alpha_equation,
            } => {
                &&& spec_blend_commands(b).len() == 3
                &&& spec_blend_commands(b)[0] == GlCommand::Enable(0x0BE2)
                &&& spec_blend_commands(b)[1] matches GlCommand::BlendFuncSeparate(
                    src_rgb,
                    dst_rgb,
                    src_alpha,
                    dst_alpha,
                ) && src_rgb == spec_blend_factor(source_rgb_multiplier) && dst_rgb
                    == spec_blend_factor(destination_rgb_multiplier) && src_alpha
                    == spec_blend_factor(source_alpha_multiplier) && dst_alpha == spec_blend_factor(
                    destination_alpha_multiplier,
                )
                &&& spec_blend_commands(b)[2] matches GlCommand::BlendEquationSeparate(
                    mode_rgb,
                    mode_alpha,
                ) && mode_rgb == spec_blend_mode(rgb_equation) && mode_alpha == spec_blend_mode(
                    alpha_equation,
                )
            },
            Blend::Disabled => spec_blend_commands(b) == seq![GlCommand::Disable(0x0BE2)],
        },
{
}

/// Different blend equations are different modes of the graphics API, and so are
/// different multipliers different factors: the calls of two blends differ when
/// their settings do.
pub proof fn lemma_blend_constants_distinct(
    e1: BlendEquationType,
    e2: BlendEquationType,
    m1: BlendMultiplierType,
    m2: BlendMultiplierType,
)
    ensures
        e1 != e2 ==> spec_blend_mode(e1) != spec_blend_mode(e2),
        m1 != m2 ==> spec_blend_factor(m1) != spec_blend_factor(m2),
{
}

impl Blend {
    /// Standard OpenGL transparency blending parameters, which for the usual case of
    /// seeing through objects do not work on web; use [Blend::transparency] there.
    pub fn standard_transparency() -> (r: Blend)
        ensures
            r == (Blend::Enabled {
                source_rgb_multiplier: BlendMultiplierType::SrcAlpha,
                source_alpha_multiplier: BlendMultiplierType::One,
                destination_rgb_multiplier: BlendMultiplierType::OneMinusSrcAlpha,
                destination_alpha_multiplier: BlendMultiplierType::Zero,
                rgb_equation: BlendEquationType::Add,
                alpha_equation: BlendEquationType::Add,
            }),
    {
        Blend::Enabled {
            source_rgb_multiplier: BlendMultiplierType::SrcAlpha,
            source_alpha_multiplier: BlendMultiplierType::One,
            destination_rgb_multiplier: BlendMultiplierType::OneMinusSrcAlpha,
            destination_alpha_multiplier: BlendMultiplierType::Zero,
            rgb_equation: BlendEquationType::Add,
            alpha_equation: BlendEquationType::Add,
        }
    }

    /// Transparency blending parameters that work on both desktop and web.
    pub fn transparency() -> (r: Blend)
        ensures
            r == (Blend::Enabled {
                source_rgb_multiplier: BlendMultiplierType::SrcAlpha,
                source_alpha_multiplier: BlendMultiplierType::Zero,
                destination_rgb_multiplier: BlendMultiplierType::OneMinusSrcAlpha,
                destination_alpha_multiplier: BlendMultiplierType::One,
                rgb_equation: BlendEquationType::Add,
                alpha_equation: BlendEquationType::Add,
            }),
    {
        Blend::Enabled {
            source_rgb_multiplier: BlendMultiplierType::SrcAlpha,
            source_alpha_multiplier: BlendMultiplierType::Zero,
            destination_rgb_multiplier: BlendMultiplierType::OneMinusSrcAlpha,
            destination_alpha_multiplier: BlendMultiplierType::One,
            rgb_equation: BlendEquationType::Add,
            alpha_equation: BlendEquationType::Add,
        }
    }

    /// Adds the color of the render target to the output color of the render call.
    pub fn add() -> (r: Blend)
        ensures
            r == (Blend::Enabled {
                source_rgb_multiplier: BlendMultiplierType::One,
                source_alpha_multiplier: BlendMultiplierType::One,
                destination_rgb_multiplier: BlendMultiplierType::One,
                destination_alpha_multiplier: BlendMultiplierType::One,
                rgb_equation: BlendEquationType::Add,
                alpha_equation: BlendEquationType::Add,
            }),
    {
        Blend::Enabled {
            source_rgb_multiplier: BlendMultiplierType::One,
            source_alpha_multiplier: BlendMultiplierType::One,
            destination_rgb_multiplier: BlendMultiplierType::One,
            destination_alpha_multiplier: BlendMultiplierType::One,
            rgb_equation: BlendEquationType::Add,
            alpha_equation: BlendEquationType::Add,
        }
    }

    /// The calls that apply this blend state.
    pub fn commands(&self) -> (r: Vec<GlCommand>)
        ensures
            r@ == spec_blend_commands(*self),
    {
        match *self {
            Blend::Enabled {
                source_rgb_multiplier,
                source_alpha_multiplier,
                destination_rgb_multiplier,
                destination_alpha_multiplier,
                rgb_equation,
                alpha_equation,
            } => vec![
                GlCommand::Enable(glenum::gl_blend()),
                GlCommand::BlendFuncSeparate(
                    Self::blend_const_from_multiplier(source_rgb_multiplier),
                    Self::blend_const_from_multiplier(destination_rgb_multiplier),
                    Self::blend_const_from_multiplier(source_alpha_multiplier),
                    Self::blend_const_from_multiplier(destination_alpha_multiplier),
                ),
                GlCommand::BlendEquationSeparate(
                    Self::blend_const_from_equation(rgb_equation),
                    Self::blend_const_from_equation(alpha_equation),
                ),
            ],
            Blend::Disabled => vec![GlCommand::Disable(glenum::gl_blend())],
        }
    }

    /// The OpenGL blend factor of a multiplier.
    pub fn blend_const_from_multiplier(multiplier: BlendMultiplierType) -> (r: u32)
        ensures
            r == spec_blend_factor(multiplier),
    {
        match multiplier {
            BlendMultiplierType::Zero => glenum::gl_zero(),
            BlendMultiplierType::One => glenum::gl_one(),
            BlendMultiplierType::SrcColor => glenum::gl_src_color(),
            BlendMultiplierType::OneMinusSrcColor => glenum::gl_one_minus_src_color(),
            BlendMultiplierType::DstColor => glenum::gl_dst_color(),
            BlendMultiplierType::OneMinusDstColor => glenum::gl_one_minus_dst_color(),
            BlendMultiplierType::SrcAlpha => glenum::gl_src_alpha(),
            BlendMultiplierType::OneMinusSrcAlpha => glenum::gl_one_minus_src_alpha(),
            BlendMultiplierType::DstAlpha => glenum::gl_dst_alpha(),
            BlendMultiplierType::OneMinusDstAlpha => glenum::gl_one_minus_dst_alpha(),
            BlendMultiplierType::SrcAlphaSaturate => glenum::gl_src_alpha_saturate(),
        }
    }

    /// The OpenGL blend equation mode of an equation.
    pub fn blend_const_from_equation(equation: BlendEquationType) -> (r: u32)
        ensures
            r == spec_blend_mode(equation),
    {
        match equation {
            BlendEquationType::Add => glenum::gl_func_add(),
            BlendEquationType::Subtract => glenum::gl_func_subtract(),
            BlendEquationType::ReverseSubtract => glenum::gl_func_reverse_subtract(),
            BlendEquationType::Min => glenum::gl_min(),
            BlendEquationType::Max => glenum::gl_max(),
        }
    }
}

impl Default for Blend {
    fn default() -> (r: Self)
        ensures
            r == Blend::Disabled,
    {
        Blend::Disabled
    }
}

/// A set of render specific states that has to be specified at each render call.
#[derive(Debug, Copy, Clone, PartialEq, Eq, Structural)]
pub struct RenderStates {
    /// Which channels (red, green, blue, alpha and depth) to write to.
    pub write_mask: WriteMask,
    /// The depth test of the render call.
    pub depth_test: DepthTest,
    /// The type of blending of the render call.
    pub blend: Blend,
    /// Which triangles to skip.
    pub cull: Cull,
}

/// The calls that put a context into the given render states, in the order in
/// which they are made: culling, write mask, depth test, blending.
pub open spec fn spec_render_states_commands(s: RenderStates) -> Seq<GlCommand> {
    spec_cull_commands(s.cull) + (seq![
        GlCommand::ColorMask(
            s.write_mask.red,
            s.write_mask.green,
            s.write_mask.blue,
            s.write_mask.alpha,
        ),
    ] + spec_depth_commands(Option::None, s.write_mask.depth)) + spec_depth_commands(
        Some(s.depth_test),
        s.write_mask.depth,
    ) + spec_blend_commands(s.blend)
}

impl RenderStates {
    /// The calls that apply these render states to a context.
    pub fn commands(&self) -> (r: Vec<GlCommand>)
        ensures
            r@ == spec_render_states_commands(*self),
    {
        let mut r = self.cull.commands();
        let mut w = self.write_mask.commands();
        r.append(&mut w);
        let mut d = self.depth_test.commands(self.write_mask.depth);
        r.append(&mut d);
        let mut b = self.blend.commands();
        r.append(&mut b);
        r
    }
}

impl Default for RenderStates {
    fn default() -> (r: Self)
        ensures
            r == (RenderStates {
                write_mask: WriteMask {
                    red: true,
                    green: true,
                    blue: true,
                    alpha: true,
                    depth: true,
                },
                depth_test: DepthTest::Less,
                blend: Blend::Disabled,
                cull: Cull::NoCulling,
            }),
    {
        RenderStates {
            write_mask: WriteMask::default(),
            depth_test: DepthTest::default(),
            blend: Blend::default(),
            cull: Cull::default(),
        }
    }
}

} // verus!
