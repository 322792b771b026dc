//! The graphics API calls that the state-setting logic of this crate decides on.
//!
//! The library does not talk to the GPU itself: each state change is described as
//! a list of [`GlCommand`] values, which the caller executes in order on its
//! graphics context.

use vstd::prelude::*;

verus! {

/// One call into the OpenGL/WebGL state machine.
#[derive(Debug, Clone, Copy, PartialEq, Eq, Structural)]
pub enum GlCommand {
    /// `glEnable(cap)`.
    Enable(u32),
    /// `glDisable(cap)`.
    Disable(u32),
    /// `glCullFace(mode)`.
    CullFace(u32),
    /// `glDepthFunc(func)`.
    DepthFunc(u32),
    /// `glDepthMask(flag)`.
    DepthMask(bool),
    /// `glColorMask(red, green, blue, alpha)`.
    ColorMask(bool, bool, bool, bool),
    /// `glBlendFuncSeparate(src_rgb, dst_rgb, src_alpha, dst_alpha)`.
    BlendFuncSeparate(u32, u32, u32, u32),
    /// `glBlendEquationSeparate(mode_rgb, mode_alpha)`.
    BlendEquationSeparate(u32, u32),
    /// `glScissor(x, y, width, height)`.
    Scissor(i32, i32, i32, i32),
    /// `glViewport(x, y, width, height)`.
    Viewport(i32, i32, i32, i32),
}

} // verus!
