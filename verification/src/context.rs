//! The state changes a rendering context makes before each render call, and how it
//! reads the error and framebuffer status codes the driver reports.
//!
//! Every setter returns the graphics API calls it stands for, in order; the
//! caller performs them on its graphics context.

use vstd::prelude::*;

use crate::command::GlCommand;
use crate::error::CoreError;
use crate::glenum;
use crate::ogl::{framebuffer_status, spec_framebuffer_status_name};
use crate::render_states::{
    spec_blend_commands, spec_cull_commands, spec_depth_func, spec_depth_test_cap, DepthTest,
    RenderStates, WriteMask,
};
use crate::scissor_box::{ScissorBox, Viewport};

verus! {

/// `GL_SCISSOR_TEST`.
pub open spec fn spec_scissor_test_cap() -> u32 {
    0x0C11
}

/// The calls that set the scissor test: a box with a positive width and height is
/// enabled with its rectangle; any other box switches the test off.
pub open spec fn spec_scissor_commands(b: ScissorBox) -> Seq<GlCommand> {
    if b.width > 0 && b.height > 0 {
        seq![
            GlCommand::Enable(spec_scissor_test_cap()),
            GlCommand::Scissor(b.x, b.y, b.width as i32, b.height as i32),
        ]
    } else {
        seq![GlCommand::Disable(spec_scissor_test_cap())]
    }
}

/// The calls that set the scissor test of a context (see [ScissorBox]).
pub fn scissor_commands(scissor_box: ScissorBox) -> (r: Vec<GlCommand>)
    ensures
        r@ == spec_scissor_commands(scissor_box),
{
    if scissor_box.width > 0 && scissor_box.height > 0 {
        vec![
            GlCommand::Enable(glenum::gl_scissor_test()),
            GlCommand::Scissor(
                scissor_box.x,
                scissor_box.y,
                scissor_box.width as i32,
                scissor_box.height as i32,
            ),
        ]
    } else {
        vec![GlCommand::Disable(glenum::gl_scissor_test())]
    }
}

/// The call that sets the viewport of a context (see [Viewport]).
pub fn viewport_commands(viewport: Viewport) -> (r: Vec<GlCommand>)
    ensures
        r@ == seq![
            GlCommand::Viewport(
                viewport.x,
                viewport.y,
                viewport.width as i32,
                viewport.height as i32,
            ),
        ],
{
    vec![
        GlCommand::Viewport(viewport.x, viewport.y, viewport.width as i32, viewport.height as i32),
    ]
}

/// The calls that set the color and depth write masks of a context.
pub open spec fn spec_write_mask_commands(m: WriteMask) -> Seq<GlCommand> {
    seq![GlCommand::ColorMask(m.red, m.green, m.blue, m.alpha), GlCommand::DepthMask(m.depth)]
}

/// The calls that set the write mask of a context (see [WriteMask]).
pub fn write_mask_commands(write_mask: WriteMask) -> (r: Vec<GlCommand>)
    ensures
        r@ == spec_write_mask_commands(write_mask),
{
    vec![
        GlCommand::ColorMask(write_mask.red, write_mask.green, write_mask.blue, write_mask.alpha),
        GlCommand::DepthMask(write_mask.depth),
    ]
}

/// The calls that switch the depth test on with the given comparison.
pub open spec fn spec_depth_test_commands(t: DepthTest) -> Seq<GlCommand> {
    seq![GlCommand::Enable(spec_depth_test_cap()), GlCommand::DepthFunc(spec_depth_func(t))]
}

/// The calls that set the depth test of a context (see [DepthTest]).
pub fn depth_test_commands(depth_test: DepthTest) -> (r: Vec<GlCommand>)
    ensures
        r@ == spec_depth_test_commands(depth_test),
{
    vec![
        GlCommand::Enable(glenum::gl_depth_test()),
        GlCommand::DepthFunc(crate::render_states::depth_func(depth_test)),
    ]
}

/// The calls that put a context into the given render states: culling, write
/// mask, then the depth test (switched off when depth is not written), then
/// blending.
pub open spec fn spec_context_render_states_commands(s: RenderStates) -> Seq<GlCommand> {
    spec_cull_commands(s.cull) + spec_write_mask_commands(s.write_mask) + (if s.write_mask.depth {
        spec_depth_test_commands(s.depth_test)
    } else {
        seq![GlCommand::Disable(spec_depth_test_cap())]
    }) + spec_blend_commands(s.blend)
}

/// The calls that set the render states of a context (see [RenderStates]).
pub fn render_states_commands(render_states: RenderStates) -> (r: Vec<GlCommand>)
    ensures
        r@ == spec_context_render_states_commands(render_states),
        render_states.write_mask.depth <==> r@.contains(
            GlCommand::Enable(spec_depth_test_cap()),
        ),
{
    let mut r = render_states.cull.commands();
    let mut w = write_mask_commands(render_states.write_mask);
    r.append(&mut w);
    let mut d = if render_states.write_mask.depth {
        depth_test_commands(render_states.depth_test)
    } else {
        vec![GlCommand::Disable(glenum::gl_depth_test())]
    };
    r.append(&mut d);
    let mut b = render_states.blend.commands();
    r.append(&mut b);
    proof {
        let c = spec_cull_commands(render_states.cull);
        let m = spec_write_mask_commands(render_states.write_mask);
        let bl = spec_blend_commands(render_states.blend);
        let e = GlCommand::Enable(spec_depth_test_cap());
        let i: int = (c.len() + m.len()) as int;
        if render_states.write_mask.depth {
            assert(r@[i] == e);
        } else {
            assert forall|k: int| 0 <= k < r@.len() implies r@[k] != e by {
                if k < c.len() {
                    assert(r@[k] == c[k]);
                } else if k < i {
                    assert(r@[k] == m[k - c.len()]);
                } else if k == i {
                } else {
                    assert(r@[k] == bl[k - i - 1]);
                }
            }
        }
    }
    r
}

/// The description of an error code of the graphics API, `None` for no error.
pub open spec fn spec_error_description(error: u32) -> Option<Seq<char>> {
    if error == 0 {
        None
    } else if error == 0x0500 {
        Some("Invalid enum"@)
    } else if error == 0x0501 {
        Some("Invalid value"@)
    } else if error == 0x0502 {
        Some("Invalid operation"@)
    } else if error == 0x0506 {
        Some("Invalid framebuffer operation"@)
    } else if error == 0x0505 {
        Some("Out of memory"@)
    } else if error == 0x0503 {
        Some("Stack overflow"@)
    } else if error == 0x0504 {
        Some("Stack underflow"@)
    } else {
        Some("Unknown"@)
    }
}

/// Reads the error code that the graphics API reported: `Ok` for no error, else a
/// [CoreError::ContextError] that describes it.
pub fn error_check(error: u32) -> (r: Result<(), CoreError>)
    ensures
        match spec_error_description(error) {
            None => r is Ok,
            Some(d) => r matches Err(CoreError::ContextError(s)) && s@ == d,
        },
        r is Ok <==> error == 0,
{
    if error == glenum::gl_no_error() {
        return Ok(());
    }
    let description = if error == glenum::gl_invalid_enum() {
        "Invalid enum"
    } else if error == glenum::gl_invalid_value() {
        "Invalid value"
    } else if error == glenum::gl_invalid_operation() {
        "Invalid operation"
    } else if error == glenum::gl_invalid_framebuffer_operation() {
        "Invalid framebuffer operation"
    } else if error == glenum::gl_out_of_memory() {
        "Out of memory"
    } else if error == glenum::gl_stack_overflow() {
        "Stack overflow"
    } else if error == glenum::gl_stack_underflow() {
        "Stack underflow"
    } else {
        "Unknown"
    };
    Err(CoreError::ContextError(String::from_str(description)))
}

/// Reads the status of the bound framebuffer: `Ok` when it is complete, else a
/// [CoreError::RenderTargetCreation] that names the status.
pub fn framebuffer_check(status: u32) -> (r: Result<(), CoreError>)
    ensures
        match spec_framebuffer_status_name(status) {
            None => r is Ok,
            Some(name) => r matches Err(CoreError::RenderTargetCreation(s)) && s@ == name,
        },
        r is Ok <==> status == 0x8CD5,
{
    match framebuffer_status(status) {
        Ok(()) => Ok(()),
        Err(message) => Err(CoreError::RenderTargetCreation(message)),
    }
}

} // verus!
