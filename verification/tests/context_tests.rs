use three_d::command::GlCommand;
use three_d::context::{
    depth_test_commands, error_check, framebuffer_check, render_states_commands, scissor_commands,
    viewport_commands, write_mask_commands,
};
use three_d::error::CoreError;
use three_d::render_states::{Blend, Cull, DepthTest, RenderStates, WriteMask};
use three_d::scissor_box::{ScissorBox, Viewport};

#[test]
fn scissor_box_with_area_enables_the_test() {
    let b = ScissorBox { x: 2, y: -3, width: 10, height: 20 };
    assert_eq!(
        scissor_commands(b),
        vec![GlCommand::Enable(glow::SCISSOR_TEST), GlCommand::Scissor(2, -3, 10, 20)]
    );
}

#[test]
fn empty_scissor_box_disables_the_test() {
    let b = ScissorBox { x: 0, y: 0, width: 0, height: 20 };
    assert_eq!(scissor_commands(b), vec![GlCommand::Disable(glow::SCISSOR_TEST)]);
    let b = ScissorBox { x: 0, y: 0, width: 5, height: 0 };
    assert_eq!(scissor_commands(b), vec![GlCommand::Disable(glow::SCISSOR_TEST)]);
}

#[test]
fn viewport_is_passed_on() {
    let v = Viewport { x: -1, y: 4, width: 640, height: 480 };
    assert_eq!(viewport_commands(v), vec![GlCommand::Viewport(-1, 4, 640, 480)]);
}

#[test]
fn context_write_mask_sets_both_masks() {
    assert_eq!(
        write_mask_commands(WriteMask::depth()),
        vec![GlCommand::ColorMask(false, false, false, false), GlCommand::DepthMask(true)]
    );
}

#[test]
fn context_depth_test_enables_and_sets_function() {
    assert_eq!(
        depth_test_commands(DepthTest::GreaterOrEqual),
        vec![GlCommand::Enable(glow::DEPTH_TEST), GlCommand::DepthFunc(glow::GEQUAL)]
    );
}

#[test]
fn context_render_states_with_depth_writes() {
    let states = RenderStates {
        write_mask: WriteMask::color_and_depth(),
        depth_test: DepthTest::LessOrEqual,
        blend: Blend::Disabled,
        cull: Cull::Back,
    };
    assert_eq!(
        render_states_commands(states),
        vec![
            GlCommand::Enable(glow::CULL_FACE),
            GlCommand::CullFace(glow::BACK),
            GlCommand::ColorMask(true, true, true, true),
            GlCommand::DepthMask(true),
            GlCommand::Enable(glow::DEPTH_TEST),
            GlCommand::DepthFunc(glow::LEQUAL),
            GlCommand::Disable(glow::BLEND),
        ]
    );
}

#[test]
fn context_render_states_without_depth_writes_disable_depth_test() {
    let states = RenderStates {
        write_mask: WriteMask::color(),
        depth_test: DepthTest::Less,
        blend: Blend::add(),
        cull: Cull::NoCulling,
    };
    let commands = render_states_commands(states);
    assert!(commands.contains(&GlCommand::Disable(glow::DEPTH_TEST)));
    assert!(!commands.contains(&GlCommand::Enable(glow::DEPTH_TEST)));
    assert_eq!(commands[0], GlCommand::Disable(glow::CULL_FACE));
    assert_eq!(commands[4], GlCommand::Enable(glow::BLEND));
}

#[test]
fn no_error_is_ok() {
    assert_eq!(error_check(glow::NO_ERROR), Ok(()));
}

#[test]
fn error_codes_are_described() {
    let cases = [
        (glow::INVALID_ENUM, "Invalid enum"),
        (glow::INVALID_VALUE, "Invalid value"),
        (glow::INVALID_OPERATION, "Invalid operation"),
        (glow::INVALID_FRAMEBUFFER_OPERATION, "Invalid framebuffer operation"),
        (glow::OUT_OF_MEMORY, "Out of memory"),
        (glow::STACK_OVERFLOW, "Stack overflow"),
        (glow::STACK_UNDERFLOW, "Stack underflow"),
        (12345, "Unknown"),
    ];
    for (code, text) in cases.iter() {
        assert_eq!(error_check(*code), Err(CoreError::ContextError(text.to_string())));
    }
}

#[test]
fn complete_framebuffer_is_ok() {
    assert_eq!(framebuffer_check(glow::FRAMEBUFFER_COMPLETE), Ok(()));
}

#[test]
fn incomplete_framebuffers_are_named() {
    let cases = [
        (glow::FRAMEBUFFER_INCOMPLETE_ATTACHMENT, "FRAMEBUFFER_INCOMPLETE_ATTACHMENT"),
        (glow::FRAMEBUFFER_INCOMPLETE_DRAW_BUFFER, "FRAMEBUFFER_INCOMPLETE_DRAW_BUFFER"),
        (
            glow::FRAMEBUFFER_INCOMPLETE_MISSING_ATTACHMENT,
            "FRAMEBUFFER_INCOMPLETE_MISSING_ATTACHMENT",
        ),
        (glow::FRAMEBUFFER_UNSUPPORTED, "FRAMEBUFFER_UNSUPPORTED"),
        (glow::FRAMEBUFFER_UNDEFINED, "FRAMEBUFFER_UNDEFINED"),
        (glow::FRAMEBUFFER_INCOMPLETE_READ_BUFFER, "FRAMEBUFFER_INCOMPLETE_READ_BUFFER"),
        (glow::FRAMEBUFFER_INCOMPLETE_MULTISAMPLE, "FRAMEBUFFER_INCOMPLETE_MULTISAMPLE"),
        (glow::FRAMEBUFFER_INCOMPLETE_LAYER_TARGETS, "FRAMEBUFFER_INCOMPLETE_LAYER_TARGETS"),
        (0, "Unknown framebuffer error"),
    ];
    for (status, name) in cases.iter() {
        assert_eq!(
            framebuffer_check(*status),
            Err(CoreError::RenderTargetCreation(name.to_string()))
        );
    }
}
