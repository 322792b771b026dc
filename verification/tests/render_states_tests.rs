use three_d::command::GlCommand;
use three_d::render_states::{
    depth_commands, depth_func, Blend, BlendEquationType, BlendMultiplierType, Cull, DepthTest,
    RenderStates, WriteMask,
};

#[test]
fn cull_back_enables_culling_of_back_faces() {
    assert_eq!(
        Cull::Back.commands(),
        vec![GlCommand::Enable(glow::CULL_FACE), GlCommand::CullFace(glow::BACK)]
    );
}

#[test]
fn cull_front_and_front_and_back() {
    assert_eq!(
        Cull::Front.commands(),
        vec![GlCommand::Enable(glow::CULL_FACE), GlCommand::CullFace(glow::FRONT)]
    );
    assert_eq!(
        Cull::FrontAndBack.commands(),
        vec![GlCommand::Enable(glow::CULL_FACE), GlCommand::CullFace(glow::FRONT_AND_BACK)]
    );
}

#[test]
fn no_culling_disables_culling() {
    assert_eq!(Cull::NoCulling.commands(), vec![GlCommand::Disable(0x0B44)]);
    assert_eq!(Cull::default(), Cull::NoCulling);
}

#[test]
fn depth_functions_match_the_graphics_api() {
    assert_eq!(depth_func(DepthTest::Never), glow::NEVER);
    assert_eq!(depth_func(DepthTest::Less), glow::LESS);
    assert_eq!(depth_func(DepthTest::Equal), glow::EQUAL);
    assert_eq!(depth_func(DepthTest::LessOrEqual), glow::LEQUAL);
    assert_eq!(depth_func(DepthTest::Greater), glow::GREATER);
    assert_eq!(depth_func(DepthTest::NotEqual), glow::NOTEQUAL);
    assert_eq!(depth_func(DepthTest::GreaterOrEqual), glow::GEQUAL);
    assert_eq!(depth_func(DepthTest::Always), glow::ALWAYS);
}

#[test]
fn depth_test_always_without_depth_writes_is_switched_off() {
    assert_eq!(DepthTest::Always.commands(false), vec![GlCommand::Disable(glow::DEPTH_TEST)]);
}

#[test]
fn depth_test_with_depth_writes_is_enabled() {
    assert_eq!(
        DepthTest::Less.commands(true),
        vec![
            GlCommand::Enable(glow::DEPTH_TEST),
            GlCommand::DepthMask(true),
            GlCommand::DepthFunc(glow::LESS),
        ]
    );
    assert_eq!(
        DepthTest::Always.commands(true),
        vec![
            GlCommand::Enable(glow::DEPTH_TEST),
            GlCommand::DepthMask(true),
            GlCommand::DepthFunc(glow::ALWAYS),
        ]
    );
}

#[test]
fn depth_mask_alone_keeps_the_test_enabled() {
    assert_eq!(
        depth_commands(None, false),
        vec![GlCommand::Enable(glow::DEPTH_TEST), GlCommand::DepthMask(false)]
    );
}

#[test]
fn write_mask_constructors() {
    let all = WriteMask::color_and_depth();
    assert!(all.red && all.green && all.blue && all.alpha && all.depth);
    let c = WriteMask::color();
    assert!(c.red && c.green && c.blue && c.alpha && !c.depth);
    let d = WriteMask::depth();
    assert!(!d.red && !d.green && !d.blue && !d.alpha && d.depth);
    let n = WriteMask::none();
    assert!(!n.red && !n.green && !n.blue && !n.alpha && !n.depth);
    assert_eq!(WriteMask::default(), WriteMask::color_and_depth());
}

#[test]
fn write_mask_commands_set_color_and_depth_writes() {
    assert_eq!(
        WriteMask::color().commands(),
        vec![
            GlCommand::ColorMask(true, true, true, true),
            GlCommand::Enable(glow::DEPTH_TEST),
            GlCommand::DepthMask(false),
        ]
    );
}

#[test]
fn blend_constants_match_the_graphics_api() {
    type M = BlendMultiplierType;
    let pairs = [
        (M::Zero, glow::ZERO),
        (M::One, glow::ONE),
        (M::SrcColor, glow::SRC_COLOR),
        (M::OneMinusSrcColor, glow::ONE_MINUS_SRC_COLOR),
        (M::DstColor, glow::DST_COLOR),
        (M::OneMinusDstColor, glow::ONE_MINUS_DST_COLOR),
        (M::SrcAlpha, glow::SRC_ALPHA),
        (M::OneMinusSrcAlpha, glow::ONE_MINUS_SRC_ALPHA),
        (M::DstAlpha, glow::DST_ALPHA),
        (M::OneMinusDstAlpha, glow::ONE_MINUS_DST_ALPHA),
        (M::SrcAlphaSaturate, glow::SRC_ALPHA_SATURATE),
    ];
    for (m, c) in pairs.iter() {
        assert_eq!(Blend::blend_const_from_multiplier(*m), *c);
    }
    assert_eq!(Blend::blend_const_from_equation(BlendEquationType::Add), glow::FUNC_ADD);
    assert_eq!(Blend::blend_const_from_equation(BlendEquationType::Subtract), glow::FUNC_SUBTRACT);
    assert_eq!(
        Blend::blend_const_from_equation(BlendEquationType::ReverseSubtract),
        glow::FUNC_REVERSE_SUBTRACT
    );
    assert_eq!(Blend::blend_const_from_equation(BlendEquationType::Min), glow::MIN);
    assert_eq!(Blend::blend_const_from_equation(BlendEquationType::Max), glow::MAX);
}

#[test]
fn transparency_blend_commands() {
    assert_eq!(
        Blend::transparency().commands(),
        vec![
            GlCommand::Enable(glow::BLEND),
            GlCommand::BlendFuncSeparate(
                glow::SRC_ALPHA,
                glow::ONE_MINUS_SRC_ALPHA,
                glow::ZERO,
                glow::ONE
            ),
            GlCommand::BlendEquationSeparate(glow::FUNC_ADD, glow::FUNC_ADD),
        ]
    );
    assert_eq!(Blend::Disabled.commands(), vec![GlCommand::Disable(glow::BLEND)]);
    assert_eq!(Blend::default(), Blend::Disabled);
}

#[test]
fn standard_transparency_and_add_parameters() {
    assert_eq!(
        Blend::standard_transparency(),
        Blend::Enabled {
            source_rgb_multiplier: BlendMultiplierType::SrcAlpha,
            source_alpha_multiplier: BlendMultiplierType::One,
            destination_rgb_multiplier: BlendMultiplierType::OneMinusSrcAlpha,
            destination_alpha_multiplier: BlendMultiplierType::Zero,
            rgb_equation: BlendEquationType::Add,
            alpha_equation: BlendEquationType::Add,
        }
    );
    assert_eq!(
        Blend::add().commands()[1],
        GlCommand::BlendFuncSeparate(glow::ONE, glow::ONE, glow::ONE, glow::ONE)
    );
}

#[test]
fn default_render_states_commands() {
    let states = RenderStates::default();
    assert_eq!(states.write_mask, WriteMask::color_and_depth());
    assert_eq!(states.depth_test, DepthTest::Less);
    assert_eq!(
        states.commands(),
        vec![
            GlCommand::Disable(glow::CULL_FACE),
            GlCommand::ColorMask(true, true, true, true),
            GlCommand::Enable(glow::DEPTH_TEST),
            GlCommand::DepthMask(true),
            GlCommand::Enable(glow::DEPTH_TEST),
            GlCommand::DepthMask(true),
            GlCommand::DepthFunc(glow::LESS),
            GlCommand::Disable(glow::BLEND),
        ]
    );
}
