use three_d::camerahandler::{CameraHandler, CameraState};
use three_d::color::Color;
use three_d::scissor_box::{ScissorBox, Viewport};
use three_d::state::{
    BlendEquationType, BlendMultiplierType, BlendParameters, ColorMask, CullType, DepthTestType,
    RenderStates,
};
use three_d::uniform_buffer::UniformBuffer;

#[test]
fn scissor_box_at_origo() {
    let b = ScissorBox::new_at_origo(30, 40);
    assert_eq!(b, ScissorBox { x: 0, y: 0, width: 30, height: 40 });
    assert_eq!(Viewport::new_at_origo(3, 4), Viewport { x: 0, y: 0, width: 3, height: 4 });
}

#[test]
fn overlapping_scissor_boxes_intersect() {
    let a = ScissorBox { x: 0, y: 0, width: 10, height: 10 };
    let b = ScissorBox { x: 5, y: -5, width: 10, height: 10 };
    let expected = ScissorBox { x: 5, y: 0, width: 5, height: 5 };
    assert_eq!(a.intersection(b), expected);
    assert_eq!(b.intersection(a), expected);
}

#[test]
fn disjoint_scissor_boxes_give_an_empty_box() {
    let a = ScissorBox { x: 0, y: 0, width: 2, height: 2 };
    let b = ScissorBox { x: 5, y: 5, width: 1, height: 1 };
    let r = a.intersection(b);
    assert_eq!(r.width, 0);
    assert_eq!(r.height, 0);
}

#[test]
fn intersection_with_itself_is_itself() {
    let a = ScissorBox { x: -7, y: 3, width: 11, height: 2 };
    assert_eq!(a.intersection(a), a);
}

#[test]
fn viewport_and_scissor_box_convert_both_ways() {
    let v = Viewport { x: 1, y: 2, width: 3, height: 4 };
    let b: ScissorBox = v.into();
    assert_eq!(b, ScissorBox { x: 1, y: 2, width: 3, height: 4 });
    let back: Viewport = b.into();
    assert_eq!(back, v);
}

#[test]
fn uniform_buffer_starts_at_zero() {
    let b = UniformBuffer::new(&[3, 1, 4, 16]);
    assert_eq!(b.get(0), Some(&[0u32, 0, 0][..]));
    assert_eq!(b.get(1), Some(&[0u32][..]));
    assert_eq!(b.get(3).map(|s| s.len()), Some(16));
    assert_eq!(b.get(4), None);
}

#[test]
fn uniform_buffer_read_after_update() {
    let mut b = UniformBuffer::new(&[2, 3, 1]);
    b.update(1, &[7, 8, 9]);
    assert_eq!(b.get(1), Some(&[7u32, 8, 9][..]));
    assert_eq!(b.get(0), Some(&[0u32, 0][..]));
    assert_eq!(b.get(2), Some(&[0u32][..]));
    b.update(2, &[5]);
    assert_eq!(b.get(2), Some(&[5u32][..]));
    assert_eq!(b.get(1), Some(&[7u32, 8, 9][..]));
}

#[test]
fn uniform_buffer_with_empty_variable() {
    let b = UniformBuffer::new(&[0, 2]);
    assert_eq!(b.get(0), Some(&[][..]));
    assert_eq!(b.get(1), Some(&[0u32, 0][..]));
}

#[test]
fn camera_handler_switches_modes() {
    let mut h = CameraHandler::create();
    assert_eq!(h.state, CameraState::FIRST);
    h.next_state();
    assert_eq!(h.state, CameraState::SPHERICAL);
    h.next_state();
    assert_eq!(h.state, CameraState::FIRST);
    h.set_state(CameraState::SPHERICAL);
    assert_eq!(h.state, CameraState::SPHERICAL);
}

#[test]
fn colors() {
    assert_eq!(Color::new_opaque(1, 2, 3), Color { r: 1, g: 2, b: 3, a: 255 });
    assert_eq!(Color::new(1, 2, 3, 4), Color { r: 1, g: 2, b: 3, a: 4 });
    assert_eq!(Color::red(), Color { r: 255, g: 0, b: 0, a: 255 });
    assert_eq!(Color::green(), Color { r: 0, g: 255, b: 0, a: 255 });
    assert_eq!(Color::blue(), Color { r: 0, g: 0, b: 255, a: 255 });
    assert_eq!(Color::black(), Color { r: 0, g: 0, b: 0, a: 255 });
    assert_eq!(Color::default(), Color::white());
}

#[test]
fn old_render_states_defaults() {
    let s = RenderStates::default();
    assert_eq!(s.color_mask, ColorMask { red: true, green: true, blue: true, alpha: true });
    assert!(s.depth_mask);
    assert_eq!(s.depth_test, DepthTestType::Less);
    assert_eq!(s.cull, CullType::NoCulling);
    assert_eq!(s.viewport, three_d::state::Viewport { x: 0, y: 0, width: 1024, height: 1024 });
    assert_eq!(s.blend, None);
    assert_eq!(three_d::state::Viewport::new(8, 9).width, 8);
}

#[test]
fn blend_parameters_share_color_and_alpha() {
    let p = BlendParameters::new(
        BlendEquationType::Max,
        BlendMultiplierType::SrcAlpha,
        BlendMultiplierType::DstColor,
    );
    assert_eq!(p.source_rgb_multiplier, BlendMultiplierType::SrcAlpha);
    assert_eq!(p.source_alpha_multiplier, BlendMultiplierType::SrcAlpha);
    assert_eq!(p.destination_alpha_multiplier, BlendMultiplierType::DstColor);
    assert_eq!(p.alpha_equation, BlendEquationType::Max);
    let d = BlendParameters::default();
    assert_eq!(d.source_rgb_multiplier, BlendMultiplierType::One);
    assert_eq!(d.destination_rgb_multiplier, BlendMultiplierType::Zero);
    assert_eq!(d.rgb_equation, BlendEquationType::Add);
}
