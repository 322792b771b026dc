use three_d::error::Error;
use three_d::texture::{check_data_length, CPUTexture, Format, Interpolation, Wrapping};

#[test]
fn texture_defaults() {
    let t = CPUTexture::default();
    assert!(t.bytes.is_none());
    assert_eq!((t.width, t.height, t.depth), (1, 1, 1));
    assert_eq!(t.format, Format::RGBA8);
    assert_eq!(t.min_filter, Interpolation::Linear);
    assert_eq!(t.mag_filter, Interpolation::Linear);
    assert_eq!(t.mip_map_filter, Some(Interpolation::Linear));
    assert_eq!(t.wrap_s, Wrapping::Repeat);
    assert_eq!(t.wrap_t, Wrapping::Repeat);
    assert_eq!(t.wrap_r, Wrapping::Repeat);
}

#[test]
fn texture_enumerations_match_the_graphics_api() {
    assert_eq!(Interpolation::Nearest.to_const(), glow::NEAREST);
    assert_eq!(Interpolation::Linear.to_const(), glow::LINEAR);
    assert_eq!(Wrapping::Repeat.to_const(), glow::REPEAT);
    assert_eq!(Wrapping::MirroredRepeat.to_const(), glow::MIRRORED_REPEAT);
    assert_eq!(Wrapping::ClampToEdge.to_const(), glow::CLAMP_TO_EDGE);
    assert_eq!(Format::R8.to_const(), glow::R8);
    assert_eq!(Format::R32F.to_const(), glow::R32F);
    assert_eq!(Format::RGB8.to_const(), glow::RGB8);
    assert_eq!(Format::RGB32F.to_const(), glow::RGB32F);
    assert_eq!(Format::RGBA4.to_const(), glow::RGBA4);
    assert_eq!(Format::RGBA8.to_const(), glow::RGBA8);
    assert_eq!(Format::RGBA32F.to_const(), glow::RGBA32F);
    assert_eq!(Format::Depth16.to_const(), glow::DEPTH_COMPONENT16);
    assert_eq!(Format::Depth24.to_const(), glow::DEPTH_COMPONENT24);
    assert_eq!(Format::Depth32F.to_const(), glow::DEPTH_COMPONENT32F);
}

#[test]
fn data_of_the_right_length_passes() {
    assert!(check_data_length(2, 3, 1, 4, 24).is_ok());
    assert!(check_data_length(2, 2, 2, 1, 8).is_ok());
    assert!(check_data_length(2, 3, 1, 4, 27).is_ok());
}

#[test]
fn data_of_the_wrong_length_is_reported() {
    match check_data_length(2, 2, 1, 3, 6) {
        Err(Error::TextureError { message }) => assert_eq!(
            message,
            "Wrong size of data for the texture (got 2 pixels but expected 4 pixels)"
        ),
        _ => panic!("expected a texture error"),
    }
    match check_data_length(10, 10, 1, 1, 1234) {
        Err(e) => assert_eq!(
            e.message(),
            "Wrong size of data for the texture (got 1234 pixels but expected 100 pixels)"
        ),
        Ok(()) => panic!("expected a texture error"),
    }
}

#[test]
fn error_messages_of_every_kind() {
    let errors = vec![
        Error::ProgramError { message: "a".to_string() },
        Error::RenderTargetError { message: "b".to_string() },
        Error::TextureError { message: "c".to_string() },
        Error::BufferError { message: "d".to_string() },
        Error::MeshError { message: "e".to_string() },
        Error::CameraError { message: "f".to_string() },
    ];
    let messages: Vec<&str> = errors.iter().map(|e| e.message().as_str()).collect();
    assert_eq!(messages, vec!["a", "b", "c", "d", "e", "f"]);
}
