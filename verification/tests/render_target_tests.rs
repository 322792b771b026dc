use three_d::render_target::{
    blit_mask, clear_mask, draw_buffers, flip_y, multisample_samples_valid, power_of_two,
    read_pixel_size, size_with_mip, texture_layout, TextureLayout,
};

#[test]
fn powers_of_two() {
    assert_eq!(power_of_two(0), 1);
    assert_eq!(power_of_two(10), 1024);
    assert_eq!(power_of_two(31), 0x8000_0000);
}

#[test]
fn mip_levels_halve_the_size() {
    assert_eq!(size_with_mip(100, None), 100);
    assert_eq!(size_with_mip(100, Some(0)), 100);
    assert_eq!(size_with_mip(100, Some(1)), 50);
    assert_eq!(size_with_mip(100, Some(3)), 12);
    assert_eq!(size_with_mip(100, Some(7)), 0);
}

#[test]
fn sample_counts() {
    assert!(multisample_samples_valid(4, 8));
    assert!(multisample_samples_valid(0, 0));
    assert!(!multisample_samples_valid(16, 8));
    assert!(!multisample_samples_valid(3, 8));
    assert!(!multisample_samples_valid(6, 8));
}

#[test]
fn flip_rows_of_an_image() {
    let mut pixels = vec![1, 2, 3, 4, 5, 6, 99];
    flip_y(&mut pixels, 2, 3);
    assert_eq!(pixels, vec![5, 6, 3, 4, 1, 2, 99]);
    flip_y(&mut pixels, 2, 3);
    assert_eq!(pixels, vec![1, 2, 3, 4, 5, 6, 99]);
}

#[test]
fn flip_even_number_of_rows() {
    let mut pixels = vec![[1u8, 0, 0, 255], [2, 0, 0, 255], [3, 0, 0, 255], [4, 0, 0, 255]];
    flip_y(&mut pixels, 1, 4);
    assert_eq!(pixels[0][0], 4);
    assert_eq!(pixels[1][0], 3);
    assert_eq!(pixels[2][0], 2);
    assert_eq!(pixels[3][0], 1);
}

#[test]
fn flip_single_row_changes_nothing() {
    let mut pixels = vec![1.0f32, 2.0];
    flip_y(&mut pixels, 5, 1);
    assert_eq!(pixels, vec![1.0, 2.0]);
}

#[test]
fn texture_layouts() {
    assert_eq!(
        texture_layout(1, 1),
        TextureLayout {
            color_texture: true,
            depth_texture: true,
            color_texture_array: false,
            depth_texture_array: false
        }
    );
    assert_eq!(
        texture_layout(3, 1),
        TextureLayout {
            color_texture: false,
            depth_texture: false,
            color_texture_array: true,
            depth_texture_array: true
        }
    );
    assert_eq!(
        texture_layout(0, 2),
        TextureLayout {
            color_texture: false,
            depth_texture: false,
            color_texture_array: false,
            depth_texture_array: true
        }
    );
    assert_eq!(
        texture_layout(1, 0),
        TextureLayout {
            color_texture: true,
            depth_texture: false,
            color_texture_array: false,
            depth_texture_array: false
        }
    );
}

#[test]
fn draw_buffers_are_consecutive_attachments() {
    assert_eq!(draw_buffers(0), Vec::<u32>::new());
    assert_eq!(
        draw_buffers(3),
        vec![glow::COLOR_ATTACHMENT0, glow::COLOR_ATTACHMENT1, glow::COLOR_ATTACHMENT2]
    );
}

#[test]
fn clear_masks() {
    assert_eq!(clear_mask(true, true), Some(glow::COLOR_BUFFER_BIT | glow::DEPTH_BUFFER_BIT));
    assert_eq!(clear_mask(true, false), Some(glow::COLOR_BUFFER_BIT));
    assert_eq!(clear_mask(false, true), Some(glow::DEPTH_BUFFER_BIT));
    assert_eq!(clear_mask(false, false), None);
}

#[test]
fn blit_masks() {
    let both = glow::COLOR_BUFFER_BIT | glow::DEPTH_BUFFER_BIT;
    assert_eq!(blit_mask(true, true, false, false), both);
    assert_eq!(blit_mask(true, true, true, true), both);
    assert_eq!(blit_mask(true, true, true, false), glow::COLOR_BUFFER_BIT);
    assert_eq!(blit_mask(true, true, false, true), glow::DEPTH_BUFFER_BIT);
    assert_eq!(blit_mask(false, true, true, true), glow::DEPTH_BUFFER_BIT);
}

#[test]
fn read_back_sizes() {
    assert_eq!(read_pixel_size(1, 1), 4);
    assert_eq!(read_pixel_size(2, 2), 4);
    assert_eq!(read_pixel_size(3, 3), 3);
    assert_eq!(read_pixel_size(4, 4), 4);
    assert_eq!(read_pixel_size(4, 1), 4);
    assert_eq!(read_pixel_size(16, 4), 16);
}
