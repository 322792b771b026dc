//! Sizes and sample counts of render targets.

use vstd::prelude::*;

use vstd::arithmetic::div_mod::{lemma_fundamental_div_mod, lemma_mod_pos_bound};
use vstd::arithmetic::power2::{
    lemma2_to64, lemma_pow2_pos, lemma_pow2_strictly_increases, lemma_pow2_unfold, pow2,
};

use crate::glenum;

verus! {

/// The screen render target, which is essential to get something on the screen;
/// the render targets of a window's frame take its place.
pub struct Screen {}

/// The size of a texture at a mip level: halved once per level, rounded down.
pub open spec fn spec_size_with_mip(size: u32, mip: Option<u32>) -> int {
    match mip {
        Some(m) => size as int / pow2(m as nat) as int,
        None => size as int,
    }
}

/// Two to the given power, for powers that fit in 32 bits.
pub fn power_of_two(exponent: u32) -> (r: u32)
    requires
        exponent < 32,
    ensures
        r == pow2(exponent as nat),
{
    proof {
        lemma2_to64();
    }
    let mut p: u32 = 1;
    let mut i: u32 = 0;
    while i < exponent
        invariant
            i <= exponent < 32,
            p == pow2(i as nat),
            pow2(31) == 0x8000_0000,
        decreases exponent - i,
    {
        proof {
            lemma_pow2_unfold((i + 1) as nat);
            if i + 1 < 31 {
                lemma_pow2_strictly_increases((i + 1) as nat, 31);
            }
        }
        p = p * 2;
        i = i + 1;
    }
    p
}

/// The size of a target at the given mip level, or the full size when no level is
/// given.
pub fn size_with_mip(size: u32, mip: Option<u32>) -> (r: u32)
    requires
        mip matches Some(m) ==> m < 32,
    ensures
        r == spec_size_with_mip(size, mip),
{
    match mip {
        Some(m) => {
            let p = power_of_two(m);
            proof {
                lemma_pow2_pos(m as nat);
            }
            size / p
        },
        None => size,
    }
}

/// Whether a multisample target may use the given number of samples: no more than
/// the graphics context supports, and zero or a power of two.
pub open spec fn spec_samples_valid(number_of_samples: u32, max_samples: u32) -> bool {
    &&& number_of_samples <= max_samples
    &&& (number_of_samples == 0 || number_of_samples & ((number_of_samples - 1) as u32) == 0)
}

/// Checks the number of samples of a multisample target against the largest
/// number the context supports; the number must also be zero or a power of two.
pub fn multisample_samples_valid(number_of_samples: u32, max_samples: u32) -> (r: bool)
    ensures
        r == spec_samples_valid(number_of_samples, max_samples),
{
    if number_of_samples > max_samples {
        return false;
    }
    number_of_samples == 0 || number_of_samples & (number_of_samples - 1) == 0
}

/// Every power of two up to the largest 32 bit one passes the power of two test,
/// and so does zero.
pub proof fn lemma_powers_of_two_are_valid_sample_counts(k: u32)
    requires
        k < 32,
    ensures
        spec_samples_valid(1u32 << k, u32::MAX),
        spec_samples_valid(0, 0),
{
    assert(((1u32 << k) & (((1u32 << k) - 1) as u32)) == 0 && (1u32 << k) != 0) by (bit_vector)
        requires
            k < 32,
    ;
}

/// A number of samples that is not zero and shares a bit with the number below it
/// is refused, whatever the context supports: three samples never pass.
pub proof fn lemma_three_samples_refused(max_samples: u32)
    ensures
        !spec_samples_valid(3, max_samples),
{
    assert((3u32 & 2u32) == 2) by (bit_vector);
}

/// The position in a row-major pixel buffer of the pixel in the given row and
/// column of an image `width` pixels wide.
pub open spec fn pixel_index(width: int, row: int, col: int) -> int {
    width * row + col
}

/// `after` is `before` with the rows of its first `width * height` pixels in
/// reverse order, and every pixel past them left as it was.
pub open spec fn is_flipped_y<T>(before: Seq<T>, after: Seq<T>, width: int, height: int) -> bool {
    &&& after.len() == before.len()
    &&& forall|row: int, col: int|
        0 <= row < height && 0 <= col < width && pixel_index(width, row, col) < before.len()
            ==> #[trigger] after[pixel_index(width, row, col)] == before[pixel_index(
            width,
            height - 1 - row,
            col,
        )]
    &&& forall|k: int| width * height <= k < before.len() ==> after[k] == before[k]
}

/// Two pixels of an image are at the same place in the buffer only if they are in
/// the same row and column.
proof fn lemma_pixel_index_injective(width: int, r1: int, c1: int, r2: int, c2: int)
    requires
        0 <= c1 < width,
        0 <= c2 < width,
        0 <= r1,
        0 <= r2,
        pixel_index(width, r1, c1) == pixel_index(width, r2, c2),
    ensures
        r1 == r2,
        c1 == c2,
{
    if r1 < r2 {
        assert(width * r1 + width <= width * r2) by (nonlinear_arith)
            requires
                r1 < r2,
                0 < width,
        ;
    } else if r2 < r1 {
        assert(width * r2 + width <= width * r1) by (nonlinear_arith)
            requires
                r2 < r1,
                0 < width,
        ;
    }
}

/// The pixels of an image lie before the end of its `width * height` pixels.
proof fn lemma_pixel_index_bound(width: int, height: int, row: int, col: int)
    requires
        0 <= row < height,
        0 <= col < width,
    ensures
        0 <= pixel_index(width, row, col) < width * height,
{
    assert(0 <= width * row + col < width * height) by (nonlinear_arith)
        requires
            0 <= row < height,
            0 <= col < width,
    ;
}

/// Reverses the order of the rows of an image held row by row in `pixels`, so that
/// an image read bottom-up from the graphics API reads top-down.
pub fn flip_y<T: Copy>(pixels: &mut [T], width: usize, height: usize)
    requires
        height < 2 || width * height <= old(pixels)@.len(),
    ensures
        is_flipped_y(old(pixels)@, final(pixels)@, width as int, height as int),
{
    let ghost before = pixels@;
    let ghost w = width as int;
    let ghost h = height as int;
    let len = pixels.len();
    let half = height / 2;
    let mut row: usize = 0;
    while row < half
        invariant
            half == height / 2,
            row <= half,
            height < 2 || width * height <= before.len(),
            len == before.len(),
            pixels@.len() == before.len(),
            w == width,
            h == height,
            forall|r: int, c: int|
                0 <= r < h && 0 <= c < w && pixel_index(w, r, c) < before.len()
                    ==> #[trigger] pixels@[pixel_index(w, r, c)] == before[pixel_index(
                    w,
                    if r < row || h - 1 - r < row {
                        h - 1 - r
                    } else {
                        r
                    },
                    c,
                )],
            forall|k: int| w * h <= k < before.len() ==> pixels@[k] == before[k],
        decreases half - row,
    {
        let mut col: usize = 0;
        while col < width
            invariant
                half == height / 2,
                row < half,
                col <= width,
                height < 2 || width * height <= before.len(),
                len == before.len(),
                pixels@.len() == before.len(),
                w == width,
                h == height,
                forall|r: int, c: int|
                    0 <= r < h && 0 <= c < w && pixel_index(w, r, c) < before.len()
                        ==> #[trigger] pixels@[pixel_index(w, r, c)] == before[pixel_index(
                        w,
                        if r < row || h - 1 - r < row || ((r == row || r == h - 1 - row) && c
                            < col) {
                            h - 1 - r
                        } else {
                            r
                        },
                        c,
                    )],
                forall|k: int| w * h <= k < before.len() ==> pixels@[k] == before[k],
            decreases width - col,
        {
            let ghost lo = pixel_index(w, row as int, col as int);
            let ghost hi = pixel_index(w, h - 1 - row, col as int);
            proof {
                lemma_pixel_index_bound(w, h, row as int, col as int);
                lemma_pixel_index_bound(w, h, h - 1 - row, col as int);
            }
            assert(w * h <= len);
            let index0 = width * row + col;
            let index1 = width * (height - row - 1) + col;
            assert(index0 == lo && index1 == hi);
            let ghost mid = pixels@;
            let a = pixels[index0];
            let b = pixels[index1];
            pixels[index0] = b;
            pixels[index1] = a;
            proof {
                assert forall|r: int, c: int|
                    0 <= r < h && 0 <= c < w && pixel_index(w, r, c) < before.len()
                        implies #[trigger] pixels@[pixel_index(w, r, c)] == before[pixel_index(
                        w,
                        if r < row || h - 1 - r < row || ((r == row || r == h - 1 - row) && c
                            < col + 1) {
                            h - 1 - r
                        } else {
                            r
                        },
                        c,
                    )] by {
                    let k = pixel_index(w, r, c);
                    assert(mid[k] == before[pixel_index(
                        w,
                        if r < row || h - 1 - r < row || ((r == row || r == h - 1 - row) && c
                            < col) {
                            h - 1 - r
                        } else {
                            r
                        },
                        c,
                    )]);
                    if k == lo {
                        lemma_pixel_index_injective(w, r, c, row as int, col as int);
                        assert(mid[hi] == before[hi]);
                    } else if k == hi {
                        lemma_pixel_index_injective(w, r, c, h - 1 - row, col as int);
                        assert(mid[lo] == before[lo]);
                    } else {
                        if r == row && c == col {
                            assert(k == lo);
                        }
                        if r == h - 1 - row && c == col {
                            assert(k == hi);
                        }
                    }
                }
                assert forall|k: int| w * h <= k < before.len() implies pixels@[k] == before[k] by {
                    assert(k != lo && k != hi);
                }
            }
            col = col + 1;
        }
        row = row + 1;
    }
    proof {
        assert forall|r: int, c: int|
            0 <= r < h && 0 <= c < w && pixel_index(w, r, c) < before.len()
                implies #[trigger] pixels@[pixel_index(w, r, c)] == before[pixel_index(
                w,
                h - 1 - r,
                c,
            )] by {
            if !(r < row || h - 1 - r < row) {
                assert(r == h - 1 - r);
            }
        }
    }
}

/// Flipping the rows of an image twice gives the image back.
pub proof fn lemma_flip_y_twice<T>(a: Seq<T>, b: Seq<T>, c: Seq<T>, width: nat, height: nat)
    requires
        height < 2 || width * height <= a.len(),
        is_flipped_y(a, b, width as int, height as int),
        is_flipped_y(b, c, width as int, height as int),
    ensures
        c == a,
{
    let w = width as int;
    let h = height as int;
    assert forall|k: int| 0 <= k < a.len() implies c[k] == a[k] by {
        if k < w * h {
            assert(w != 0) by (nonlinear_arith)
                requires
                    0 <= k < w * h,
            ;
            let row = k / w;
            let col = k % w;
            lemma_fundamental_div_mod(k, w);
            lemma_mod_pos_bound(k, w);
            assert(0 <= row < h) by (nonlinear_arith)
                requires
                    0 <= k < w * h,
                    k == w * row + col,
                    0 <= col < w,
                    0 < w,
            ;
            assert(k == pixel_index(w, row, col));
            lemma_pixel_index_bound(w, h, h - 1 - row, col);
            assert(c[pixel_index(w, row, col)] == b[pixel_index(w, h - 1 - row, col)]);
            assert(b[pixel_index(w, h - 1 - row, col)] == a[pixel_index(w, h - 1 - (h - 1 - row), col)]);
        }
    }
    assert(c =~= a);
}

/// Which textures a render target with the given numbers of color and depth
/// layers is made of.
#[derive(Clone, Copy, Debug, PartialEq, Eq, Structural)]
pub struct TextureLayout {
    /// A single color texture.
    pub color_texture: bool,
    /// A single depth texture.
    pub depth_texture: bool,
    /// An array of color textures.
    pub color_texture_array: bool,
    /// An array of depth textures.
    pub depth_texture_array: bool,
}

/// The textures of a render target: single textures when neither kind has more than
/// one layer, arrays for both kinds as soon as one kind has several layers.
pub open spec fn spec_texture_layout(color_layers: usize, depth_layers: usize) -> TextureLayout {
    TextureLayout {
        color_texture: color_layers == 1 && depth_layers <= 1,
        depth_texture: color_layers <= 1 && depth_layers == 1,
        color_texture_array: (depth_layers > 1 && color_layers == 1) || color_layers > 1,
        depth_texture_array: (color_layers > 1 && depth_layers == 1) || depth_layers > 1,
    }
}

/// Chooses the textures of a render target with the given numbers of color and
/// depth layers. Every kind of layer that is asked for gets either a texture or an
/// array, never both.
pub fn texture_layout(color_layers: usize, depth_layers: usize) -> (r: TextureLayout)
    ensures
        r == spec_texture_layout(color_layers, depth_layers),
        color_layers > 0 ==> (r.color_texture != r.color_texture_array),
        depth_layers > 0 ==> (r.depth_texture != r.depth_texture_array),
        color_layers == 0 && depth_layers <= 1 ==> !r.color_texture && !r.color_texture_array,
        depth_layers == 0 && color_layers <= 1 ==> !r.depth_texture && !r.depth_texture_array,
{
    TextureLayout {
        color_texture: color_layers == 1 && depth_layers <= 1,
        depth_texture: color_layers <= 1 && depth_layers == 1,
        color_texture_array: (depth_layers > 1 && color_layers == 1) || color_layers > 1,
        depth_texture_array: (color_layers > 1 && depth_layers == 1) || depth_layers > 1,
    }
}

/// The color attachments a framebuffer with the given number of color channels
/// draws to: the first `color_channels` attachments, in order.
pub fn draw_buffers(color_channels: usize) -> (r: Vec<u32>)
    requires
        color_channels <= u32::MAX - 0x8CE0,
    ensures
        r@.len() == color_channels,
        forall|i: int| 0 <= i < color_channels ==> r@[i] == 0x8CE0 + i,
{
    let mut r: Vec<u32> = Vec::new();
    let first = glenum::gl_color_attachment0();
    let mut i: usize = 0;
    while i < color_channels
        invariant
            i <= color_channels <= u32::MAX - 0x8CE0,
            first == 0x8CE0,
            r@.len() == i,
            forall|j: int| 0 <= j < i ==> r@[j] == 0x8CE0 + j,
        decreases color_channels - i,
    {
        r.push(first + i as u32);
        i = i + 1;
    }
    r
}

/// The buffers a clear call clears: color and depth, color or depth alone, or
/// nothing to clear at all.
pub open spec fn spec_clear_mask(clear_color: bool, clear_depth: bool) -> Option<u32> {
    if clear_color && clear_depth {
        Some(0x4100)
    } else if clear_color {
        Some(0x4000)
    } else if clear_depth {
        Some(0x0100)
    } else {
        None
    }
}

/// The mask of the clear call for a clear state that sets a color, a depth, both
/// or neither; `None` when nothing is cleared.
pub fn clear_mask(clear_color: bool, clear_depth: bool) -> (r: Option<u32>)
    ensures
        r == spec_clear_mask(clear_color, clear_depth),
{
    let color = glenum::gl_color_buffer_bit();
    let depth = glenum::gl_depth_buffer_bit();
    if clear_color && clear_depth {
        assert((0x4000u32 | 0x0100u32) == 0x4100u32) by (bit_vector);
        Some(color | depth)
    } else if clear_color {
        Some(color)
    } else if clear_depth {
        Some(depth)
    } else {
        None
    }
}

/// The number of bytes read back for each pixel of a color type of `type_size`
/// bytes with `channels` components: a type of one byte per component is read as
/// four components, which is what the web accepts.
pub fn read_pixel_size(type_size: usize, channels: usize) -> (r: usize)
    requires
        channels > 0,
    ensures
        r == if type_size / channels == 1 {
            type_size * (4usize / channels) as int
        } else {
            type_size as int
        },
{
    if type_size / channels == 1 {
        assert(type_size * (4usize / channels) <= 8) by (nonlinear_arith)
            requires
                channels > 0,
                type_size / channels == 1,
        {
            if channels <= 4 {
                assert(type_size < 2 * channels);
                assert(4usize / channels <= 4);
            }
        }
        type_size * (4 / channels)
    } else {
        type_size
    }
}

/// Whether a blit from a target copies color: the source has color and the
/// destination has color too or is the screen (has neither).
pub open spec fn blit_copies_color(
    source_color: bool,
    source_depth: bool,
    target_color: bool,
    target_depth: bool,
) -> bool {
    source_color && (target_color || (!target_color && !target_depth))
}

/// Whether a blit from a target copies depth: the source has depth and the
/// destination has depth too or is the screen (has neither).
pub open spec fn blit_copies_depth(
    source_color: bool,
    source_depth: bool,
    target_color: bool,
    target_depth: bool,
) -> bool {
    source_depth && (target_depth || (!target_color && !target_depth))
}

/// The mask of a blit between two render targets, given which of color and depth
/// each has: every buffer that both have, and every buffer of the source when the
/// destination is the screen. There must be something to copy.
pub fn blit_mask(source_color: bool, source_depth: bool, target_color: bool, target_depth: bool) -> (r: u32)
    requires
        blit_copies_color(source_color, source_depth, target_color, target_depth)
            || blit_copies_depth(source_color, source_depth, target_color, target_depth),
    ensures
        r == if blit_copies_color(source_color, source_depth, target_color, target_depth) {
            if blit_copies_depth(source_color, source_depth, target_color, target_depth) {
                0x4100u32
            } else {
                0x4000u32
            }
        } else {
            0x0100u32
        },
{
    let target_is_screen = !target_color && !target_depth;
    if source_color && (target_color || target_is_screen) {
        let mut mask = glenum::gl_color_buffer_bit();
        if source_depth && (target_depth || target_is_screen) {
            assert((0x4000u32 | 0x0100u32) == 0x4100u32) by (bit_vector);
            mask = mask | glenum::gl_depth_buffer_bit();
        }
        mask
    } else {
        glenum::gl_depth_buffer_bit()
    }
}

} // verus!
