//! Texture data on the CPU: its formats, its sampling settings, and the check that
//! the data of a texture holds as many pixels as its size asks for.

use vstd::prelude::*;

use crate::error::Error;
use crate::glenum;

verus! {

/// How a texture is sampled between texels.
#[derive(Copy, Clone, Eq, PartialEq, Debug, Structural)]
pub enum Interpolation {
    Nearest,
    Linear,
}

/// How a texture is sampled outside its edges.
#[derive(Copy, Clone, Eq, PartialEq, Debug, Structural)]
pub enum Wrapping {
    Repeat,
    MirroredRepeat,
    ClampToEdge,
}

/// The formats a texture can hold its texels in.
#[derive(Copy, Clone, Eq, PartialEq, Debug, Structural)]
pub enum Format {
    R8,
    R32F,
    RGB8,
    RGB32F,
    RGBA4,
    RGBA8,
    RGBA32F,
    Depth16,
    Depth24,
    Depth32F,
}

/// The graphics API enumeration value of an interpolation.
pub open spec fn spec_interpolation_const(i: Interpolation) -> u32 {
    match i {
        Interpolation::Nearest => 0x2600,
        Interpolation::Linear => 0x2601,
    }
}

/// The graphics API enumeration value of a wrapping.
pub open spec fn spec_wrapping_const(w: Wrapping) -> u32 {
    match w {
        Wrapping::Repeat => 0x2901,
        Wrapping::MirroredRepeat => 0x8370,
        Wrapping::ClampToEdge => 0x812F,
    }
}

/// The graphics API enumeration value of a format.
pub open spec fn spec_format_const(f: Format) -> u32 {
    match f {
        Format::R8 => 0x8229,
        Format::R32F => 0x822E,
        Format::RGB8 => 0x8051,
        Format::RGB32F => 0x8815,
        Format::RGBA4 => 0x8056,
        Format::RGBA8 => 0x8058,
        Format::RGBA32F => 0x8814,
        Format::Depth16 => 0x81A5,
        Format::Depth24 => 0x81A6,
        Format::Depth32F => 0x8CAC,
    }
}

impl Interpolation {
    /// The enumeration value that names this interpolation in the graphics API.
    pub fn to_const(&self) -> (r: u32)
        ensures
            r == spec_interpolation_const(*self),
    {
        match self {
            Interpolation::Nearest => glenum::gl_nearest(),
            Interpolation::Linear => glenum::gl_linear(),
        }
    }
}

impl Wrapping {
    /// The enumeration value that names this wrapping in the graphics API.
    pub fn to_const(&self) -> (r: u32)
        ensures
            r == spec_wrapping_const(*self),
    {
        match self {
            Wrapping::Repeat => glenum::gl_repeat(),
            Wrapping::MirroredRepeat => glenum::gl_mirrored_repeat(),
            Wrapping::ClampToEdge => glenum::gl_clamp_to_edge(),
        }
    }
}

impl Format {
    /// The enumeration value that names this format in the graphics API.
    pub fn to_const(&self) -> (r: u32)
        ensures
            r == spec_format_const(*self),
    {
        match self {
            Format::R8 => glenum::gl_r8(),
            Format::R32F => glenum::gl_r32f(),
            Format::RGB8 => glenum::gl_rgb8(),
            Format::RGB32F => glenum::gl_rgb32f(),
            Format::RGBA4 => glenum::gl_rgba4(),
            Format::RGBA8 => glenum::gl_rgba8(),
            Format::RGBA32F => glenum::gl_rgba32f(),
            Format::Depth16 => glenum::gl_depth_component16(),
            Format::Depth24 => glenum::gl_depth_component24(),
            Format::Depth32F => glenum::gl_depth_component32f(),
        }
    }
}

/// A texture on the CPU: its bytes, if any, its size in texels, its format and how
/// it is sampled.
pub struct CPUTexture {
    pub bytes: Option<Vec<u8>>,
    pub width: usize,
    pub height: usize,
    pub depth: usize,
    pub format: Format,
    pub min_filter: Interpolation,
    pub mag_filter: Interpolation,
    pub mip_map_filter: Option<Interpolation>,
    pub wrap_s: Wrapping,
    pub wrap_t: Wrapping,
    pub wrap_r: Wrapping,
}

impl Default for CPUTexture {
    /// A single linearly filtered, repeating RGBA texel without data.
    fn default() -> (r: Self)
        ensures
            r.bytes is None,
            r.width == 1 && r.height == 1 && r.depth == 1,
            r.format == Format::RGBA8,
            r.min_filter == Interpolation::Linear,
            r.mag_filter == Interpolation::Linear,
            r.mip_map_filter == Some(Interpolation::Linear),
            r.wrap_s == Wrapping::Repeat,
            r.wrap_t == Wrapping::Repeat,
            r.wrap_r == Wrapping::Repeat,
    {
        CPUTexture {
            bytes: None,
            width: 1,
            height: 1,
            depth: 1,
            format: Format::RGBA8,
            min_filter: Interpolation::Linear,
            mag_filter: Interpolation::Linear,
            mip_map_filter: Some(Interpolation::Linear),
            wrap_s: Wrapping::Repeat,
            wrap_t: Wrapping::Repeat,
            wrap_r: Wrapping::Repeat,
        }
    }
}

/// The character of a decimal digit.
pub open spec fn digit_char(d: nat) -> char {
    (48 + d) as char
}

/// The decimal digits of a number, most significant first and without leading
/// zeros (zero is written "0"): how `format!` writes an unsigned integer.
pub open spec fn decimal_digits(n: nat) -> Seq<char>
    decreases n,
{
    if n < 10 {
        seq![digit_char(n)]
    } else {
        decimal_digits(n / 10).push(digit_char(n % 10))
    }
}

/// The decimal form of a `usize`.
pub open spec fn decimal(n: usize) -> Seq<char> {
    decimal_digits(n as nat)
}

/// Writes the message of a texture whose data holds `actual` pixels where
/// `expected` were asked for, with `format!`; the contract claims that each number
/// is written in its plain decimal form (as `Display` of an unsigned integer
/// writes it), between the fixed words of the message.
#[verifier::external_body]
fn texture_size_message(actual: usize, expected: usize) -> (r: String)
    ensures
        r@ == "Wrong size of data for the texture (got "@ + decimal(actual) + " pixels but expected "@
            + decimal(expected) + " pixels)"@,
{
    format!(
        "Wrong size of data for the texture (got {} pixels but expected {} pixels)",
        actual,
        expected
    )
}

/// Checks that texture data of `length` values, `channel_count` values per pixel,
/// holds as many pixels as a texture of the given width, height and depth has.
pub fn check_data_length(
    width: u32,
    height: u32,
    depth: u32,
    channel_count: u32,
    length: usize,
) -> (r: Result<(), Error>)
    requires
        channel_count > 0,
        width * height <= usize::MAX,
        width * height * depth <= usize::MAX,
    ensures
        ({
            let expected = width * height * depth;
            let actual = length as int / (channel_count as int);
            if expected == actual {
                r is Ok
            } else {
                r matches Err(Error::TextureError { message }) && message@
                    == "Wrong size of data for the texture (got "@ + decimal(actual as usize)
                    + " pixels but expected "@ + decimal(expected as usize) + " pixels)"@
            }
        }),
{
    let expected_pixels = width as usize * height as usize * depth as usize;
    let actual_pixels = length / channel_count as usize;
    if expected_pixels != actual_pixels {
        return Err(
            Error::TextureError { message: texture_size_message(actual_pixels, expected_pixels) },
        );
    }
    Ok(())
}

} // verus!
