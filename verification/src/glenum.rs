//! Readers for the OpenGL enumeration values that `glow` exports.
//!
//! Every function here reads one constant of `glow` and states its value, so that
//! the verified code can speak of the numbers it hands to the graphics API.

use vstd::prelude::*;

verus! {

/// Reads `glow::ZERO`; the contract claims that it equals `0`.
#[verifier::external_body]
pub(crate) fn gl_zero() -> (r: u32)
    ensures
        r == 0,
{
    glow::ZERO
}

/// Reads `glow::ONE`; the contract claims that it equals `1`.
#[verifier::external_body]
pub(crate) fn gl_one() -> (r: u32)
    ensures
        r == 1,
{
    glow::ONE
}

/// Reads `glow::SRC_COLOR`; the contract claims that it equals `0x0300`.
#[verifier::external_body]
pub(crate) fn gl_src_color() -> (r: u32)
    ensures
        r == 0x0300,
{
    glow::SRC_COLOR
}

/// Reads `glow::ONE_MINUS_SRC_COLOR`; the contract claims that it equals `0x0301`.
#[verifier::external_body]
pub(crate) fn gl_one_minus_src_color() -> (r: u32)
    ensures
        r == 0x0301,
{
    glow::ONE_MINUS_SRC_COLOR
}

/// Reads `glow::DST_COLOR`; the contract claims that it equals `0x0306`.
#[verifier::external_body]
pub(crate) fn gl_dst_color() -> (r: u32)
    ensures
        r == 0x0306,
{
    glow::DST_COLOR
}

/// Reads `glow::ONE_MINUS_DST_COLOR`; the contract claims that it equals `0x0307`.
#[verifier::external_body]
pub(crate) fn gl_one_minus_dst_color() -> (r: u32)
    ensures
        r == 0x0307,
{
    glow::ONE_MINUS_DST_COLOR
}

/// Reads `glow::SRC_ALPHA`; the contract claims that it equals `0x0302`.
#[verifier::external_body]
pub(crate) fn gl_src_alpha() -> (r: u32)
    ensures
        r == 0x0302,
{
    glow::SRC_ALPHA
}

/// Reads `glow::ONE_MINUS_SRC_ALPHA`; the contract claims that it equals `0x0303`.
#[verifier::external_body]
pub(crate) fn gl_one_minus_src_alpha() -> (r: u32)
    ensures
        r == 0x0303,
{
    glow::ONE_MINUS_SRC_ALPHA
}

/// Reads `glow::DST_ALPHA`; the contract claims that it equals `0x0304`.
#[verifier::external_body]
pub(crate) fn gl_dst_alpha() -> (r: u32)
    ensures
        r == 0x0304,
{
    glow::DST_ALPHA
}

/// Reads `glow::ONE_MINUS_DST_ALPHA`; the contract claims that it equals `0x0305`.
#[verifier::external_body]
pub(crate) fn gl_one_minus_dst_alpha() -> (r: u32)
    ensures
        r == 0x0305,
{
    glow::ONE_MINUS_DST_ALPHA
}

/// Reads `glow::SRC_ALPHA_SATURATE`; the contract claims that it equals `0x0308`.
#[verifier::external_body]
pub(crate) fn gl_src_alpha_saturate() -> (r: u32)
    ensures
        r == 0x0308,
{
    glow::SRC_ALPHA_SATURATE
}

/// Reads `glow::FUNC_ADD`; the contract claims that it equals `0x8006`.
#[verifier::external_body]
pub(crate) fn gl_func_add() -> (r: u32)
    ensures
        r == 0x8006,
{
    glow::FUNC_ADD
}

/// Reads `glow::FUNC_SUBTRACT`; the contract claims that it equals `0x800A`.
#[verifier::external_body]
pub(crate) fn gl_func_subtract() -> (r: u32)
    ensures
        r == 0x800A,
{
    glow::FUNC_SUBTRACT
}

/// Reads `glow::FUNC_REVERSE_SUBTRACT`; the contract claims that it equals `0x800B`.
#[verifier::external_body]
pub(crate) fn gl_func_reverse_subtract() -> (r: u32)
    ensures
        r == 0x800B,
{
    glow::FUNC_REVERSE_SUBTRACT
}

/// Reads `glow::MIN`; the contract claims that it equals `0x8007`.
#[verifier::external_body]
pub(crate) fn gl_min() -> (r: u32)
    ensures
        r == 0x8007,
{
    glow::MIN
}

/// Reads `glow::MAX`; the contract claims that it equals `0x8008`.
#[verifier::external_body]
pub(crate) fn gl_max() -> (r: u32)
    ensures
        r == 0x8008,
{
    glow::MAX
}

/// Reads `glow::CULL_FACE`; the contract claims that it equals `0x0B44`.
#[verifier::external_body]
pub(crate) fn gl_cull_face() -> (r: u32)
    ensures
        r == 0x0B44,
{
    glow::CULL_FACE
}

/// Reads `glow::BACK`; the contract claims that it equals `0x0405`.
#[verifier::external_body]
pub(crate) fn gl_back() -> (r: u32)
    ensures
        r == 0x0405,
{
    glow::BACK
}

/// Reads `glow::FRONT`; the contract claims that it equals `0x0404`.
#[verifier::external_body]
pub(crate) fn gl_front() -> (r: u32)
    ensures
        r == 0x0404,
{
    glow::FRONT
}

/// Reads `glow::FRONT_AND_BACK`; the contract claims that it equals `0x0408`.
#[verifier::external_body]
pub(crate) fn gl_front_and_back() -> (r: u32)
    ensures
        r == 0x0408,
{
    glow::FRONT_AND_BACK
}

/// Reads `glow::BLEND`; the contract claims that it equals `0x0BE2`.
#[verifier::external_body]
pub(crate) fn gl_blend() -> (r: u32)
    ensures
        r == 0x0BE2,
{
    glow::BLEND
}

/// Reads `glow::DEPTH_TEST`; the contract claims that it equals `0x0B71`.
#[verifier::external_body]
pub(crate) fn gl_depth_test() -> (r: u32)
    ensures
        r == 0x0B71,
{
    glow::DEPTH_TEST
}

/// Reads `glow::SCISSOR_TEST`; the contract claims that it equals `0x0C11`.
#[verifier::external_body]
pub(crate) fn gl_scissor_test() -> (r: u32)
    ensures
        r == 0x0C11,
{
    glow::SCISSOR_TEST
}

/// Reads `glow::NEVER`; the contract claims that it equals `0x0200`.
#[verifier::external_body]
pub(crate) fn gl_never() -> (r: u32)
    ensures
        r == 0x0200,
{
    glow::NEVER
}

/// Reads `glow::LESS`; the contract claims that it equals `0x0201`.
#[verifier::external_body]
pub(crate) fn gl_less() -> (r: u32)
    ensures
        r == 0x0201,
{
    glow::LESS
}

/// Reads `glow::EQUAL`; the contract claims that it equals `0x0202`.
#[verifier::external_body]
pub(crate) fn gl_equal() -> (r: u32)
    ensures
        r == 0x0202,
{
    glow::EQUAL
}

/// Reads `glow::LEQUAL`; the contract claims that it equals `0x0203`.
#[verifier::external_body]
pub(crate) fn gl_lequal() -> (r: u32)
    ensures
        r == 0x0203,
{
    glow::LEQUAL
}

/// Reads `glow::GREATER`; the contract claims that it equals `0x0204`.
#[verifier::external_body]
pub(crate) fn gl_greater() -> (r: u32)
    ensures
        r == 0x0204,
{
    glow::GREATER
}

/// Reads `glow::NOTEQUAL`; the contract claims that it equals `0x0205`.
#[verifier::external_body]
pub(crate) fn gl_notequal() -> (r: u32)
    ensures
        r == 0x0205,
{
    glow::NOTEQUAL
}

/// Reads `glow::GEQUAL`; the contract claims that it equals `0x0206`.
#[verifier::external_body]
pub(crate) fn gl_gequal() -> (r: u32)
    ensures
        r == 0x0206,
{
    glow::GEQUAL
}

/// Reads `glow::ALWAYS`; the contract claims that it equals `0x0207`.
#[verifier::external_body]
pub(crate) fn gl_always() -> (r: u32)
    ensures
        r == 0x0207,
{
    glow::ALWAYS
}

/// Reads `glow::NO_ERROR`; the contract claims that it equals `0`.
#[verifier::external_body]
pub(crate) fn gl_no_error() -> (r: u32)
    ensures
        r == 0,
{
    glow::NO_ERROR
}

/// Reads `glow::INVALID_ENUM`; the contract claims that it equals `0x0500`.
#[verifier::external_body]
pub(crate) fn gl_invalid_enum() -> (r: u32)
    ensures
        r == 0x0500,
{
    glow::INVALID_ENUM
}

/// Reads `glow::INVALID_VALUE`; the contract claims that it equals `0x0501`.
#[verifier::external_body]
pub(crate) fn gl_invalid_value() -> (r: u32)
    ensures
        r == 0x0501,
{
    glow::INVALID_VALUE
}

/// Reads `glow::INVALID_OPERATION`; the contract claims that it equals `0x0502`.
#[verifier::external_body]
pub(crate) fn gl_invalid_operation() -> (r: u32)
    ensures
        r == 0x0502,
{
    glow::INVALID_OPERATION
}

/// Reads `glow::INVALID_FRAMEBUFFER_OPERATION`; the contract claims that it equals `0x0506`.
#[verifier::external_body]
pub(crate) fn gl_invalid_framebuffer_operation() -> (r: u32)
    ensures
        r == 0x0506,
{
    glow::INVALID_FRAMEBUFFER_OPERATION
}

/// Reads `glow::OUT_OF_MEMORY`; the contract claims that it equals `0x0505`.
#[verifier::external_body]
pub(crate) fn gl_out_of_memory() -> (r: u32)
    ensures
        r == 0x0505,
{
    glow::OUT_OF_MEMORY
}

/// Reads `glow::STACK_OVERFLOW`; the contract claims that it equals `0x0503`.
#[verifier::external_body]
pub(crate) fn gl_stack_overflow() -> (r: u32)
    ensures
        r == 0x0503,
{
    glow::STACK_OVERFLOW
}

/// Reads `glow::STACK_UNDERFLOW`; the contract claims that it equals `0x0504`.
#[verifier::external_body]
pub(crate) fn gl_stack_underflow() -> (r: u32)
    ensures
        r == 0x0504,
{
    glow::STACK_UNDERFLOW
}

/// Reads `glow::FRAMEBUFFER_COMPLETE`; the contract claims that it equals `0x8CD5`.
#[verifier::external_body]
pub(crate) fn gl_framebuffer_complete() -> (r: u32)
    ensures
        r == 0x8CD5,
{
    glow::FRAMEBUFFER_COMPLETE
}

/// Reads `glow::FRAMEBUFFER_INCOMPLETE_ATTACHMENT`; the contract claims that it equals `0x8CD6`.
#[verifier::external_body]
pub(crate) fn gl_framebuffer_incomplete_attachment() -> (r: u32)
    ensures
        r == 0x8CD6,
{
    glow::FRAMEBUFFER_INCOMPLETE_ATTACHMENT
}

/// Reads `glow::FRAMEBUFFER_INCOMPLETE_DRAW_BUFFER`; the contract claims that it equals `0x8CDB`.
#[verifier::external_body]
pub(crate) fn gl_framebuffer_incomplete_draw_buffer() -> (r: u32)
    ensures
        r == 0x8CDB,
{
    glow::FRAMEBUFFER_INCOMPLETE_DRAW_BUFFER
}

/// Reads `glow::FRAMEBUFFER_INCOMPLETE_MISSING_ATTACHMENT`; the contract claims that it equals `0x8CD7`.
#[verifier::external_body]
pub(crate) fn gl_framebuffer_incomplete_missing_attachment() -> (r: u32)
    ensures
        r == 0x8CD7,
{
    glow::FRAMEBUFFER_INCOMPLETE_MISSING_ATTACHMENT
}

/// Reads `glow::FRAMEBUFFER_UNSUPPORTED`; the contract claims that it equals `0x8CDD`.
#[verifier::external_body]
pub(crate) fn gl_framebuffer_unsupported() -> (r: u32)
    ensures
        r == 0x8CDD,
{
    glow::FRAMEBUFFER_UNSUPPORTED
}

/// Reads `glow::FRAMEBUFFER_UNDEFINED`; the contract claims that it equals `0x8219`.
#[verifier::external_body]
pub(crate) fn gl_framebuffer_undefined() -> (r: u32)
    ensures
        r == 0x8219,
{
    glow::FRAMEBUFFER_UNDEFINED
}

/// Reads `glow::FRAMEBUFFER_INCOMPLETE_READ_BUFFER`; the contract claims that it equals `0x8CDC`.
#[verifier::external_body]
pub(crate) fn gl_framebuffer_incomplete_read_buffer() -> (r: u32)
    ensures
        r == 0x8CDC,
{
    glow::FRAMEBUFFER_INCOMPLETE_READ_BUFFER
}

/// Reads `glow::FRAMEBUFFER_INCOMPLETE_MULTISAMPLE`; the contract claims that it equals `0x8D56`.
#[verifier::external_body]
pub(crate) fn gl_framebuffer_incomplete_multisample() -> (r: u32)
    ensures
        r == 0x8D56,
{
    glow::FRAMEBUFFER_INCOMPLETE_MULTISAMPLE
}

/// Reads `glow::FRAMEBUFFER_INCOMPLETE_LAYER_TARGETS`; the contract claims that it equals `0x8DA8`.
#[verifier::external_body]
pub(crate) fn gl_framebuffer_incomplete_layer_targets() -> (r: u32)
    ensures
        r == 0x8DA8,
{
    glow::FRAMEBUFFER_INCOMPLETE_LAYER_TARGETS
}

/// Reads `glow::UNSIGNED_BYTE`; the contract claims that it equals `0x1401`.
#[verifier::external_body]
pub(crate) fn gl_unsigned_byte() -> (r: u32)
    ensures
        r == 0x1401,
{
    glow::UNSIGNED_BYTE
}

/// Reads `glow::UNSIGNED_SHORT`; the contract claims that it equals `0x1403`.
#[verifier::external_body]
pub(crate) fn gl_unsigned_short() -> (r: u32)
    ensures
        r == 0x1403,
{
    glow::UNSIGNED_SHORT
}

/// Reads `glow::UNSIGNED_INT`; the contract claims that it equals `0x1405`.
#[verifier::external_body]
pub(crate) fn gl_unsigned_int() -> (r: u32)
    ensures
        r == 0x1405,
{
    glow::UNSIGNED_INT
}

/// Reads `glow::BYTE`; the contract claims that it equals `0x1400`.
#[verifier::external_body]
pub(crate) fn gl_byte() -> (r: u32)
    ensures
        r == 0x1400,
{
    glow::BYTE
}

/// Reads `glow::SHORT`; the contract claims that it equals `0x1402`.
#[verifier::external_body]
pub(crate) fn gl_short() -> (r: u32)
    ensures
        r == 0x1402,
{
    glow::SHORT
}

/// Reads `glow::INT`; the contract claims that it equals `0x1404`.
#[verifier::external_body]
pub(crate) fn gl_int() -> (r: u32)
    ensures
        r == 0x1404,
{
    glow::INT
}

/// Reads `glow::HALF_FLOAT`; the contract claims that it equals `0x140B`.
#[verifier::external_body]
pub(crate) fn gl_half_float() -> (r: u32)
    ensures
        r == 0x140B,
{
    glow::HALF_FLOAT
}

/// Reads `glow::FLOAT`; the contract claims that it equals `0x1406`.
#[verifier::external_body]
pub(crate) fn gl_float() -> (r: u32)
    ensures
        r == 0x1406,
{
    glow::FLOAT
}

/// Reads `glow::R8`; the contract claims that it equals `0x8229`.
#[verifier::external_body]
pub(crate) fn gl_r8() -> (r: u32)
    ensures
        r == 0x8229,
{
    glow::R8
}

/// Reads `glow::RG8`; the contract claims that it equals `0x822B`.
#[verifier::external_body]
pub(crate) fn gl_rg8() -> (r: u32)
    ensures
        r == 0x822B,
{
    glow::RG8
}

/// Reads `glow::RGB8`; the contract claims that it equals `0x8051`.
#[verifier::external_body]
pub(crate) fn gl_rgb8() -> (r: u32)
    ensures
        r == 0x8051,
{
    glow::RGB8
}

/// Reads `glow::RGBA8`; the contract claims that it equals `0x8058`.
#[verifier::external_body]
pub(crate) fn gl_rgba8() -> (r: u32)
    ensures
        r == 0x8058,
{
    glow::RGBA8
}

/// Reads `glow::R16UI`; the contract claims that it equals `0x8234`.
#[verifier::external_body]
pub(crate) fn gl_r16ui() -> (r: u32)
    ensures
        r == 0x8234,
{
    glow::R16UI
}

/// Reads `glow::RG16UI`; the contract claims that it equals `0x823A`.
#[verifier::external_body]
pub(crate) fn gl_rg16ui() -> (r: u32)
    ensures
        r == 0x823A,
{
    glow::RG16UI
}

/// Reads `glow::RGB16UI`; the contract claims that it equals `0x8D77`.
#[verifier::external_body]
pub(crate) fn gl_rgb16ui() -> (r: u32)
    ensures
        r == 0x8D77,
{
    glow::RGB16UI
}

/// Reads `glow::RGBA16UI`; the contract claims that it equals `0x8D76`.
#[verifier::external_body]
pub(crate) fn gl_rgba16ui() -> (r: u32)
    ensures
        r == 0x8D76,
{
    glow::RGBA16UI
}

/// Reads `glow::R32UI`; the contract claims that it equals `0x8236`.
#[verifier::external_body]
pub(crate) fn gl_r32ui() -> (r: u32)
    ensures
        r == 0x8236,
{
    glow::R32UI
}

/// Reads `glow::RG32UI`; the contract claims that it equals `0x823C`.
#[verifier::external_body]
pub(crate) fn gl_rg32ui() -> (r: u32)
    ensures
        r == 0x823C,
{
    glow::RG32UI
}

/// Reads `glow::RGB32UI`; the contract claims that it equals `0x8D71`.
#[verifier::external_body]
pub(crate) fn gl_rgb32ui() -> (r: u32)
    ensures
        r == 0x8D71,
{
    glow::RGB32UI
}

/// Reads `glow::RGBA32UI`; the contract claims that it equals `0x8D70`.
#[verifier::external_body]
pub(crate) fn gl_rgba32ui() -> (r: u32)
    ensures
        r == 0x8D70,
{
    glow::RGBA32UI
}

/// Reads `glow::R8I`; the contract claims that it equals `0x8231`.
#[verifier::external_body]
pub(crate) fn gl_r8i() -> (r: u32)
    ensures
        r == 0x8231,
{
    glow::R8I
}

/// Reads `glow::RG8I`; the contract claims that it equals `0x8237`.
#[verifier::external_body]
pub(crate) fn gl_rg8i() -> (r: u32)
    ensures
        r == 0x8237,
{
    glow::RG8I
}

/// Reads `glow::RGB8I`; the contract claims that it equals `0x8D8F`.
#[verifier::external_body]
pub(crate) fn gl_rgb8i() -> (r: u32)
    ensures
        r == 0x8D8F,
{
    glow::RGB8I
}

/// Reads `glow::RGBA8I`; the contract claims that it equals `0x8D8E`.
#[verifier::external_body]
pub(crate) fn gl_rgba8i() -> (r: u32)
    ensures
        r == 0x8D8E,
{
    glow::RGBA8I
}

/// Reads `glow::R16I`; the contract claims that it equals `0x8233`.
#[verifier::external_body]
pub(crate) fn gl_r16i() -> (r: u32)
    ensures
        r == 0x8233,
{
    glow::R16I
}

/// Reads `glow::RG16I`; the contract claims that it equals `0x8239`.
#[verifier::external_body]
pub(crate) fn gl_rg16i() -> (r: u32)
    ensures
        r == 0x8239,
{
    glow::RG16I
}

/// Reads `glow::RGB16I`; the contract claims that it equals `0x8D89`.
#[verifier::external_body]
pub(crate) fn gl_rgb16i() -> (r: u32)
    ensures
        r == 0x8D89,
{
    glow::RGB16I
}

/// Reads `glow::RGBA16I`; the contract claims that it equals `0x8D88`.
#[verifier::external_body]
pub(crate) fn gl_rgba16i() -> (r: u32)
    ensures
        r == 0x8D88,
{
    glow::RGBA16I
}

/// Reads `glow::R32I`; the contract claims that it equals `0x8235`.
#[verifier::external_body]
pub(crate) fn gl_r32i() -> (r: u32)
    ensures
        r == 0x8235,
{
    glow::R32I
}

/// Reads `glow::RG32I`; the contract claims that it equals `0x823B`.
#[verifier::external_body]
pub(crate) fn gl_rg32i() -> (r: u32)
    ensures
        r == 0x823B,
{
    glow::RG32I
}

/// Reads `glow::RGB32I`; the contract claims that it equals `0x8D83`.
#[verifier::external_body]
pub(crate) fn gl_rgb32i() -> (r: u32)
    ensures
        r == 0x8D83,
{
    glow::RGB32I
}

/// Reads `glow::RGBA32I`; the contract claims that it equals `0x8D82`.
#[verifier::external_body]
pub(crate) fn gl_rgba32i() -> (r: u32)
    ensures
        r == 0x8D82,
{
    glow::RGBA32I
}

/// Reads `glow::R16F`; the contract claims that it equals `0x822D`.
#[verifier::external_body]
pub(crate) fn gl_r16f() -> (r: u32)
    ensures
        r == 0x822D,
{
    glow::R16F
}

/// Reads `glow::RG16F`; the contract claims that it equals `0x822F`.
#[verifier::external_body]
pub(crate) fn gl_rg16f() -> (r: u32)
    ensures
        r == 0x822F,
{
    glow::RG16F
}

/// Reads `glow::RGB16F`; the contract claims that it equals `0x881B`.
#[verifier::external_body]
pub(crate) fn gl_rgb16f() -> (r: u32)
    ensures
        r == 0x881B,
{
    glow::RGB16F
}

/// Reads `glow::RGBA16F`; the contract claims that it equals `0x881A`.
#[verifier::external_body]
pub(crate) fn gl_rgba16f() -> (r: u32)
    ensures
        r == 0x881A,
{
    glow::RGBA16F
}

/// Reads `glow::R32F`; the contract claims that it equals `0x822E`.
#[verifier::external_body]
pub(crate) fn gl_r32f() -> (r: u32)
    ensures
        r == 0x822E,
{
    glow::R32F
}

/// Reads `glow::RG32F`; the contract claims that it equals `0x8230`.
#[verifier::external_body]
pub(crate) fn gl_rg32f() -> (r: u32)
    ensures
        r == 0x8230,
{
    glow::RG32F
}

/// Reads `glow::RGB32F`; the contract claims that it equals `0x8815`.
#[verifier::external_body]
pub(crate) fn gl_rgb32f() -> (r: u32)
    ensures
        r == 0x8815,
{
    glow::RGB32F
}

/// Reads `glow::RGBA32F`; the contract claims that it equals `0x8814`.
#[verifier::external_body]
pub(crate) fn gl_rgba32f() -> (r: u32)
    ensures
        r == 0x8814,
{
    glow::RGBA32F
}

/// Reads `glow::DEPTH_COMPONENT16`; the contract claims that it equals `0x81A5`.
#[verifier::external_body]
pub(crate) fn gl_depth_component16() -> (r: u32)
    ensures
        r == 0x81A5,
{
    glow::DEPTH_COMPONENT16
}

/// Reads `glow::DEPTH_COMPONENT24`; the contract claims that it equals `0x81A6`.
#[verifier::external_body]
pub(crate) fn gl_depth_component24() -> (r: u32)
    ensures
        r == 0x81A6,
{
    glow::DEPTH_COMPONENT24
}

/// Reads `glow::DEPTH_COMPONENT32F`; the contract claims that it equals `0x8CAC`.
#[verifier::external_body]
pub(crate) fn gl_depth_component32f() -> (r: u32)
    ensures
        r == 0x8CAC,
{
    glow::DEPTH_COMPONENT32F
}

/// Reads `glow::RED`; the contract claims that it equals `0x1903`.
#[verifier::external_body]
pub(crate) fn gl_red() -> (r: u32)
    ensures
        r == 0x1903,
{
    glow::RED
}

/// Reads `glow::RG`; the contract claims that it equals `0x8227`.
#[verifier::external_body]
pub(crate) fn gl_rg() -> (r: u32)
    ensures
        r == 0x8227,
{
    glow::RG
}

/// Reads `glow::RGB`; the contract claims that it equals `0x1907`.
#[verifier::external_body]
pub(crate) fn gl_rgb() -> (r: u32)
    ensures
        r == 0x1907,
{
    glow::RGB
}

/// Reads `glow::RGBA`; the contract claims that it equals `0x1908`.
#[verifier::external_body]
pub(crate) fn gl_rgba() -> (r: u32)
    ensures
        r == 0x1908,
{
    glow::RGBA
}

/// Reads `glow::VERTEX_SHADER`; the contract claims that it equals `0x8B31`.
#[verifier::external_body]
pub(crate) fn gl_vertex_shader() -> (r: u32)
    ensures
        r == 0x8B31,
{
    glow::VERTEX_SHADER
}

/// Reads `glow::FRAGMENT_SHADER`; the contract claims that it equals `0x8B30`.
#[verifier::external_body]
pub(crate) fn gl_fragment_shader() -> (r: u32)
    ensures
        r == 0x8B30,
{
    glow::FRAGMENT_SHADER
}

/// Reads `glow::STATIC_DRAW`; the contract claims that it equals `0x88E4`.
#[verifier::external_body]
pub(crate) fn gl_static_draw() -> (r: u32)
    ensures
        r == 0x88E4,
{
    glow::STATIC_DRAW
}

/// Reads `glow::DYNAMIC_DRAW`; the contract claims that it equals `0x88E8`.
#[verifier::external_body]
pub(crate) fn gl_dynamic_draw() -> (r: u32)
    ensures
        r == 0x88E8,
{
    glow::DYNAMIC_DRAW
}

/// Reads `glow::COMPUTE_SHADER`; the contract claims that it equals `0x91B9`.
#[verifier::external_body]
pub(crate) fn gl_compute_shader() -> (r: u32)
    ensures
        r == 0x91B9,
{
    glow::COMPUTE_SHADER
}

/// Reads `glow::TESS_CONTROL_SHADER`; the contract claims that it equals `0x8E88`.
#[verifier::external_body]
pub(crate) fn gl_tess_control_shader() -> (r: u32)
    ensures
        r == 0x8E88,
{
    glow::TESS_CONTROL_SHADER
}

/// Reads `glow::TESS_EVALUATION_SHADER`; the contract claims that it equals `0x8E87`.
#[verifier::external_body]
pub(crate) fn gl_tess_evaluation_shader() -> (r: u32)
    ensures
        r == 0x8E87,
{
    glow::TESS_EVALUATION_SHADER
}

/// Reads `glow::GEOMETRY_SHADER`; the contract claims that it equals `0x8DD9`.
#[verifier::external_body]
pub(crate) fn gl_geometry_shader() -> (r: u32)
    ensures
        r == 0x8DD9,
{
    glow::GEOMETRY_SHADER
}

/// Reads `glow::ARRAY_BUFFER`; the contract claims that it equals `0x8892`.
#[verifier::external_body]
pub(crate) fn gl_array_buffer() -> (r: u32)
    ensures
        r == 0x8892,
{
    glow::ARRAY_BUFFER
}

/// Reads `glow::ARRAY_BUFFER_BINDING`; the contract claims that it equals `0x8894`.
#[verifier::external_body]
pub(crate) fn gl_array_buffer_binding() -> (r: u32)
    ensures
        r == 0x8894,
{
    glow::ARRAY_BUFFER_BINDING
}

/// Reads `glow::ELEMENT_ARRAY_BUFFER`; the contract claims that it equals `0x8893`.
#[verifier::external_body]
pub(crate) fn gl_element_array_buffer() -> (r: u32)
    ensures
        r == 0x8893,
{
    glow::ELEMENT_ARRAY_BUFFER
}

/// Reads `glow::ELEMENT_ARRAY_BUFFER_BINDING`; the contract claims that it equals `0x8895`.
#[verifier::external_body]
pub(crate) fn gl_element_array_buffer_binding() -> (r: u32)
    ensures
        r == 0x8895,
{
    glow::ELEMENT_ARRAY_BUFFER_BINDING
}

/// Reads `glow::UNIFORM_BUFFER_BINDING`; the contract claims that it equals `0x8A28`.
#[verifier::external_body]
pub(crate) fn gl_uniform_buffer_binding() -> (r: u32)
    ensures
        r == 0x8A28,
{
    glow::UNIFORM_BUFFER_BINDING
}

/// Reads `glow::COLOR_ATTACHMENT0`; the contract claims that it equals `0x8CE0`.
#[verifier::external_body]
pub(crate) fn gl_color_attachment0() -> (r: u32)
    ensures
        r == 0x8CE0,
{
    glow::COLOR_ATTACHMENT0
}

/// Reads `glow::TEXTURE0`; the contract claims that it equals `0x84C0`.
#[verifier::external_body]
pub(crate) fn gl_texture0() -> (r: u32)
    ensures
        r == 0x84C0,
{
    glow::TEXTURE0
}

/// Reads `glow::COLOR_BUFFER_BIT`; the contract claims that it equals `0x00004000`.
#[verifier::external_body]
pub(crate) fn gl_color_buffer_bit() -> (r: u32)
    ensures
        r == 0x00004000,
{
    glow::COLOR_BUFFER_BIT
}

/// Reads `glow::DEPTH_BUFFER_BIT`; the contract claims that it equals `0x00000100`.
#[verifier::external_body]
pub(crate) fn gl_depth_buffer_bit() -> (r: u32)
    ensures
        r == 0x00000100,
{
    glow::DEPTH_BUFFER_BIT
}

/// Reads `glow::NEAREST`; the contract claims that it equals `0x2600`.
#[verifier::external_body]
pub(crate) fn gl_nearest() -> (r: u32)
    ensures
        r == 0x2600,
{
    glow::NEAREST
}

/// Reads `glow::LINEAR`; the contract claims that it equals `0x2601`.
#[verifier::external_body]
pub(crate) fn gl_linear() -> (r: u32)
    ensures
        r == 0x2601,
{
    glow::LINEAR
}

/// Reads `glow::REPEAT`; the contract claims that it equals `0x2901`.
#[verifier::external_body]
pub(crate) fn gl_repeat() -> (r: u32)
    ensures
        r == 0x2901,
{
    glow::REPEAT
}

/// Reads `glow::MIRRORED_REPEAT`; the contract claims that it equals `0x8370`.
#[verifier::external_body]
pub(crate) fn gl_mirrored_repeat() -> (r: u32)
    ensures
        r == 0x8370,
{
    glow::MIRRORED_REPEAT
}

/// Reads `glow::CLAMP_TO_EDGE`; the contract claims that it equals `0x812F`.
#[verifier::external_body]
pub(crate) fn gl_clamp_to_edge() -> (r: u32)
    ensures
        r == 0x812F,
{
    glow::CLAMP_TO_EDGE
}

/// Reads `glow::RGBA4`; the contract claims that it equals `0x8056`.
#[verifier::external_body]
pub(crate) fn gl_rgba4() -> (r: u32)
    ensures
        r == 0x8056,
{
    glow::RGBA4
}

} // verus!
