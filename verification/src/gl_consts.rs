//! The OpenGL constants that this library reads from the `gl` crate.
//!
//! Each function here returns one constant of the `gl` crate, whose value the
//! crate's build script copies from the Khronos OpenGL registry (`gl.xml`).
//! The contract of each function states that registry value, which the rest
//! of the library relies on when it maps its enums to raw OpenGL values.

use vstd::prelude::*;

verus! {

/// Returns `gl::BLEND`; the registry gives it the value `0x0BE2`.
#[verifier::external_body]
pub(crate) fn gl_blend() -> (r: u32)
    ensures
        r == 0x0BE2,
{
    gl::BLEND
}

/// Returns `gl::CULL_FACE`; the registry gives it the value `0x0B44`.
#[verifier::external_body]
pub(crate) fn gl_cull_face() -> (r: u32)
    ensures
        r == 0x0B44,
{
    gl::CULL_FACE
}

/// Returns `gl::DEPTH_TEST`; the registry gives it the value `0x0B71`.
#[verifier::external_body]
pub(crate) fn gl_depth_test() -> (r: u32)
    ensures
        r == 0x0B71,
{
    gl::DEPTH_TEST
}

/// Returns `gl::DITHER`; the registry gives it the value `0x0BD0`.
#[verifier::external_body]
pub(crate) fn gl_dither() -> (r: u32)
    ensures
        r == 0x0BD0,
{
    gl::DITHER
}

/// Returns `gl::POLYGON_OFFSET_FILL`; the registry gives it the value `0x8037`.
#[verifier::external_body]
pub(crate) fn gl_polygon_offset_fill() -> (r: u32)
    ensures
        r == 0x8037,
{
    gl::POLYGON_OFFSET_FILL
}

/// Returns `gl::SAMPLE_ALPHA_TO_COVERAGE`; the registry gives it the value `0x809E`.
#[verifier::external_body]
pub(crate) fn gl_sample_alpha_to_coverage() -> (r: u32)
    ensures
        r == 0x809E,
{
    gl::SAMPLE_ALPHA_TO_COVERAGE
}

/// Returns `gl::SAMPLE_COVERAGE`; the registry gives it the value `0x80A0`.
#[verifier::external_body]
pub(crate) fn gl_sample_coverage() -> (r: u32)
    ensures
        r == 0x80A0,
{
    gl::SAMPLE_COVERAGE
}

/// Returns `gl::SCISSOR_TEST`; the registry gives it the value `0x0C11`.
#[verifier::external_body]
pub(crate) fn gl_scissor_test() -> (r: u32)
    ensures
        r == 0x0C11,
{
    gl::SCISSOR_TEST
}

/// Returns `gl::STENCIL_TEST`; the registry gives it the value `0x0B90`.
#[verifier::external_body]
pub(crate) fn gl_stencil_test() -> (r: u32)
    ensures
        r == 0x0B90,
{
    gl::STENCIL_TEST
}

/// Returns `gl::POINTS`; the registry gives it the value `0x0000`.
#[verifier::external_body]
pub(crate) fn gl_points() -> (r: u32)
    ensures
        r == 0x0000,
{
    gl::POINTS
}

/// Returns `gl::LINES`; the registry gives it the value `0x0001`.
#[verifier::external_body]
pub(crate) fn gl_lines() -> (r: u32)
    ensures
        r == 0x0001,
{
    gl::LINES
}

/// Returns `gl::LINE_LOOP`; the registry gives it the value `0x0002`.
#[verifier::external_body]
pub(crate) fn gl_line_loop() -> (r: u32)
    ensures
        r == 0x0002,
{
    gl::LINE_LOOP
}

/// Returns `gl::LINE_STRIP`; the registry gives it the value `0x0003`.
#[verifier::external_body]
pub(crate) fn gl_line_strip() -> (r: u32)
    ensures
        r == 0x0003,
{
    gl::LINE_STRIP
}

/// Returns `gl::TRIANGLES`; the registry gives it the value `0x0004`.
#[verifier::external_body]
pub(crate) fn gl_triangles() -> (r: u32)
    ensures
        r == 0x0004,
{
    gl::TRIANGLES
}

/// Returns `gl::TRIANGLE_STRIP`; the registry gives it the value `0x0005`.
#[verifier::external_body]
pub(crate) fn gl_triangle_strip() -> (r: u32)
    ensures
        r == 0x0005,
{
    gl::TRIANGLE_STRIP
}

/// Returns `gl::TRIANGLE_FAN`; the registry gives it the value `0x0006`.
#[verifier::external_body]
pub(crate) fn gl_triangle_fan() -> (r: u32)
    ensures
        r == 0x0006,
{
    gl::TRIANGLE_FAN
}

/// Returns `gl::BYTE`; the registry gives it the value `0x1400`.
#[verifier::external_body]
pub(crate) fn gl_byte() -> (r: u32)
    ensures
        r == 0x1400,
{
    gl::BYTE
}

/// Returns `gl::UNSIGNED_BYTE`; the registry gives it the value `0x1401`.
#[verifier::external_body]
pub(crate) fn gl_unsigned_byte() -> (r: u32)
    ensures
        r == 0x1401,
{
    gl::UNSIGNED_BYTE
}

/// Returns `gl::SHORT`; the registry gives it the value `0x1402`.
#[verifier::external_body]
pub(crate) fn gl_short() -> (r: u32)
    ensures
        r == 0x1402,
{
    gl::SHORT
}

/// Returns `gl::UNSIGNED_SHORT`; the registry gives it the value `0x1403`.
#[verifier::external_body]
pub(crate) fn gl_unsigned_short() -> (r: u32)
    ensures
        r == 0x1403,
{
    gl::UNSIGNED_SHORT
}

/// Returns `gl::FLOAT`; the registry gives it the value `0x1406`.
#[verifier::external_body]
pub(crate) fn gl_float() -> (r: u32)
    ensures
        r == 0x1406,
{
    gl::FLOAT
}

/// Returns `gl::FIXED`; the registry gives it the value `0x140C`.
#[verifier::external_body]
pub(crate) fn gl_fixed() -> (r: u32)
    ensures
        r == 0x140C,
{
    gl::FIXED
}

/// Returns `gl::INVALID_ENUM`; the registry gives it the value `0x0500`.
#[verifier::external_body]
pub(crate) fn gl_invalid_enum() -> (r: u32)
    ensures
        r == 0x0500,
{
    gl::INVALID_ENUM
}

/// Returns `gl::INVALID_VALUE`; the registry gives it the value `0x0501`.
#[verifier::external_body]
pub(crate) fn gl_invalid_value() -> (r: u32)
    ensures
        r == 0x0501,
{
    gl::INVALID_VALUE
}

/// Returns `gl::INVALID_OPERATION`; the registry gives it the value `0x0502`.
#[verifier::external_body]
pub(crate) fn gl_invalid_operation() -> (r: u32)
    ensures
        r == 0x0502,
{
    gl::INVALID_OPERATION
}

/// Returns `gl::OUT_OF_MEMORY`; the registry gives it the value `0x0505`.
#[verifier::external_body]
pub(crate) fn gl_out_of_memory() -> (r: u32)
    ensures
        r == 0x0505,
{
    gl::OUT_OF_MEMORY
}

/// Returns `gl::INVALID_FRAMEBUFFER_OPERATION`; the registry gives it the value `0x0506`.
#[verifier::external_body]
pub(crate) fn gl_invalid_framebuffer_operation() -> (r: u32)
    ensures
        r == 0x0506,
{
    gl::INVALID_FRAMEBUFFER_OPERATION
}

/// Returns `gl::DEPTH_BUFFER_BIT`; the registry gives it the value `0x00000100`.
#[verifier::external_body]
pub(crate) fn gl_depth_buffer_bit() -> (r: u32)
    ensures
        r == 0x00000100,
{
    gl::DEPTH_BUFFER_BIT
}

/// Returns `gl::STENCIL_BUFFER_BIT`; the registry gives it the value `0x00000400`.
#[verifier::external_body]
pub(crate) fn gl_stencil_buffer_bit() -> (r: u32)
    ensures
        r == 0x00000400,
{
    gl::STENCIL_BUFFER_BIT
}

/// Returns `gl::COLOR_BUFFER_BIT`; the registry gives it the value `0x00004000`.
#[verifier::external_body]
pub(crate) fn gl_color_buffer_bit() -> (r: u32)
    ensures
        r == 0x00004000,
{
    gl::COLOR_BUFFER_BIT
}

/// Returns `gl::STREAM_DRAW`; the registry gives it the value `0x88E0`.
#[verifier::external_body]
pub(crate) fn gl_stream_draw() -> (r: u32)
    ensures
        r == 0x88E0,
{
    gl::STREAM_DRAW
}

/// Returns `gl::STATIC_DRAW`; the registry gives it the value `0x88E4`.
#[verifier::external_body]
pub(crate) fn gl_static_draw() -> (r: u32)
    ensures
        r == 0x88E4,
{
    gl::STATIC_DRAW
}

/// Returns `gl::DYNAMIC_DRAW`; the registry gives it the value `0x88E8`.
#[verifier::external_body]
pub(crate) fn gl_dynamic_draw() -> (r: u32)
    ensures
        r == 0x88E8,
{
    gl::DYNAMIC_DRAW
}

/// Returns `gl::ARRAY_BUFFER`; the registry gives it the value `0x8892`.
#[verifier::external_body]
pub(crate) fn gl_array_buffer() -> (r: u32)
    ensures
        r == 0x8892,
{
    gl::ARRAY_BUFFER
}

/// Returns `gl::ELEMENT_ARRAY_BUFFER`; the registry gives it the value `0x8893`.
#[verifier::external_body]
pub(crate) fn gl_element_array_buffer() -> (r: u32)
    ensures
        r == 0x8893,
{
    gl::ELEMENT_ARRAY_BUFFER
}

/// Returns `gl::UNSIGNED_SHORT_4_4_4_4`; the registry gives it the value `0x8033`.
#[verifier::external_body]
pub(crate) fn gl_unsigned_short_4_4_4_4() -> (r: u32)
    ensures
        r == 0x8033,
{
    gl::UNSIGNED_SHORT_4_4_4_4
}

/// Returns `gl::UNSIGNED_SHORT_5_5_5_1`; the registry gives it the value `0x8034`.
#[verifier::external_body]
pub(crate) fn gl_unsigned_short_5_5_5_1() -> (r: u32)
    ensures
        r == 0x8034,
{
    gl::UNSIGNED_SHORT_5_5_5_1
}

/// Returns `gl::UNSIGNED_SHORT_5_6_5`; the registry gives it the value `0x8363`.
#[verifier::external_body]
pub(crate) fn gl_unsigned_short_5_6_5() -> (r: u32)
    ensures
        r == 0x8363,
{
    gl::UNSIGNED_SHORT_5_6_5
}

/// Returns `gl::ALPHA`; the registry gives it the value `0x1906`.
#[verifier::external_body]
pub(crate) fn gl_alpha() -> (r: u32)
    ensures
        r == 0x1906,
{
    gl::ALPHA
}

/// Returns `gl::RGB`; the registry gives it the value `0x1907`.
#[verifier::external_body]
pub(crate) fn gl_rgb() -> (r: u32)
    ensures
        r == 0x1907,
{
    gl::RGB
}

/// Returns `gl::RGBA`; the registry gives it the value `0x1908`.
#[verifier::external_body]
pub(crate) fn gl_rgba() -> (r: u32)
    ensures
        r == 0x1908,
{
    gl::RGBA
}

/// Returns `gl::RGBA4`; the registry gives it the value `0x8056`.
#[verifier::external_body]
pub(crate) fn gl_rgba4() -> (r: u32)
    ensures
        r == 0x8056,
{
    gl::RGBA4
}

/// Returns `gl::RGB5_A1`; the registry gives it the value `0x8057`.
#[verifier::external_body]
pub(crate) fn gl_rgb5_a1() -> (r: u32)
    ensures
        r == 0x8057,
{
    gl::RGB5_A1
}

/// Returns `gl::DEPTH_COMPONENT16`; the registry gives it the value `0x81A5`.
#[verifier::external_body]
pub(crate) fn gl_depth_component16() -> (r: u32)
    ensures
        r == 0x81A5,
{
    gl::DEPTH_COMPONENT16
}

/// Returns `gl::RGB565`; the registry gives it the value `0x8D62`.
#[verifier::external_body]
pub(crate) fn gl_rgb565() -> (r: u32)
    ensures
        r == 0x8D62,
{
    gl::RGB565
}

/// Returns `gl::STENCIL_INDEX8`; the registry gives it the value `0x8D48`.
#[verifier::external_body]
pub(crate) fn gl_stencil_index8() -> (r: u32)
    ensures
        r == 0x8D48,
{
    gl::STENCIL_INDEX8
}

/// Returns `gl::FRAMEBUFFER`; the registry gives it the value `0x8D40`.
#[verifier::external_body]
pub(crate) fn gl_framebuffer() -> (r: u32)
    ensures
        r == 0x8D40,
{
    gl::FRAMEBUFFER
}

/// Returns `gl::RENDERBUFFER`; the registry gives it the value `0x8D41`.
#[verifier::external_body]
pub(crate) fn gl_renderbuffer() -> (r: u32)
    ensures
        r == 0x8D41,
{
    gl::RENDERBUFFER
}

/// Returns `gl::COLOR_ATTACHMENT0`; the registry gives it the value `0x8CE0`.
#[verifier::external_body]
pub(crate) fn gl_color_attachment0() -> (r: u32)
    ensures
        r == 0x8CE0,
{
    gl::COLOR_ATTACHMENT0
}

/// Returns `gl::DEPTH_ATTACHMENT`; the registry gives it the value `0x8D00`.
#[verifier::external_body]
pub(crate) fn gl_depth_attachment() -> (r: u32)
    ensures
        r == 0x8D00,
{
    gl::DEPTH_ATTACHMENT
}

/// Returns `gl::STENCIL_ATTACHMENT`; the registry gives it the value `0x8D20`.
#[verifier::external_body]
pub(crate) fn gl_stencil_attachment() -> (r: u32)
    ensures
        r == 0x8D20,
{
    gl::STENCIL_ATTACHMENT
}

/// Returns `gl::FRAMEBUFFER_COMPLETE`; the registry gives it the value `0x8CD5`.
#[verifier::external_body]
pub(crate) fn gl_framebuffer_complete() -> (r: u32)
    ensures
        r == 0x8CD5,
{
    gl::FRAMEBUFFER_COMPLETE
}

/// Returns `gl::FRAMEBUFFER_INCOMPLETE_ATTACHMENT`; the registry gives it the value `0x8CD6`.
#[verifier::external_body]
pub(crate) fn gl_framebuffer_incomplete_attachment() -> (r: u32)
    ensures
        r == 0x8CD6,
{
    gl::FRAMEBUFFER_INCOMPLETE_ATTACHMENT
}

/// Returns `gl::FRAMEBUFFER_INCOMPLETE_MISSING_ATTACHMENT`; the registry gives it the value `0x8CD7`.
#[verifier::external_body]
pub(crate) fn gl_framebuffer_incomplete_missing_attachment() -> (r: u32)
    ensures
        r == 0x8CD7,
{
    gl::FRAMEBUFFER_INCOMPLETE_MISSING_ATTACHMENT
}

/// Returns `gl::TEXTURE_2D`; the registry gives it the value `0x0DE1`.
#[verifier::external_body]
pub(crate) fn gl_texture_2d() -> (r: u32)
    ensures
        r == 0x0DE1,
{
    gl::TEXTURE_2D
}

/// Returns `gl::TEXTURE_CUBE_MAP`; the registry gives it the value `0x8513`.
#[verifier::external_body]
pub(crate) fn gl_texture_cube_map() -> (r: u32)
    ensures
        r == 0x8513,
{
    gl::TEXTURE_CUBE_MAP
}

/// Returns `gl::TEXTURE_CUBE_MAP_POSITIVE_X`; the registry gives it the value `0x8515`.
#[verifier::external_body]
pub(crate) fn gl_texture_cube_map_positive_x() -> (r: u32)
    ensures
        r == 0x8515,
{
    gl::TEXTURE_CUBE_MAP_POSITIVE_X
}

/// Returns `gl::TEXTURE_CUBE_MAP_NEGATIVE_X`; the registry gives it the value `0x8516`.
#[verifier::external_body]
pub(crate) fn gl_texture_cube_map_negative_x() -> (r: u32)
    ensures
        r == 0x8516,
{
    gl::TEXTURE_CUBE_MAP_NEGATIVE_X
}

/// Returns `gl::TEXTURE_CUBE_MAP_POSITIVE_Y`; the registry gives it the value `0x8517`.
#[verifier::external_body]
pub(crate) fn gl_texture_cube_map_positive_y() -> (r: u32)
    ensures
        r == 0x8517,
{
    gl::TEXTURE_CUBE_MAP_POSITIVE_Y
}

/// Returns `gl::TEXTURE_CUBE_MAP_NEGATIVE_Y`; the registry gives it the value `0x8518`.
#[verifier::external_body]
pub(crate) fn gl_texture_cube_map_negative_y() -> (r: u32)
    ensures
        r == 0x8518,
{
    gl::TEXTURE_CUBE_MAP_NEGATIVE_Y
}

/// Returns `gl::TEXTURE_CUBE_MAP_POSITIVE_Z`; the registry gives it the value `0x8519`.
#[verifier::external_body]
pub(crate) fn gl_texture_cube_map_positive_z() -> (r: u32)
    ensures
        r == 0x8519,
{
    gl::TEXTURE_CUBE_MAP_POSITIVE_Z
}

/// Returns `gl::TEXTURE_CUBE_MAP_NEGATIVE_Z`; the registry gives it the value `0x851A`.
#[verifier::external_body]
pub(crate) fn gl_texture_cube_map_negative_z() -> (r: u32)
    ensures
        r == 0x851A,
{
    gl::TEXTURE_CUBE_MAP_NEGATIVE_Z
}

/// Returns `gl::NEAREST`; the registry gives it the value `0x2600`.
#[verifier::external_body]
pub(crate) fn gl_nearest() -> (r: u32)
    ensures
        r == 0x2600,
{
    gl::NEAREST
}

/// Returns `gl::LINEAR`; the registry gives it the value `0x2601`.
#[verifier::external_body]
pub(crate) fn gl_linear() -> (r: u32)
    ensures
        r == 0x2601,
{
    gl::LINEAR
}

/// Returns `gl::NEAREST_MIPMAP_NEAREST`; the registry gives it the value `0x2700`.
#[verifier::external_body]
pub(crate) fn gl_nearest_mipmap_nearest() -> (r: u32)
    ensures
        r == 0x2700,
{
    gl::NEAREST_MIPMAP_NEAREST
}

/// Returns `gl::LINEAR_MIPMAP_NEAREST`; the registry gives it the value `0x2701`.
#[verifier::external_body]
pub(crate) fn gl_linear_mipmap_nearest() -> (r: u32)
    ensures
        r == 0x2701,
{
    gl::LINEAR_MIPMAP_NEAREST
}

/// Returns `gl::NEAREST_MIPMAP_LINEAR`; the registry gives it the value `0x2702`.
#[verifier::external_body]
pub(crate) fn gl_nearest_mipmap_linear() -> (r: u32)
    ensures
        r == 0x2702,
{
    gl::NEAREST_MIPMAP_LINEAR
}

/// Returns `gl::LINEAR_MIPMAP_LINEAR`; the registry gives it the value `0x2703`.
#[verifier::external_body]
pub(crate) fn gl_linear_mipmap_linear() -> (r: u32)
    ensures
        r == 0x2703,
{
    gl::LINEAR_MIPMAP_LINEAR
}

/// Returns `gl::TEXTURE_MAG_FILTER`; the registry gives it the value `0x2800`.
#[verifier::external_body]
pub(crate) fn gl_texture_mag_filter() -> (r: u32)
    ensures
        r == 0x2800,
{
    gl::TEXTURE_MAG_FILTER
}

/// Returns `gl::TEXTURE_MIN_FILTER`; the registry gives it the value `0x2801`.
#[verifier::external_body]
pub(crate) fn gl_texture_min_filter() -> (r: u32)
    ensures
        r == 0x2801,
{
    gl::TEXTURE_MIN_FILTER
}

/// Returns `gl::TEXTURE_WRAP_S`; the registry gives it the value `0x2802`.
#[verifier::external_body]
pub(crate) fn gl_texture_wrap_s() -> (r: u32)
    ensures
        r == 0x2802,
{
    gl::TEXTURE_WRAP_S
}

/// Returns `gl::TEXTURE_WRAP_T`; the registry gives it the value `0x2803`.
#[verifier::external_body]
pub(crate) fn gl_texture_wrap_t() -> (r: u32)
    ensures
        r == 0x2803,
{
    gl::TEXTURE_WRAP_T
}

/// Returns `gl::REPEAT`; the registry gives it the value `0x2901`.
#[verifier::external_body]
pub(crate) fn gl_repeat() -> (r: u32)
    ensures
        r == 0x2901,
{
    gl::REPEAT
}

/// Returns `gl::CLAMP_TO_EDGE`; the registry gives it the value `0x812F`.
#[verifier::external_body]
pub(crate) fn gl_clamp_to_edge() -> (r: u32)
    ensures
        r == 0x812F,
{
    gl::CLAMP_TO_EDGE
}

/// Returns `gl::MIRRORED_REPEAT`; the registry gives it the value `0x8370`.
#[verifier::external_body]
pub(crate) fn gl_mirrored_repeat() -> (r: u32)
    ensures
        r == 0x8370,
{
    gl::MIRRORED_REPEAT
}

/// Returns `gl::TEXTURE0`; the registry gives it the value `0x84C0`.
#[verifier::external_body]
pub(crate) fn gl_texture0() -> (r: u32)
    ensures
        r == 0x84C0,
{
    gl::TEXTURE0
}

/// Returns `gl::FRAGMENT_SHADER`; the registry gives it the value `0x8B30`.
#[verifier::external_body]
pub(crate) fn gl_fragment_shader() -> (r: u32)
    ensures
        r == 0x8B30,
{
    gl::FRAGMENT_SHADER
}

/// Returns `gl::VERTEX_SHADER`; the registry gives it the value `0x8B31`.
#[verifier::external_body]
pub(crate) fn gl_vertex_shader() -> (r: u32)
    ensures
        r == 0x8B31,
{
    gl::VERTEX_SHADER
}

/// Returns `gl::TRUE`, the OpenGL boolean true; the registry gives it the value `1`.
#[verifier::external_body]
pub(crate) fn gl_true() -> (r: u8)
    ensures
        r == 1,
{
    gl::TRUE
}

/// Returns `gl::FALSE`, the OpenGL boolean false; the registry gives it the value `0`.
#[verifier::external_body]
pub(crate) fn gl_false() -> (r: u8)
    ensures
        r == 0,
{
    gl::FALSE
}

} // verus!
