//! Image data that can be uploaded to textures.

use vstd::prelude::*;
use crate::gl_consts::{gl_alpha, gl_depth_component16, gl_rgb, gl_rgb565, gl_rgb5_a1, gl_rgba, gl_rgba4, gl_stencil_index8, gl_unsigned_byte, gl_unsigned_short_4_4_4_4, gl_unsigned_short_5_5_5_1, gl_unsigned_short_5_6_5};

verus! {

/// A 2-dimensional image that can be uploaded to a texture.
pub trait Image2d {
    /// The width of the image, in texels.
    spec fn spec_width(&self) -> usize;

    /// The height of the image, in texels.
    spec fn spec_height(&self) -> usize;

    /// The format of the image's texels.
    spec fn spec_format(&self) -> ImageFormat;

    /// The bytes of the image's texels.
    spec fn spec_texel_bytes(&self) -> Seq<u8>;

    /// The width of the image, in texels.
    fn width(&self) -> (r: usize)
        ensures
            r == self.spec_width(),
    ;

    /// The height of the image, in texels.
    fn height(&self) -> (r: usize)
        ensures
            r == self.spec_height(),
    ;

    /// The format of the image's texels.
    fn format(&self) -> (r: ImageFormat)
        ensures
            r == self.spec_format(),
    ;

    /// The bytes of the image's texels, row after row.
    fn texel_bytes(&self) -> (r: Vec<u8>)
        ensures
            r@ == self.spec_texel_bytes(),
    ;
}

/// A color with 8-bit red, green, blue and alpha components.
#[derive(Debug, Clone, Copy, PartialEq, Eq, Structural)]
pub struct Pixel {
    r: u8,
    g: u8,
    b: u8,
    a: u8,
}

impl View for Pixel {
    type V = (u8, u8, u8, u8);

    /// The red, green, blue and alpha components of the pixel.
    closed spec fn view(&self) -> (u8, u8, u8, u8) {
        (self.r, self.g, self.b, self.a)
    }
}

/// The byte at `shift` bits of `x` (shift is 0, 8, 16 or 24).
pub open spec fn byte_of(x: u32, shift: nat) -> u8 {
    ((x as nat / pow2_of(shift)) % 256) as u8
}

/// Two to the power `shift`, for the shifts that select a byte.
pub open spec fn pow2_of(shift: nat) -> nat {
    if shift == 24 {
        0x1000000
    } else if shift == 16 {
        0x10000
    } else if shift == 8 {
        0x100
    } else {
        1
    }
}

proof fn lemma_bytes_of(x: u32)
    ensures
        ((x & 0xFF000000) >> 24u32) as u8 == byte_of(x, 24),
        ((x & 0x00FF0000) >> 16u32) as u8 == byte_of(x, 16),
        ((x & 0x0000FF00) >> 8u32) as u8 == byte_of(x, 8),
        (x & 0x000000FF) as u8 == byte_of(x, 0),
        ((x & 0xFF0000) >> 16u32) as u8 == byte_of(x, 16),
        ((x & 0x00FF00) >> 8u32) as u8 == byte_of(x, 8),
        (x & 0x0000FF) as u8 == byte_of(x, 0),
{
    assert(((x & 0xFF000000) >> 24u32) as u8 == ((x / 0x1000000) % 256) as u8) by (bit_vector);
    assert(((x & 0x00FF0000) >> 16u32) as u8 == ((x / 0x10000) % 256) as u8) by (bit_vector);
    assert(((x & 0x0000FF00) >> 8u32) as u8 == ((x / 0x100) % 256) as u8) by (bit_vector);
    assert((x & 0x000000FF) as u8 == (x % 256) as u8) by (bit_vector);
    assert(((x & 0xFF0000) >> 16u32) as u8 == ((x / 0x10000) % 256) as u8) by (bit_vector);
    assert(((x & 0x00FF00) >> 8u32) as u8 == ((x / 0x100) % 256) as u8) by (bit_vector);
    assert((x & 0x0000FF) as u8 == (x % 256) as u8) by (bit_vector);
}

impl Pixel {
    /// Create a pixel from its red, green, blue and alpha components.
    pub fn r_g_b_a(r: u8, g: u8, b: u8, a: u8) -> (p: Self)
        ensures
            p@ == (r, g, b, a),
    {
        Pixel { r: r, g: g, b: b, a: a }
    }

    /// Create an opaque pixel from its red, green and blue components.
    pub fn r_g_b(r: u8, g: u8, b: u8) -> (p: Self)
        ensures
            p@ == (r, g, b, 0xFFu8),
    {
        Pixel::r_g_b_a(r, g, b, 0xFF)
    }

    /// Create an opaque pixel from a `0xRRGGBB` value (the top byte is
    /// ignored).
    pub fn rgb(rgb: u32) -> (p: Self)
        ensures
            p@ == (byte_of(rgb, 16), byte_of(rgb, 8), byte_of(rgb, 0), 0xFFu8),
    {
        Pixel::rgb_a(rgb, 0xFF)
    }

    /// Create a pixel from a `0xAARRGGBB` value.
    pub fn argb(argb: u32) -> (p: Self)
        ensures
            p@ == (byte_of(argb, 16), byte_of(argb, 8), byte_of(argb, 0), byte_of(argb, 24)),
    {
        let a = (argb & 0xFF000000) >> 24;
        proof {
            lemma_bytes_of(argb);
        }
        Pixel::rgb_a(argb, a as u8)
    }

    /// Create a pixel from a `0xRRGGBBAA` value.
    pub fn rgba(rgba: u32) -> (p: Self)
        ensures
            p@ == (byte_of(rgba, 24), byte_of(rgba, 16), byte_of(rgba, 8), byte_of(rgba, 0)),
    {
        let r = (rgba & 0xFF000000) >> 24;
        let g = (rgba & 0x00FF0000) >> 16;
        let b = (rgba & 0x0000FF00) >> 8;
        let a = rgba & 0x000000FF;
        proof {
            lemma_bytes_of(rgba);
        }
        Pixel::r_g_b_a(r as u8, g as u8, b as u8, a as u8)
    }

    /// Create a pixel from a `0xRRGGBB` value (the top byte is ignored) and
    /// an alpha component.
    pub fn rgb_a(rgb: u32, a: u8) -> (p: Self)
        ensures
            p@ == (byte_of(rgb, 16), byte_of(rgb, 8), byte_of(rgb, 0), a),
    {
        let r = (rgb & 0xFF0000) >> 16;
        let g = (rgb & 0x00FF00) >> 8;
        let b = rgb & 0x0000FF;
        proof {
            lemma_bytes_of(rgb);
        }
        Pixel::r_g_b_a(r as u8, g as u8, b as u8, a)
    }
}

/// Packing four components into a `0xRRGGBBAA` value and reading them back
/// with [`Pixel::rgba`] gives the same components; the same holds of
/// `0xAARRGGBB` values and [`Pixel::argb`], and of `0xRRGGBB` values and
/// [`Pixel::rgb_a`].
pub proof fn lemma_pixel_packing(r: u8, g: u8, b: u8, a: u8)
    ensures
        ({
            let x = (r as nat * 0x1000000 + g as nat * 0x10000 + b as nat * 0x100 + a as nat) as u32;
            &&& byte_of(x, 24) == r
            &&& byte_of(x, 16) == g
            &&& byte_of(x, 8) == b
            &&& byte_of(x, 0) == a
        }),
        ({
            let x = (a as nat * 0x1000000 + r as nat * 0x10000 + g as nat * 0x100 + b as nat) as u32;
            &&& byte_of(x, 24) == a
            &&& byte_of(x, 16) == r
            &&& byte_of(x, 8) == g
            &&& byte_of(x, 0) == b
        }),
{
    assert(((r as nat * 0x1000000 + g as nat * 0x10000 + b as nat * 0x100 + a as nat) / 0x1000000) % 256 == r
        && ((r as nat * 0x1000000 + g as nat * 0x10000 + b as nat * 0x100 + a as nat) / 0x10000) % 256 == g
        && ((r as nat * 0x1000000 + g as nat * 0x10000 + b as nat * 0x100 + a as nat) / 0x100) % 256 == b
        && (r as nat * 0x1000000 + g as nat * 0x10000 + b as nat * 0x100 + a as nat) % 256 == a)
        by (nonlinear_arith)
        requires
            r < 256,
            g < 256,
            b < 256,
            a < 256,
    ;
    assert(((a as nat * 0x1000000 + r as nat * 0x10000 + g as nat * 0x100 + b as nat) / 0x1000000) % 256 == a
        && ((a as nat * 0x1000000 + r as nat * 0x10000 + g as nat * 0x100 + b as nat) / 0x10000) % 256 == r
        && ((a as nat * 0x1000000 + r as nat * 0x10000 + g as nat * 0x100 + b as nat) / 0x100) % 256 == g
        && (a as nat * 0x1000000 + r as nat * 0x10000 + g as nat * 0x100 + b as nat) % 256 == b)
        by (nonlinear_arith)
        requires
            r < 256,
            g < 256,
            b < 256,
            a < 256,
    ;
}

/// The data types of the components of a texel.
#[derive(Debug, Clone, Copy, PartialEq, Eq, Hash, Structural)]
pub enum TexelType {
    /// Each component is an unsigned byte.
    UnsignedByte,
    /// Red, green and blue are packed into 5, 6 and 5 bits of a short.
    UnsignedShort565,
    /// All four components are packed into 4 bits each of a short.
    UnsignedShort4444,
    /// Red, green and blue take 5 bits each and alpha 1 bit of a short.
    UnsignedShort5551,
}

/// The `TexelType::UnsignedByte` variant, named as the OpenGL constant `GL_UNSIGNED_BYTE`.
pub const UNSIGNED_BYTE_TEXEL: TexelType = TexelType::UnsignedByte;

/// The `TexelType::UnsignedShort565` variant, named as the OpenGL constant `GL_UNSIGNED_SHORT_5_6_5`.
pub const UNSIGNED_SHORT_5_6_5: TexelType = TexelType::UnsignedShort565;

/// The `TexelType::UnsignedShort4444` variant, named as the OpenGL constant `GL_UNSIGNED_SHORT_4_4_4_4`.
pub const UNSIGNED_SHORT_4_4_4_4: TexelType = TexelType::UnsignedShort4444;

/// The `TexelType::UnsignedShort5551` variant, named as the OpenGL constant `GL_UNSIGNED_SHORT_5_5_5_1`.
pub const UNSIGNED_SHORT_5_5_5_1: TexelType = TexelType::UnsignedShort5551;

impl TexelType {
    /// Each variant's raw value is the OpenGL registry's value of the
    /// constant that the variant is named after (the value that the
    /// matching `gl_consts` wrapper returns), so no two variants trade places.
    pub proof fn lemma_registry_values()
        ensures
            (TexelType::UnsignedByte).spec_gl_enum() == 0x1401,
            (TexelType::UnsignedShort565).spec_gl_enum() == 0x8363,
            (TexelType::UnsignedShort4444).spec_gl_enum() == 0x8033,
            (TexelType::UnsignedShort5551).spec_gl_enum() == 0x8034,
    {
    }

    /// The raw OpenGL value of each variant.
    pub open spec fn spec_gl_enum(self) -> u32 {
        match self {
            TexelType::UnsignedByte => 0x1401,
            TexelType::UnsignedShort565 => 0x8363,
            TexelType::UnsignedShort4444 => 0x8033,
            TexelType::UnsignedShort5551 => 0x8034,
        }
    }

    /// The variant whose raw OpenGL value is `value`, if there is one.
    pub open spec fn spec_from_gl(value: u32) -> Result<TexelType, ()> {
        if value == 0x1401 {
            Ok(TexelType::UnsignedByte)
        } else if value == 0x8363 {
            Ok(TexelType::UnsignedShort565)
        } else if value == 0x8033 {
            Ok(TexelType::UnsignedShort4444)
        } else if value == 0x8034 {
            Ok(TexelType::UnsignedShort5551)
        } else {
            Err(())
        }
    }

    /// Convert from a raw OpenGL integer value to an enum variant.
    /// Returns an error if the value is not a valid enum variant.
    pub fn from_gl(gl_enum: u32) -> (r: Result<Self, ()>)
        ensures
            r == Self::spec_from_gl(gl_enum),
    {
        if gl_enum == gl_unsigned_byte() {
            Ok(TexelType::UnsignedByte)
        } else if gl_enum == gl_unsigned_short_5_6_5() {
            Ok(TexelType::UnsignedShort565)
        } else if gl_enum == gl_unsigned_short_4_4_4_4() {
            Ok(TexelType::UnsignedShort4444)
        } else if gl_enum == gl_unsigned_short_5_5_5_1() {
            Ok(TexelType::UnsignedShort5551)
        } else {
            Err(())
        }
    }

    /// Return the OpenGL integer value for a given enum variant.
    pub fn gl_enum(&self) -> (r: u32)
        ensures
            r == self.spec_gl_enum(),
    {
        match *self {
            TexelType::UnsignedByte => gl_unsigned_byte(),
            TexelType::UnsignedShort565 => gl_unsigned_short_5_6_5(),
            TexelType::UnsignedShort4444 => gl_unsigned_short_4_4_4_4(),
            TexelType::UnsignedShort5551 => gl_unsigned_short_5_5_5_1(),
        }
    }

    /// Converting a variant to its raw value and back gives the same
    /// variant, and a raw value that converts to a variant is that
    /// variant's raw value.
    pub proof fn lemma_gl_enum_round_trip(x: Self, value: u32)
        ensures
            Self::spec_from_gl(x.spec_gl_enum()) == Ok::<Self, ()>(x),
            Self::spec_from_gl(value) matches Ok(y) ==> y.spec_gl_enum() == value,
    {
    }
}

/// The components that make up a texel.
#[derive(Debug, Clone, Copy, PartialEq, Eq, Hash, Structural)]
pub enum TexelFormat {
    /// Texels hold only an alpha component.
    Alpha,
    /// Texels hold red, green and blue components.
    RGB,
    /// Texels hold red, green, blue and alpha components.
    RGBA,
}

/// The `TexelFormat::Alpha` variant, named as the OpenGL constant `GL_ALPHA`.
pub const ALPHA: TexelFormat = TexelFormat::Alpha;

/// The `TexelFormat::RGB` variant, named as the OpenGL constant `GL_RGB`.
pub const RGB: TexelFormat = TexelFormat::RGB;

/// The `TexelFormat::RGBA` variant, named as the OpenGL constant `GL_RGBA`.
pub const RGBA: TexelFormat = TexelFormat::RGBA;

impl TexelFormat {
    /// Each variant's raw value is the OpenGL registry's value of the
    /// constant that the variant is named after (the value that the
    /// matching `gl_consts` wrapper returns), so no two variants trade places.
    pub proof fn lemma_registry_values()
        ensures
            (TexelFormat::Alpha).spec_gl_enum() == 0x1906,
            (TexelFormat::RGB).spec_gl_enum() == 0x1907,
            (TexelFormat::RGBA).spec_gl_enum() == 0x1908,
    {
    }

    /// The raw OpenGL value of each variant.
    pub open spec fn spec_gl_enum(self) -> u32 {
        match self {
            TexelFormat::Alpha => 0x1906,
            TexelFormat::RGB => 0x1907,
            TexelFormat::RGBA => 0x1908,
        }
    }

    /// The variant whose raw OpenGL value is `value`, if there is one.
    pub open spec fn spec_from_gl(value: u32) -> Result<TexelFormat, ()> {
        if value == 0x1906 {
            Ok(TexelFormat::Alpha)
        } else if value == 0x1907 {
            Ok(TexelFormat::RGB)
        } else if value == 0x1908 {
            Ok(TexelFormat::RGBA)
        } else {
            Err(())
        }
    }

    /// Convert from a raw OpenGL integer value to an enum variant.
    /// Returns an error if the value is not a valid enum variant.
    pub fn from_gl(gl_enum: u32) -> (r: Result<Self, ()>)
        ensures
            r == Self::spec_from_gl(gl_enum),
    {
        if gl_enum == gl_alpha() {
            Ok(TexelFormat::Alpha)
        } else if gl_enum == gl_rgb() {
            Ok(TexelFormat::RGB)
        } else if gl_enum == gl_rgba() {
            Ok(TexelFormat::RGBA)
        } else {
            Err(())
        }
    }

    /// Return the OpenGL integer value for a given enum variant.
    pub fn gl_enum(&self) -> (r: u32)
        ensures
            r == self.spec_gl_enum(),
    {
        match *self {
            TexelFormat::Alpha => gl_alpha(),
            TexelFormat::RGB => gl_rgb(),
            TexelFormat::RGBA => gl_rgba(),
        }
    }

    /// Converting a variant to its raw value and back gives the same
    /// variant, and a raw value that converts to a variant is that
    /// variant's raw value.
    pub proof fn lemma_gl_enum_round_trip(x: Self, value: u32)
        ensures
            Self::spec_from_gl(x.spec_gl_enum()) == Ok::<Self, ()>(x),
            Self::spec_from_gl(value) matches Ok(y) ==> y.spec_gl_enum() == value,
    {
    }
}

/// The storage formats of a renderbuffer.
#[derive(Debug, Clone, Copy, PartialEq, Eq, Hash, Structural)]
pub enum RenderbufferFormat {
    /// Four 4-bit color components.
    RGBA4,
    /// 5-bit red, 6-bit green and 5-bit blue components.
    RGB565,
    /// 5-bit color components and a 1-bit alpha component.
    RGB5A1,
    /// A 16-bit depth component.
    DepthComponent16,
    /// An 8-bit stencil index.
    StencilIndex8,
}

/// The `RenderbufferFormat::RGBA4` variant, named as the OpenGL constant `GL_RGBA4`.
pub const RGBA4: RenderbufferFormat = RenderbufferFormat::RGBA4;

/// The `RenderbufferFormat::RGB565` variant, named as the OpenGL constant `GL_RGB565`.
pub const RGB565: RenderbufferFormat = RenderbufferFormat::RGB565;

/// The `RenderbufferFormat::RGB5A1` variant, named as the OpenGL constant `GL_RGB5_A1`.
pub const RGB5_A1: RenderbufferFormat = RenderbufferFormat::RGB5A1;

/// The `RenderbufferFormat::DepthComponent16` variant, named as the OpenGL constant `GL_DEPTH_COMPONENT16`.
pub const DEPTH_COMPONENT16: RenderbufferFormat = RenderbufferFormat::DepthComponent16;

/// The `RenderbufferFormat::StencilIndex8` variant, named as the OpenGL constant `GL_STENCIL_INDEX8`.
pub const STENCIL_INDEX8: RenderbufferFormat = RenderbufferFormat::StencilIndex8;

impl RenderbufferFormat {
    /// Each variant's raw value is the OpenGL registry's value of the
    /// constant that the variant is named after (the value that the
    /// matching `gl_consts` wrapper returns), so no two variants trade places.
    pub proof fn lemma_registry_values()
        ensures
            (RenderbufferFormat::RGBA4).spec_gl_enum() == 0x8056,
            (RenderbufferFormat::RGB565).spec_gl_enum() == 0x8D62,
            (RenderbufferFormat::RGB5A1).spec_gl_enum() == 0x8057,
            (RenderbufferFormat::DepthComponent16).spec_gl_enum() == 0x81A5,
            (RenderbufferFormat::StencilIndex8).spec_gl_enum() == 0x8D48,
    {
    }

    /// The raw OpenGL value of each variant.
    pub open spec fn spec_gl_enum(self) -> u32 {
        match self {
            RenderbufferFormat::RGBA4 => 0x8056,
            RenderbufferFormat::RGB565 => 0x8D62,
            RenderbufferFormat::RGB5A1 => 0x8057,
            RenderbufferFormat::DepthComponent16 => 0x81A5,
            RenderbufferFormat::StencilIndex8 => 0x8D48,
        }
    }

    /// The variant whose raw OpenGL value is `value`, if there is one.
    pub open spec fn spec_from_gl(value: u32) -> Result<RenderbufferFormat, ()> {
        if value == 0x8056 {
            Ok(RenderbufferFormat::RGBA4)
        } else if value == 0x8D62 {
            Ok(RenderbufferFormat::RGB565)
        } else if value == 0x8057 {
            Ok(RenderbufferFormat::RGB5A1)
        } else if value == 0x81A5 {
            Ok(RenderbufferFormat::DepthComponent16)
        } else if value == 0x8D48 {
            Ok(RenderbufferFormat::StencilIndex8)
        } else {
            Err(())
        }
    }

    /// Convert from a raw OpenGL integer value to an enum variant.
    /// Returns an error if the value is not a valid enum variant.
    pub fn from_gl(gl_enum: u32) -> (r: Result<Self, ()>)
        ensures
            r == Self::spec_from_gl(gl_enum),
    {
        if gl_enum == gl_rgba4() {
            Ok(RenderbufferFormat::RGBA4)
        } else if gl_enum == gl_rgb565() {
            Ok(RenderbufferFormat::RGB565)
        } else if gl_enum == gl_rgb5_a1() {
            Ok(RenderbufferFormat::RGB5A1)
        } else if gl_enum == gl_depth_component16() {
            Ok(RenderbufferFormat::DepthComponent16)
        } else if gl_enum == gl_stencil_index8() {
            Ok(RenderbufferFormat::StencilIndex8)
        } else {
            Err(())
        }
    }

    /// Return the OpenGL integer value for a given enum variant.
    pub fn gl_enum(&self) -> (r: u32)
        ensures
            r == self.spec_gl_enum(),
    {
        match *self {
            RenderbufferFormat::RGBA4 => gl_rgba4(),
            RenderbufferFormat::RGB565 => gl_rgb565(),
            RenderbufferFormat::RGB5A1 => gl_rgb5_a1(),
            RenderbufferFormat::DepthComponent16 => gl_depth_component16(),
            RenderbufferFormat::StencilIndex8 => gl_stencil_index8(),
        }
    }

    /// Converting a variant to its raw value and back gives the same
    /// variant, and a raw value that converts to a variant is that
    /// variant's raw value.
    pub proof fn lemma_gl_enum_round_trip(x: Self, value: u32)
        ensures
            Self::spec_from_gl(x.spec_gl_enum()) == Ok::<Self, ()>(x),
            Self::spec_from_gl(value) matches Ok(y) ==> y.spec_gl_enum() == value,
    {
    }
}


/// The format of an image's texels: their type and their components.
#[derive(Debug, Clone, Copy, PartialEq, Eq, Structural)]
pub struct ImageFormat {
    /// The data type of the texels' components.
    pub texel_type: TexelType,
    /// The components that make up each texel.
    pub texel_format: TexelFormat,
}

impl ImageFormat {
    /// The format of 8-bit RGBA texels, as held by [`Pixels`](struct.Pixels.html).
    pub fn rgba8() -> (r: Self)
        ensures
            r == (ImageFormat { texel_type: TexelType::UnsignedByte, texel_format: TexelFormat::RGBA }),
    {
        ImageFormat { texel_type: TexelType::UnsignedByte, texel_format: TexelFormat::RGBA }
    }
}


/// The bytes of a sequence of pixels: the red, green, blue and alpha
/// component of each pixel in turn.
pub open spec fn pixel_bytes(pixels: Seq<Pixel>) -> Seq<u8> {
    Seq::new(
        4 * pixels.len(),
        |i: int|
            {
                let p = pixels[i / 4]@;
                if i % 4 == 0 {
                    p.0
                } else if i % 4 == 1 {
                    p.1
                } else if i % 4 == 2 {
                    p.2
                } else {
                    p.3
                }
            },
    )
}

/// The pixels of `base`, a grid `width` pixels wide, after writing each of
/// `texels` in turn: a texel `(row, col, p)` writes `p` to column `col` of
/// row `row`.
pub open spec fn apply_texels(width: usize, base: Seq<Pixel>, texels: Seq<(usize, usize, Pixel)>) -> Seq<Pixel>
    decreases texels.len(),
{
    if texels.len() == 0 {
        base
    } else {
        let t = texels.last();
        apply_texels(width, base, texels.drop_last()).update(t.0 * width + t.1, t.2)
    }
}

/// A grid of 8-bit RGBA pixels, stored row after row.
pub struct Pixels {
    width: usize,
    height: usize,
    pixels: Vec<Pixel>,
}

impl Pixels {
    #[verifier::type_invariant]
    spec fn inv(self) -> bool {
        self.pixels.len() == self.width * self.height
    }

    /// The pixels of the grid, row after row.
    pub closed spec fn spec_pixels(&self) -> Seq<Pixel> {
        self.pixels@
    }

    /// Create a grid of the given size, filled with opaque blue pixels.
    pub fn new(width: usize, height: usize) -> (r: Self)
        requires
            width * height <= usize::MAX,
        ensures
            r.spec_width() == width,
            r.spec_height() == height,
            r.spec_pixels() == Seq::new((width * height) as nat, |i: int| Pixel::spec_blue()),
            Pixel::spec_blue()@ == (0u8, 0u8, 0xFFu8, 0xFFu8),
    {
        let n: usize = width * height;
        let blue = Pixel::rgb(0x0000FF);
        assert(byte_of(0x0000FFu32, 16) == 0 && byte_of(0x0000FFu32, 8) == 0 && byte_of(0x0000FFu32, 0) == 0xFF);
        let pixels = vec![blue; n];
        assert(pixels@ =~= Seq::new((width * height) as nat, |i: int| Pixel::spec_blue()));
        Pixels { width: width, height: height, pixels: pixels }
    }

    /// The pixels of one row of the grid.
    pub fn index(&self, row: usize) -> (r: &[Pixel])
        requires
            row < self.spec_height(),
        ensures
            r@ == self.spec_pixels().subrange(row * self.spec_width(), (row + 1) * self.spec_width()),
            r@.len() == self.spec_width(),
            self.spec_pixels().len() == self.spec_width() * self.spec_height(),
    {
        proof {
            use_type_invariant(self);
            assert(self.width * self.height <= usize::MAX);
            assert((row + 1) * self.width == row * self.width + self.width) by (nonlinear_arith);
            assert((row + 1) * self.width <= self.width * self.height && row * self.width <= (row
                + 1) * self.width) by (nonlinear_arith)
                requires
                    row < self.height,
            ;
        }
        let start = row * self.width;
        let end = (row + 1) * self.width;
        vstd::slice::slice_subrange(self.pixels.as_slice(), start, end)
    }

    /// Write one pixel of the grid: the pixel at column `col` of row `row`.
    pub fn set(&mut self, row: usize, col: usize, pixel: Pixel)
        requires
            row < old(self).spec_height(),
            col < old(self).spec_width(),
        ensures
            final(self).spec_width() == old(self).spec_width(),
            final(self).spec_height() == old(self).spec_height(),
            final(self).spec_pixels() == old(self).spec_pixels().update(
                row * old(self).spec_width() + col,
                pixel,
            ),
    {
        proof {
            use_type_invariant(&*self);
            assert(self.width * self.height <= usize::MAX);
            assert(row * self.width + col < self.width * self.height) by (nonlinear_arith)
                requires
                    row < self.height,
                    col < self.width,
            ;
        }
        let idx = row * self.width + col;
        write_pixel(&mut self.pixels, idx, pixel);
    }

    /// Create a grid of the given size from the texels of an image: starting
    /// from [`Pixels::new`], each texel `(row, col, p)` in turn writes `p`
    /// to column `col` of row `row`.
    pub fn from_image_pixels(width: usize, height: usize, texels: &Vec<(usize, usize, Pixel)>) -> (r: Self)
        requires
            width * height <= usize::MAX,
            forall|i: int| 0 <= i < texels.len() ==> #[trigger] texels[i].0 < height && texels[i].1 < width,
        ensures
            r.spec_width() == width,
            r.spec_height() == height,
            r.spec_pixels() == apply_texels(
                width,
                Seq::new((width * height) as nat, |i: int| Pixel::spec_blue()),
                texels@,
            ),
    {
        let mut pixels = Pixels::new(width, height);
        let ghost base = pixels.spec_pixels();
        let mut i: usize = 0;
        while i < texels.len()
            invariant
                i <= texels.len(),
                width * height <= usize::MAX,
                forall|j: int| 0 <= j < texels.len() ==> #[trigger] texels[j].0 < height && texels[j].1 < width,
                pixels.spec_width() == width,
                pixels.spec_height() == height,
                base == Seq::new((width * height) as nat, |k: int| Pixel::spec_blue()),
                pixels.spec_pixels() == apply_texels(width, base, texels@.take(i as int)),
            decreases texels.len() - i,
        {
            let (x, y, p) = texels[i];
            assert(texels@.take(i + 1).drop_last() =~= texels@.take(i as int));
            pixels.set(x, y, p);
            i = i + 1;
        }
        assert(texels@.take(texels.len() as int) =~= texels@);
        pixels
    }
}

/// Reading a row of a grid after writing one of its pixels gives the
/// written pixel at the written column, and leaves every other pixel, of
/// that row and of every other row, as it was.
pub proof fn lemma_row_after_write(
    pixels: Seq<Pixel>,
    width: usize,
    height: usize,
    row: usize,
    col: usize,
    pixel: Pixel,
    read_row: usize,
)
    requires
        pixels.len() == width * height,
        row < height,
        col < width,
        read_row < height,
    ensures
        ({
            let written = pixels.update(row * width + col, pixel);
            let read = written.subrange(read_row * width, (read_row + 1) * width);
            &&& read.len() == width
            &&& read_row == row ==> read[col as int] == pixel
            &&& forall|c: int|
                0 <= c < width && (read_row != row || c != col) ==> #[trigger] read[c] == pixels[read_row
                    * width + c]
        }),
{
    assert((read_row + 1) * width == read_row * width + width) by (nonlinear_arith);
    assert((read_row + 1) * width <= width * height) by (nonlinear_arith)
        requires
            read_row < height,
    ;
    assert(row * width + col < width * height) by (nonlinear_arith)
        requires
            row < height,
            col < width,
    ;
    let written = pixels.update(row * width + col, pixel);
    let read = written.subrange(read_row * width, (read_row + 1) * width);
    assert forall|c: int| 0 <= c < width && (read_row != row || c != col) implies #[trigger] read[c]
        == pixels[read_row * width + c] by {
        if read_row < row {
            assert(read_row * width + width <= row * width) by (nonlinear_arith)
                requires
                    read_row < row,
            ;
        } else if row < read_row {
            assert(row * width + width <= read_row * width) by (nonlinear_arith)
                requires
                    row < read_row,
            ;
        }
    }
}

/// Overwrite one pixel of a vector of pixels.
fn write_pixel(pixels: &mut Vec<Pixel>, idx: usize, pixel: Pixel)
    requires
        idx < old(pixels).len(),
    ensures
        final(pixels)@ == old(pixels)@.update(idx as int, pixel),
    no_unwind
{
    pixels[idx] = pixel;
}

impl Pixel {
    /// The opaque blue pixel that fills a new grid.
    pub closed spec fn spec_blue() -> Pixel {
        Pixel { r: 0, g: 0, b: 0xFF, a: 0xFF }
    }
}

impl Image2d for Pixels {
    closed spec fn spec_width(&self) -> usize {
        self.width
    }

    closed spec fn spec_height(&self) -> usize {
        self.height
    }

    open spec fn spec_format(&self) -> ImageFormat {
        ImageFormat { texel_type: TexelType::UnsignedByte, texel_format: TexelFormat::RGBA }
    }

    /// The red, green, blue and alpha bytes of each pixel, row after row.
    open spec fn spec_texel_bytes(&self) -> Seq<u8> {
        pixel_bytes(self.spec_pixels())
    }

    fn width(&self) -> (r: usize)
        ensures
            self.spec_pixels().len() == self.spec_width() * self.spec_height(),
    {
        proof {
            use_type_invariant(self);
        }
        self.width
    }

    fn height(&self) -> (r: usize)
        ensures
            self.spec_pixels().len() == self.spec_width() * self.spec_height(),
    {
        proof {
            use_type_invariant(self);
        }
        self.height
    }

    fn format(&self) -> (r: ImageFormat) {
        ImageFormat::rgba8()
    }

    /// The grid holds `width * height` pixels, so the bytes are four for
    /// each of them, row after row (none for an empty grid).
    fn texel_bytes(&self) -> (r: Vec<u8>)
        ensures
            self.spec_pixels().len() == self.spec_width() * self.spec_height(),
            r@.len() == 4 * (self.spec_width() * self.spec_height()),
    {
        proof {
            use_type_invariant(self);
        }
        let mut bytes: Vec<u8> = Vec::new();
        let mut i: usize = 0;
        while i < self.pixels.len()
            invariant
                i <= self.pixels.len(),
                bytes@ =~= pixel_bytes(self.pixels@.take(i as int)),
            decreases self.pixels.len() - i,
        {
            let p = self.pixels[i];
            bytes.push(p.r);
            bytes.push(p.g);
            bytes.push(p.b);
            bytes.push(p.a);
            i = i + 1;
        }
        assert(self.pixels@.take(self.pixels.len() as int) =~= self.pixels@);
        bytes
    }
}

} // verus!
