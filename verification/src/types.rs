//! Contains miscellaneous general-purpose OpenGL types.

use vstd::prelude::*;
use crate::gl_consts::{gl_blend, gl_byte, gl_cull_face, gl_depth_test, gl_dither, gl_fixed, gl_float, gl_line_loop, gl_line_strip, gl_lines, gl_points, gl_polygon_offset_fill, gl_sample_alpha_to_coverage, gl_sample_coverage, gl_scissor_test, gl_short, gl_stencil_test, gl_triangle_fan, gl_triangle_strip, gl_triangles, gl_unsigned_byte, gl_unsigned_short, gl_color_buffer_bit, gl_depth_buffer_bit, gl_stencil_buffer_bit, gl_invalid_enum, gl_invalid_value, gl_invalid_operation, gl_invalid_framebuffer_operation, gl_out_of_memory};

verus! {

/// An OpenGL viewport, with an origin and size, with integer components.
#[derive(Debug, Clone, Copy, PartialEq, Eq, Structural)]
pub struct Viewport {
    /// The X coordinate of the viewport's origin
    pub x: u32,
    /// The Y coordinate of the viewport's origin
    pub y: u32,
    /// The viewport's width
    pub width: u32,
    /// The viewport's height
    pub height: u32,
}

impl Viewport {
    /// Create a new viewport, with the given X and Y coordinates as the origin
    /// and the given width and height as the size.
    pub fn new(x: u32, y: u32, width: u32, height: u32) -> (r: Self)
        ensures
            r.x == x,
            r.y == y,
            r.width == width,
            r.height == height,
    {
        Viewport { x: x, y: y, width: width, height: height }
    }
}

/// An OpenGL object, identified by the name (ID) that OpenGL gave it.
pub trait GLObject: Sized {
    /// The type of the object's internal ID.
    type Id;

    /// The object's ID.
    spec fn spec_id(&self) -> Self::Id;

    /// Get a new object from an OpenGL ID.
    ///
    /// The provided ID must correspond to an instance of the target type,
    /// and two objects should never be created with the same ID.
    fn from_raw(id: Self::Id) -> (r: Self)
        ensures
            r.spec_id() == id,
    ;

    /// Get the object's ID.
    fn id(&self) -> (r: Self::Id)
        ensures
            r == self.spec_id(),
    ;

    /// Consume the object without cleaning up its resources, returning the
    /// object's ID.
    fn into_raw(self) -> (r: Self::Id)
        ensures
            r == self.spec_id(),
    {
        self.id()
    }
}

/// A set of the buffers that the active framebuffer may contain, as used by
/// `glClear`.
#[derive(Debug, Clone, Copy, PartialEq, Eq, Structural)]
pub struct BufferBits {
    /// The color buffer, which stores color information for each fragment.
    pub color: bool,
    /// The depth buffer, which stores distance information for each fragment
    /// when depth testing is enabled.
    pub depth: bool,
    /// The stencil buffer, which stores which fragments should be kept or
    /// discarded when stencil testing is enabled.
    pub stencil: bool,
}

impl BufferBits {
    /// The OpenGL bit mask of the set: `GL_COLOR_BUFFER_BIT` (0x4000),
    /// `GL_DEPTH_BUFFER_BIT` (0x100) and `GL_STENCIL_BUFFER_BIT` (0x400)
    /// for the buffers it contains. The three bits are distinct, so their
    /// sum is their bitwise union.
    pub open spec fn spec_bits(self) -> u32 {
        ((if self.color { 0x4000u32 } else { 0u32 }) + (if self.depth { 0x100u32 } else { 0u32 })
            + (if self.stencil { 0x400u32 } else { 0u32 })) as u32
    }

    /// Each buffer's bit is the OpenGL registry's value of its constant:
    /// `GL_COLOR_BUFFER_BIT` is 0x4000, `GL_DEPTH_BUFFER_BIT` 0x100 and
    /// `GL_STENCIL_BUFFER_BIT` 0x400, and a set's mask is the union of the
    /// bits of the buffers it holds.
    pub proof fn lemma_registry_bits(set: Self)
        ensures
            (BufferBits { color: true, depth: false, stencil: false }).spec_bits() == 0x4000,
            (BufferBits { color: false, depth: true, stencil: false }).spec_bits() == 0x100,
            (BufferBits { color: false, depth: false, stencil: true }).spec_bits() == 0x400,
            set.spec_bits() == (if set.color { 0x4000u32 } else { 0 }) | (if set.depth { 0x100u32 } else { 0 }) | (
            if set.stencil { 0x400u32 } else { 0 }),
    {
        let (c, d, st) = (set.color, set.depth, set.stencil);
        assert(((if c { 0x4000u32 } else { 0u32 }) + (if d { 0x100u32 } else { 0u32 }) + (if st { 0x400u32 } else { 0u32 })) as u32
            == (if c { 0x4000u32 } else { 0 }) | (if d { 0x100u32 } else { 0 }) | (if st { 0x400u32 } else { 0 })) by (bit_vector);
    }

    /// The set holding only the color buffer (`GL_COLOR_BUFFER_BIT`).
    pub fn color_buffer_bit() -> (r: Self)
        ensures
            r == (BufferBits { color: true, depth: false, stencil: false }),
    {
        BufferBits { color: true, depth: false, stencil: false }
    }

    /// The set holding only the depth buffer (`GL_DEPTH_BUFFER_BIT`).
    pub fn depth_buffer_bit() -> (r: Self)
        ensures
            r == (BufferBits { color: false, depth: true, stencil: false }),
    {
        BufferBits { color: false, depth: true, stencil: false }
    }

    /// The set holding only the stencil buffer (`GL_STENCIL_BUFFER_BIT`).
    pub fn stencil_buffer_bit() -> (r: Self)
        ensures
            r == (BufferBits { color: false, depth: false, stencil: true }),
    {
        BufferBits { color: false, depth: false, stencil: true }
    }

    /// The empty set.
    pub fn empty() -> (r: Self)
        ensures
            r == (BufferBits { color: false, depth: false, stencil: false }),
    {
        BufferBits { color: false, depth: false, stencil: false }
    }

    /// The set of all three buffers.
    pub fn all() -> (r: Self)
        ensures
            r == (BufferBits { color: true, depth: true, stencil: true }),
    {
        BufferBits { color: true, depth: true, stencil: true }
    }

    /// The union of two sets.
    pub open spec fn spec_union(self, other: Self) -> Self {
        BufferBits {
            color: self.color || other.color,
            depth: self.depth || other.depth,
            stencil: self.stencil || other.stencil,
        }
    }

    /// Whether every buffer of `other` is in this set.
    pub open spec fn spec_contains(self, other: Self) -> bool {
        (other.color ==> self.color) && (other.depth ==> self.depth) && (other.stencil ==> self.stencil)
    }

    /// The union of two sets.
    pub fn union(self, other: Self) -> (r: Self)
        ensures
            r == self.spec_union(other),
    {
        BufferBits {
            color: self.color || other.color,
            depth: self.depth || other.depth,
            stencil: self.stencil || other.stencil,
        }
    }

    /// Whether every buffer of `other` is in this set.
    pub fn contains(&self, other: Self) -> (r: bool)
        ensures
            r == self.spec_contains(other),
    {
        (!other.color || self.color) && (!other.depth || self.depth) && (!other.stencil
            || self.stencil)
    }

    /// The mask of a union of two sets is the bitwise or of their masks, and
    /// a set contains another exactly when its mask covers the other's mask.
    pub proof fn lemma_bits_of_union_and_contains(a: Self, b: Self)
        ensures
            a.spec_union(b).spec_bits() == a.spec_bits() | b.spec_bits(),
            a.spec_contains(b) <==> (a.spec_bits() & b.spec_bits()) == b.spec_bits(),
    {
        let (ac, ad, as_) = (a.color, a.depth, a.stencil);
        let (bc, bd, bs) = (b.color, b.depth, b.stencil);
        assert(((if ac || bc { 0x4000u32 } else { 0u32 }) + (if ad || bd { 0x100u32 } else { 0u32 })
            + (if as_ || bs { 0x400u32 } else { 0u32 })) as u32 == ((((if ac { 0x4000u32 } else { 0u32 })
            + (if ad { 0x100u32 } else { 0u32 }) + (if as_ { 0x400u32 } else { 0u32 })) as u32) | (((if bc {
            0x4000u32
        } else {
            0u32
        }) + (if bd { 0x100u32 } else { 0u32 }) + (if bs { 0x400u32 } else { 0u32 })) as u32)))
            by (bit_vector);
        assert(((bc ==> ac) && (bd ==> ad) && (bs ==> as_)) <==> (((((if ac { 0x4000u32 } else { 0u32 })
            + (if ad { 0x100u32 } else { 0u32 }) + (if as_ { 0x400u32 } else { 0u32 })) as u32) & (((if bc {
            0x4000u32
        } else {
            0u32
        }) + (if bd { 0x100u32 } else { 0u32 }) + (if bs { 0x400u32 } else { 0u32 })) as u32)) == (((if bc {
            0x4000u32
        } else {
            0u32
        }) + (if bd { 0x100u32 } else { 0u32 }) + (if bs { 0x400u32 } else { 0u32 })) as u32))) by (bit_vector);
    }

    /// The raw OpenGL bit mask of the set.
    pub fn bits(&self) -> (r: u32)
        ensures
            r == self.spec_bits(),
    {
        let mut bits: u32 = 0;
        if self.color {
            bits = bits + gl_color_buffer_bit();
        }
        if self.depth {
            bits = bits + gl_depth_buffer_bit();
        }
        if self.stencil {
            bits = bits + gl_stencil_buffer_bit();
        }
        bits
    }
}

/// The OpenGL drawing capabilities that can be enabled or disabled.
#[derive(Debug, Clone, Copy, PartialEq, Eq, Hash, Structural)]
pub enum Capability {
    /// Blend newly-computed fragment colors with the current
    /// values in the color buffer.
    Blend,
    /// Cull polygons, based on their winding in window coordinates.
    CullFace,
    /// Perform a depth test for each fragment, only drawing
    /// fragments that are not obscured by other geometry.
    DepthTest,
    /// Dither color components or indices.
    Dither,
    /// When filling a polygon, add an offset to each fragment's depth value.
    PolygonOffsetFill,
    /// When multisampling, use the alpha value from the sample location.
    SampleAlphaToCoverage,
    /// When multisampling, use the preset sample coverage value as the alpha value.
    SampleCoverage,
    /// Only draw fragments within the scissor rectangle.
    ScisscorTest,
    /// Perform a stencil test for each fragment.
    StencilTest,
}

/// The `Capability::Blend` variant, named as the OpenGL constant `GL_BLEND`.
pub const BLEND: Capability = Capability::Blend;

/// The `Capability::CullFace` variant, named as the OpenGL constant `GL_CULL_FACE`.
pub const CULL_FACE: Capability = Capability::CullFace;

/// The `Capability::DepthTest` variant, named as the OpenGL constant `GL_DEPTH_TEST`.
pub const DEPTH_TEST: Capability = Capability::DepthTest;

/// The `Capability::Dither` variant, named as the OpenGL constant `GL_DITHER`.
pub const DITHER: Capability = Capability::Dither;

/// The `Capability::PolygonOffsetFill` variant, named as the OpenGL constant `GL_POLYGON_OFFSET_FILL`.
pub const POLYGON_OFFSET_FILL: Capability = Capability::PolygonOffsetFill;

/// The `Capability::SampleAlphaToCoverage` variant, named as the OpenGL constant `GL_SAMPLE_ALPHA_TO_COVERAGE`.
pub const SAMPLE_ALPHA_TO_COVERAGE: Capability = Capability::SampleAlphaToCoverage;

/// The `Capability::SampleCoverage` variant, named as the OpenGL constant `GL_SAMPLE_COVERAGE`.
pub const SAMPLE_COVERAGE: Capability = Capability::SampleCoverage;

/// The `Capability::ScisscorTest` variant, named as the OpenGL constant `GL_SCISSOR_TEST`.
pub const SCISSCOR_TEST: Capability = Capability::ScisscorTest;

/// The `Capability::StencilTest` variant, named as the OpenGL constant `GL_STENCIL_TEST`.
pub const STENCIL_TEST: Capability = Capability::StencilTest;

impl Capability {
    /// Each variant's raw value is the OpenGL registry's value of the
    /// constant that the variant is named after (the value that the
    /// matching `gl_consts` wrapper returns), so no two variants trade places.
    pub proof fn lemma_registry_values()
        ensures
            (Capability::Blend).spec_gl_enum() == 0x0BE2,
            (Capability::CullFace).spec_gl_enum() == 0x0B44,
            (Capability::DepthTest).spec_gl_enum() == 0x0B71,
            (Capability::Dither).spec_gl_enum() == 0x0BD0,
            (Capability::PolygonOffsetFill).spec_gl_enum() == 0x8037,
            (Capability::SampleAlphaToCoverage).spec_gl_enum() == 0x809E,
            (Capability::SampleCoverage).spec_gl_enum() == 0x80A0,
            (Capability::ScisscorTest).spec_gl_enum() == 0x0C11,
            (Capability::StencilTest).spec_gl_enum() == 0x0B90,
    {
    }

    /// The raw OpenGL value of each variant.
    pub open spec fn spec_gl_enum(self) -> u32 {
        match self {
            Capability::Blend => 0x0BE2,
            Capability::CullFace => 0x0B44,
            Capability::DepthTest => 0x0B71,
            Capability::Dither => 0x0BD0,
            Capability::PolygonOffsetFill => 0x8037,
            Capability::SampleAlphaToCoverage => 0x809E,
            Capability::SampleCoverage => 0x80A0,
            Capability::ScisscorTest => 0x0C11,
            Capability::StencilTest => 0x0B90,
        }
    }

    /// The variant whose raw OpenGL value is `value`, if there is one.
    pub open spec fn spec_from_gl(value: u32) -> Result<Capability, ()> {
        if value == 0x0BE2 {
            Ok(Capability::Blend)
        } else if value == 0x0B44 {
            Ok(Capability::CullFace)
        } else if value == 0x0B71 {
            Ok(Capability::DepthTest)
        } else if value == 0x0BD0 {
            Ok(Capability::Dither)
        } else if value == 0x8037 {
            Ok(Capability::PolygonOffsetFill)
        } else if value == 0x809E {
            Ok(Capability::SampleAlphaToCoverage)
        } else if value == 0x80A0 {
            Ok(Capability::SampleCoverage)
        } else if value == 0x0C11 {
            Ok(Capability::ScisscorTest)
        } else if value == 0x0B90 {
            Ok(Capability::StencilTest)
        } else {
            Err(())
        }
    }

    /// Convert from a raw OpenGL integer value to an enum variant.
    /// Returns an error if the value is not a valid enum variant.
    pub fn from_gl(gl_enum: u32) -> (r: Result<Self, ()>)
        ensures
            r == Self::spec_from_gl(gl_enum),
    {
        if gl_enum == gl_blend() {
            Ok(Capability::Blend)
        } else if gl_enum == gl_cull_face() {
            Ok(Capability::CullFace)
        } else if gl_enum == gl_depth_test() {
            Ok(Capability::DepthTest)
        } else if gl_enum == gl_dither() {
            Ok(Capability::Dither)
        } else if gl_enum == gl_polygon_offset_fill() {
            Ok(Capability::PolygonOffsetFill)
        } else if gl_enum == gl_sample_alpha_to_coverage() {
            Ok(Capability::SampleAlphaToCoverage)
        } else if gl_enum == gl_sample_coverage() {
            Ok(Capability::SampleCoverage)
        } else if gl_enum == gl_scissor_test() {
            Ok(Capability::ScisscorTest)
        } else if gl_enum == gl_stencil_test() {
            Ok(Capability::StencilTest)
        } else {
            Err(())
        }
    }

    /// Return the OpenGL integer value for a given enum variant.
    pub fn gl_enum(&self) -> (r: u32)
        ensures
            r == self.spec_gl_enum(),
    {
        match *self {
            Capability::Blend => gl_blend(),
            Capability::CullFace => gl_cull_face(),
            Capability::DepthTest => gl_depth_test(),
            Capability::Dither => gl_dither(),
            Capability::PolygonOffsetFill => gl_polygon_offset_fill(),
            Capability::SampleAlphaToCoverage => gl_sample_alpha_to_coverage(),
            Capability::SampleCoverage => gl_sample_coverage(),
            Capability::ScisscorTest => gl_scissor_test(),
            Capability::StencilTest => gl_stencil_test(),
        }
    }

    /// Converting a variant to its raw value and back gives the same
    /// variant, and a raw value that converts to a variant is that
    /// variant's raw value.
    pub proof fn lemma_gl_enum_round_trip(x: Self, value: u32)
        ensures
            Self::spec_from_gl(x.spec_gl_enum()) == Ok::<Self, ()>(x),
            Self::spec_from_gl(value) matches Ok(y) ==> y.spec_gl_enum() == value,
    {
    }
}

/// The primitive drawing modes for drawing raw vertex data.
#[derive(Debug, Clone, Copy, PartialEq, Eq, Hash, Structural)]
pub enum DrawingMode {
    /// Draw each vertex as a single point.
    Points,
    /// Draw a connected line segment, where each vertex is connected to the next.
    LineStrip,
    /// Draw a self-connected line segment, where the last vertex connects to the first.
    LineLoop,
    /// Draw each pair of vertices as individual line segments.
    Lines,
    /// Draw the vertices as a strip of triangles.
    TriangleStrip,
    /// Draw the vertices as a triangle fan around the first vertex.
    TriangleFan,
    /// Draw each group of three vertices as a triangle.
    Triangles,
}

/// The `DrawingMode::Points` variant, named as the OpenGL constant `GL_POINTS`.
pub const POINTS: DrawingMode = DrawingMode::Points;

/// The `DrawingMode::LineStrip` variant, named as the OpenGL constant `GL_LINE_STRIP`.
pub const LINE_STRIP: DrawingMode = DrawingMode::LineStrip;

/// The `DrawingMode::LineLoop` variant, named as the OpenGL constant `GL_LINE_LOOP`.
pub const LINE_LOOP: DrawingMode = DrawingMode::LineLoop;

/// The `DrawingMode::Lines` variant, named as the OpenGL constant `GL_LINES`.
pub const LINES: DrawingMode = DrawingMode::Lines;

/// The `DrawingMode::TriangleStrip` variant, named as the OpenGL constant `GL_TRIANGLE_STRIP`.
pub const TRIANGLE_STRIP: DrawingMode = DrawingMode::TriangleStrip;

/// The `DrawingMode::TriangleFan` variant, named as the OpenGL constant `GL_TRIANGLE_FAN`.
pub const TRIANGLE_FAN: DrawingMode = DrawingMode::TriangleFan;

/// The `DrawingMode::Triangles` variant, named as the OpenGL constant `GL_TRIANGLES`.
pub const TRIANGLES: DrawingMode = DrawingMode::Triangles;

impl DrawingMode {
    /// Each variant's raw value is the OpenGL registry's value of the
    /// constant that the variant is named after (the value that the
    /// matching `gl_consts` wrapper returns), so no two variants trade places.
    pub proof fn lemma_registry_values()
        ensures
            (DrawingMode::Points).spec_gl_enum() == 0x0000,
            (DrawingMode::LineStrip).spec_gl_enum() == 0x0003,
            (DrawingMode::LineLoop).spec_gl_enum() == 0x0002,
            (DrawingMode::Lines).spec_gl_enum() == 0x0001,
            (DrawingMode::TriangleStrip).spec_gl_enum() == 0x0005,
            (DrawingMode::TriangleFan).spec_gl_enum() == 0x0006,
            (DrawingMode::Triangles).spec_gl_enum() == 0x0004,
    {
    }

    /// The raw OpenGL value of each variant.
    pub open spec fn spec_gl_enum(self) -> u32 {
        match self {
            DrawingMode::Points => 0x0000,
            DrawingMode::LineStrip => 0x0003,
            DrawingMode::LineLoop => 0x0002,
            DrawingMode::Lines => 0x0001,
            DrawingMode::TriangleStrip => 0x0005,
            DrawingMode::TriangleFan => 0x0006,
            DrawingMode::Triangles => 0x0004,
        }
    }

    /// The variant whose raw OpenGL value is `value`, if there is one.
    pub open spec fn spec_from_gl(value: u32) -> Result<DrawingMode, ()> {
        if value == 0x0000 {
            Ok(DrawingMode::Points)
        } else if value == 0x0003 {
            Ok(DrawingMode::LineStrip)
        } else if value == 0x0002 {
            Ok(DrawingMode::LineLoop)
        } else if value == 0x0001 {
            Ok(DrawingMode::Lines)
        } else if value == 0x0005 {
            Ok(DrawingMode::TriangleStrip)
        } else if value == 0x0006 {
            Ok(DrawingMode::TriangleFan)
        } else if value == 0x0004 {
            Ok(DrawingMode::Triangles)
        } else {
            Err(())
        }
    }

    /// Convert from a raw OpenGL integer value to an enum variant.
    /// Returns an error if the value is not a valid enum variant.
    pub fn from_gl(gl_enum: u32) -> (r: Result<Self, ()>)
        ensures
            r == Self::spec_from_gl(gl_enum),
    {
        if gl_enum == gl_points() {
            Ok(DrawingMode::Points)
        } else if gl_enum == gl_line_strip() {
            Ok(DrawingMode::LineStrip)
        } else if gl_enum == gl_line_loop() {
            Ok(DrawingMode::LineLoop)
        } else if gl_enum == gl_lines() {
            Ok(DrawingMode::Lines)
        } else if gl_enum == gl_triangle_strip() {
            Ok(DrawingMode::TriangleStrip)
        } else if gl_enum == gl_triangle_fan() {
            Ok(DrawingMode::TriangleFan)
        } else if gl_enum == gl_triangles() {
            Ok(DrawingMode::Triangles)
        } else {
            Err(())
        }
    }

    /// Return the OpenGL integer value for a given enum variant.
    pub fn gl_enum(&self) -> (r: u32)
        ensures
            r == self.spec_gl_enum(),
    {
        match *self {
            DrawingMode::Points => gl_points(),
            DrawingMode::LineStrip => gl_line_strip(),
            DrawingMode::LineLoop => gl_line_loop(),
            DrawingMode::Lines => gl_lines(),
            DrawingMode::TriangleStrip => gl_triangle_strip(),
            DrawingMode::TriangleFan => gl_triangle_fan(),
            DrawingMode::Triangles => gl_triangles(),
        }
    }

    /// Converting a variant to its raw value and back gives the same
    /// variant, and a raw value that converts to a variant is that
    /// variant's raw value.
    pub proof fn lemma_gl_enum_round_trip(x: Self, value: u32)
        ensures
            Self::spec_from_gl(x.spec_gl_enum()) == Ok::<Self, ()>(x),
            Self::spec_from_gl(value) matches Ok(y) ==> y.spec_gl_enum() == value,
    {
    }
}

/// The different OpenGL data types.
#[derive(Debug, Clone, Copy, PartialEq, Eq, Hash, Structural)]
pub enum DataType {
    /// A signed 8-bit byte.
    Byte,
    /// An unsigned 8-bit byte.
    UnsignedByte,
    /// A signed 16-bit short.
    Short,
    /// An unsigned 16-bit short.
    UnsignedShort,
    /// A signed 32-bit, fixed-point number in 16.16 form.
    Fixed,
    /// A 32-bit, IEEE floating-point number.
    Float,
}

/// The `DataType::Byte` variant, named as the OpenGL constant `GL_BYTE`.
pub const BYTE: DataType = DataType::Byte;

/// The `DataType::UnsignedByte` variant, named as the OpenGL constant `GL_UNSIGNED_BYTE`.
pub const UNSIGNED_BYTE: DataType = DataType::UnsignedByte;

/// The `DataType::Short` variant, named as the OpenGL constant `GL_SHORT`.
pub const SHORT: DataType = DataType::Short;

/// The `DataType::UnsignedShort` variant, named as the OpenGL constant `GL_UNSIGNED_SHORT`.
pub const UNSIGNED_SHORT: DataType = DataType::UnsignedShort;

/// The `DataType::Fixed` variant, named as the OpenGL constant `GL_FIXED`.
pub const FIXED: DataType = DataType::Fixed;

/// The `DataType::Float` variant, named as the OpenGL constant `GL_FLOAT`.
pub const FLOAT: DataType = DataType::Float;

impl DataType {
    /// Each variant's raw value is the OpenGL registry's value of the
    /// constant that the variant is named after (the value that the
    /// matching `gl_consts` wrapper returns), so no two variants trade places.
    pub proof fn lemma_registry_values()
        ensures
            (DataType::Byte).spec_gl_enum() == 0x1400,
            (DataType::UnsignedByte).spec_gl_enum() == 0x1401,
            (DataType::Short).spec_gl_enum() == 0x1402,
            (DataType::UnsignedShort).spec_gl_enum() == 0x1403,
            (DataType::Fixed).spec_gl_enum() == 0x140C,
            (DataType::Float).spec_gl_enum() == 0x1406,
    {
    }

    /// The raw OpenGL value of each variant.
    pub open spec fn spec_gl_enum(self) -> u32 {
        match self {
            DataType::Byte => 0x1400,
            DataType::UnsignedByte => 0x1401,
            DataType::Short => 0x1402,
            DataType::UnsignedShort => 0x1403,
            DataType::Fixed => 0x140C,
            DataType::Float => 0x1406,
        }
    }

    /// The variant whose raw OpenGL value is `value`, if there is one.
    pub open spec fn spec_from_gl(value: u32) -> Result<DataType, ()> {
        if value == 0x1400 {
            Ok(DataType::Byte)
        } else if value == 0x1401 {
            Ok(DataType::UnsignedByte)
        } else if value == 0x1402 {
            Ok(DataType::Short)
        } else if value == 0x1403 {
            Ok(DataType::UnsignedShort)
        } else if value == 0x140C {
            Ok(DataType::Fixed)
        } else if value == 0x1406 {
            Ok(DataType::Float)
        } else {
            Err(())
        }
    }

    /// Convert from a raw OpenGL integer value to an enum variant.
    /// Returns an error if the value is not a valid enum variant.
    pub fn from_gl(gl_enum: u32) -> (r: Result<Self, ()>)
        ensures
            r == Self::spec_from_gl(gl_enum),
    {
        if gl_enum == gl_byte() {
            Ok(DataType::Byte)
        } else if gl_enum == gl_unsigned_byte() {
            Ok(DataType::UnsignedByte)
        } else if gl_enum == gl_short() {
            Ok(DataType::Short)
        } else if gl_enum == gl_unsigned_short() {
            Ok(DataType::UnsignedShort)
        } else if gl_enum == gl_fixed() {
            Ok(DataType::Fixed)
        } else if gl_enum == gl_float() {
            Ok(DataType::Float)
        } else {
            Err(())
        }
    }

    /// Return the OpenGL integer value for a given enum variant.
    pub fn gl_enum(&self) -> (r: u32)
        ensures
            r == self.spec_gl_enum(),
    {
        match *self {
            DataType::Byte => gl_byte(),
            DataType::UnsignedByte => gl_unsigned_byte(),
            DataType::Short => gl_short(),
            DataType::UnsignedShort => gl_unsigned_short(),
            DataType::Fixed => gl_fixed(),
            DataType::Float => gl_float(),
        }
    }

    /// Converting a variant to its raw value and back gives the same
    /// variant, and a raw value that converts to a variant is that
    /// variant's raw value.
    pub proof fn lemma_gl_enum_round_trip(x: Self, value: u32)
        ensures
            Self::spec_from_gl(x.spec_gl_enum()) == Ok::<Self, ()>(x),
            Self::spec_from_gl(value) matches Ok(y) ==> y.spec_gl_enum() == value,
    {
    }
}
/// The possible framebuffer-incomplete errors.
#[derive(Debug, Clone, Copy, PartialEq, Eq, Structural)]
pub enum GLFramebufferError {
    /// Not all framebuffer attachments are attachment-complete.
    IncompleteAttachment,
    /// Not all attachments have the same dimensions.
    IncompleteDimensions,
    /// The framebuffer has no attachments.
    IncompleteMissingAttachment,
    /// The combination of attachment formats is unsupported by the current
    /// OpenGL implementation.
    Unsupported,
}

impl GLFramebufferError {
    /// The text that describes the error.
    pub open spec fn spec_description(self) -> Seq<char> {
        match self {
            GLFramebufferError::IncompleteAttachment => "One or more framebuffer attachments are not complete"@,
            GLFramebufferError::IncompleteDimensions => "Not all images attached to the framebuffer have the same width and height"@,
            GLFramebufferError::IncompleteMissingAttachment => "The framebuffer has no images attached"@,
            GLFramebufferError::Unsupported => "The framebuffer contains an unsupported combination of attachments"@,
        }
    }

    /// The short message that shows the error to a user.
    pub open spec fn spec_message(self) -> Seq<char> {
        match self {
            GLFramebufferError::IncompleteAttachment => "Incomplete attachment"@,
            GLFramebufferError::IncompleteDimensions => "Incomplete dimensions"@,
            GLFramebufferError::IncompleteMissingAttachment => "Missing attachments"@,
            GLFramebufferError::Unsupported => "Unsupported"@,
        }
    }

    /// The name of the error's variant, as its debug form shows it.
    pub open spec fn spec_variant_name(self) -> Seq<char> {
        match self {
            GLFramebufferError::IncompleteAttachment => "IncompleteAttachment"@,
            GLFramebufferError::IncompleteDimensions => "IncompleteDimensions"@,
            GLFramebufferError::IncompleteMissingAttachment => "IncompleteMissingAttachment"@,
            GLFramebufferError::Unsupported => "Unsupported"@,
        }
    }

    /// A description of the error.
    pub fn description(&self) -> (r: &'static str)
        ensures
            r@ == self.spec_description(),
    {
        match *self {
            GLFramebufferError::IncompleteAttachment => "One or more framebuffer attachments are not complete",
            GLFramebufferError::IncompleteDimensions => "Not all images attached to the framebuffer have the same width and height",
            GLFramebufferError::IncompleteMissingAttachment => "The framebuffer has no images attached",
            GLFramebufferError::Unsupported => "The framebuffer contains an unsupported combination of attachments",
        }
    }

    /// The message that shows the error to a user.
    pub fn to_string(&self) -> (r: String)
        ensures
            r@ == self.spec_message(),
    {
        let s = match *self {
            GLFramebufferError::IncompleteAttachment => "Incomplete attachment",
            GLFramebufferError::IncompleteDimensions => "Incomplete dimensions",
            GLFramebufferError::IncompleteMissingAttachment => "Missing attachments",
            GLFramebufferError::Unsupported => "Unsupported",
        };
        s.to_owned()
    }

    /// The name of the error's variant.
    fn variant_name(&self) -> (r: String)
        ensures
            r@ == self.spec_variant_name(),
    {
        let s = match *self {
            GLFramebufferError::IncompleteAttachment => "IncompleteAttachment",
            GLFramebufferError::IncompleteDimensions => "IncompleteDimensions",
            GLFramebufferError::IncompleteMissingAttachment => "IncompleteMissingAttachment",
            GLFramebufferError::Unsupported => "Unsupported",
        };
        s.to_owned()
    }
}

/// The various possible OpenGL errors.
#[derive(Debug)]
pub enum GLError {
    /// Indicates that an unexpected enum value was passed to a function.
    InvalidEnum,
    /// Indicates that a function was passed an argument with an unexpected
    /// value.
    InvalidValue,
    /// Indicates that a particular operation was attempted that is not
    /// allowed.
    InvalidOperation,
    /// Indicates that a particular operation attempted to use a framebuffer
    /// that is not framebuffer-complete.
    InvalidFramebufferOperation,
    /// Indicates that the OpenGL driver could not allocate enough memory to
    /// satisfy a request.
    OutOfMemory,
    /// Indicates a framebuffer-related error.
    FramebufferError(GLFramebufferError),
    /// Indicates an error with a message attached (such as a message from an
    /// info log, or an error message originating from this library).
    Message(String),
}

impl GLError {
    /// The error that an OpenGL error code (as returned by `glGetError`)
    /// stands for, or `None` when the code is `GL_NO_ERROR` or unknown.
    pub open spec fn spec_from_code(code: u32) -> Option<GLError> {
        if code == 0x0500 {
            Some(GLError::InvalidEnum)
        } else if code == 0x0501 {
            Some(GLError::InvalidValue)
        } else if code == 0x0502 {
            Some(GLError::InvalidOperation)
        } else if code == 0x0506 {
            Some(GLError::InvalidFramebufferOperation)
        } else if code == 0x0505 {
            Some(GLError::OutOfMemory)
        } else {
            None
        }
    }

    /// Map an OpenGL error code, as returned by `glGetError`, to an error.
    /// Returns `None` when the code is `GL_NO_ERROR` or not a known error.
    pub fn from_error_code(code: u32) -> (r: Option<GLError>)
        ensures
            r == Self::spec_from_code(code),
    {
        if code == gl_invalid_enum() {
            Some(GLError::InvalidEnum)
        } else if code == gl_invalid_value() {
            Some(GLError::InvalidValue)
        } else if code == gl_invalid_operation() {
            Some(GLError::InvalidOperation)
        } else if code == gl_invalid_framebuffer_operation() {
            Some(GLError::InvalidFramebufferOperation)
        } else if code == gl_out_of_memory() {
            Some(GLError::OutOfMemory)
        } else {
            None
        }
    }

    /// The text that describes the error.
    pub open spec fn spec_description(&self) -> Seq<char> {
        match self {
            GLError::InvalidEnum => "Invalid enum variant in OpenGL call."@,
            GLError::InvalidValue => "Out-of-range value in OpenGL call."@,
            GLError::InvalidOperation => "The specified OpenGL operation is not allowed in the current state."@,
            GLError::InvalidFramebufferOperation => "OpenGL command tried to read or write to an incomplete framebuffer."@,
            GLError::OutOfMemory => "There is not enough memory left to execute the specified OpenGL command."@,
            GLError::FramebufferError(e) => e.spec_description(),
            GLError::Message(s) => s@,
        }
    }

    /// The message that shows the error to a user.
    pub open spec fn spec_message(&self) -> Seq<char> {
        match self {
            GLError::InvalidEnum => "Invalid enum"@,
            GLError::InvalidValue => "Invalid value"@,
            GLError::InvalidOperation => "Invalid operation"@,
            GLError::InvalidFramebufferOperation => "Invalid framebuffer operation"@,
            GLError::OutOfMemory => "Out of memory"@,
            GLError::FramebufferError(e) => e.spec_variant_name(),
            GLError::Message(s) => s@,
        }
    }

    /// A description of the error.
    pub fn description(&self) -> (r: &str)
        ensures
            r@ == self.spec_description(),
    {
        match self {
            GLError::InvalidEnum => "Invalid enum variant in OpenGL call.",
            GLError::InvalidValue => "Out-of-range value in OpenGL call.",
            GLError::InvalidOperation => "The specified OpenGL operation is not allowed in the current state.",
            GLError::InvalidFramebufferOperation => "OpenGL command tried to read or write to an incomplete framebuffer.",
            GLError::OutOfMemory => "There is not enough memory left to execute the specified OpenGL command.",
            GLError::FramebufferError(e) => e.description(),
            GLError::Message(s) => s.as_str(),
        }
    }

    /// The message that shows the error to a user.
    pub fn to_string(&self) -> (r: String)
        ensures
            r@ == self.spec_message(),
    {
        match self {
            GLError::InvalidEnum => "Invalid enum".to_owned(),
            GLError::InvalidValue => "Invalid value".to_owned(),
            GLError::InvalidOperation => "Invalid operation".to_owned(),
            GLError::InvalidFramebufferOperation => "Invalid framebuffer operation".to_owned(),
            GLError::OutOfMemory => "Out of memory".to_owned(),
            GLError::FramebufferError(e) => e.variant_name(),
            GLError::Message(s) => s.clone(),
        }
    }

    /// The framebuffer error that caused this error, if any.
    pub fn cause(&self) -> (r: Option<GLFramebufferError>)
        ensures
            r == (match self {
                GLError::FramebufferError(e) => Some(*e),
                _ => None,
            }),
    {
        match self {
            GLError::FramebufferError(e) => Some(*e),
            _ => None,
        }
    }
}

impl From<GLFramebufferError> for GLError {
    fn from(e: GLFramebufferError) -> (r: GLError)
        ensures
            r == GLError::FramebufferError(e),
    {
        GLError::FramebufferError(e)
    }
}

impl vstd::std_specs::convert::FromSpecImpl<GLFramebufferError> for GLError {
    open spec fn obeys_from_spec() -> bool {
        true
    }

    open spec fn from_spec(e: GLFramebufferError) -> GLError {
        GLError::FramebufferError(e)
    }
}

} // verus!
