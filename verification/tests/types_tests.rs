use glitter::types::{
    BufferBits, Capability, DataType, DrawingMode, GLError, GLFramebufferError, Viewport, BLEND,
    DEPTH_TEST, TRIANGLES,
};

#[test]
fn viewport_new_keeps_components() {
    let v = Viewport::new(1, 2, 640, 480);
    assert_eq!(v, Viewport { x: 1, y: 2, width: 640, height: 480 });
}

#[test]
fn buffer_bits_masks() {
    assert_eq!(BufferBits::color_buffer_bit().bits(), 0x4000);
    assert_eq!(BufferBits::depth_buffer_bit().bits(), 0x100);
    assert_eq!(BufferBits::stencil_buffer_bit().bits(), 0x400);
    assert_eq!(BufferBits::empty().bits(), 0);
    assert_eq!(BufferBits::all().bits(), 0x4000 | 0x100 | 0x400);
}

#[test]
fn buffer_bits_union_is_bitwise_or() {
    let c = BufferBits::color_buffer_bit();
    let d = BufferBits::depth_buffer_bit();
    let u = c.union(d);
    assert_eq!(u.bits(), c.bits() | d.bits());
    assert!(u.contains(c));
    assert!(u.contains(d));
    assert!(!u.contains(BufferBits::stencil_buffer_bit()));
    assert!(BufferBits::all().contains(u));
    assert!(!c.contains(u));
    assert!(c.contains(BufferBits::empty()));
}

#[test]
fn capability_gl_enum_values() {
    assert_eq!(Capability::Blend.gl_enum(), 0x0BE2);
    assert_eq!(BLEND, Capability::Blend);
    assert_eq!(DEPTH_TEST.gl_enum(), 0x0B71);
    assert_eq!(Capability::StencilTest.gl_enum(), 0x0B90);
    assert_eq!(Capability::from_gl(0x0B71), Ok(Capability::DepthTest));
    assert_eq!(Capability::from_gl(0x1234), Err(()));
}

#[test]
fn gl_enum_round_trip() {
    let caps = [
        Capability::Blend,
        Capability::CullFace,
        Capability::DepthTest,
        Capability::Dither,
        Capability::PolygonOffsetFill,
        Capability::SampleAlphaToCoverage,
        Capability::SampleCoverage,
        Capability::ScisscorTest,
        Capability::StencilTest,
    ];
    for c in caps.iter() {
        assert_eq!(Capability::from_gl(c.gl_enum()), Ok(*c));
    }
    let modes = [
        DrawingMode::Points,
        DrawingMode::LineStrip,
        DrawingMode::LineLoop,
        DrawingMode::Lines,
        DrawingMode::TriangleStrip,
        DrawingMode::TriangleFan,
        DrawingMode::Triangles,
    ];
    for m in modes.iter() {
        assert_eq!(DrawingMode::from_gl(m.gl_enum()), Ok(*m));
    }
    let types = [
        DataType::Byte,
        DataType::UnsignedByte,
        DataType::Short,
        DataType::UnsignedShort,
        DataType::Fixed,
        DataType::Float,
    ];
    for t in types.iter() {
        assert_eq!(DataType::from_gl(t.gl_enum()), Ok(*t));
    }
}

#[test]
fn drawing_mode_and_data_type_values() {
    assert_eq!(TRIANGLES.gl_enum(), 0x0004);
    assert_eq!(DrawingMode::Points.gl_enum(), 0x0000);
    assert_eq!(DrawingMode::TriangleFan.gl_enum(), 0x0006);
    assert_eq!(DataType::Float.gl_enum(), 0x1406);
    assert_eq!(DataType::UnsignedShort.gl_enum(), 0x1403);
    assert_eq!(DataType::from_gl(0x140C), Ok(DataType::Fixed));
    assert_eq!(DrawingMode::from_gl(0x0007), Err(()));
}

#[test]
fn gl_error_from_error_code() {
    assert!(matches!(GLError::from_error_code(0x0500), Some(GLError::InvalidEnum)));
    assert!(matches!(GLError::from_error_code(0x0501), Some(GLError::InvalidValue)));
    assert!(matches!(GLError::from_error_code(0x0502), Some(GLError::InvalidOperation)));
    assert!(matches!(GLError::from_error_code(0x0505), Some(GLError::OutOfMemory)));
    assert!(matches!(GLError::from_error_code(0x0506), Some(GLError::InvalidFramebufferOperation)));
    assert!(GLError::from_error_code(0).is_none());
    assert!(GLError::from_error_code(0x9999).is_none());
}

#[test]
fn gl_error_descriptions_and_messages() {
    assert_eq!(GLError::InvalidEnum.description(), "Invalid enum variant in OpenGL call.");
    assert_eq!(GLError::InvalidEnum.to_string(), "Invalid enum");
    assert_eq!(GLError::OutOfMemory.to_string(), "Out of memory");
    assert_eq!(GLError::Message("boom".to_string()).to_string(), "boom");
    assert_eq!(GLError::Message("boom".to_string()).description(), "boom");
    let fb = GLError::FramebufferError(GLFramebufferError::Unsupported);
    assert_eq!(fb.to_string(), "Unsupported");
    assert_eq!(
        fb.description(),
        "The framebuffer contains an unsupported combination of attachments"
    );
    assert_eq!(GLFramebufferError::IncompleteDimensions.to_string(), "Incomplete dimensions");
    assert_eq!(
        GLFramebufferError::IncompleteMissingAttachment.description(),
        "The framebuffer has no images attached"
    );
}

#[test]
fn gl_error_from_framebuffer_error_has_cause() {
    let e: GLError = GLError::from(GLFramebufferError::IncompleteAttachment);
    assert_eq!(e.cause(), Some(GLFramebufferError::IncompleteAttachment));
    assert_eq!(GLError::InvalidValue.cause(), None);
    assert_eq!(
        GLError::from(GLFramebufferError::IncompleteMissingAttachment).to_string(),
        "IncompleteMissingAttachment"
    );
}
