use glitter::image_data::{
    Image2d, ImageFormat, Pixel, Pixels, RenderbufferFormat, TexelFormat, TexelType, RGBA,
    UNSIGNED_BYTE_TEXEL,
};

#[test]
fn pixel_constructors_agree() {
    let p = Pixel::r_g_b_a(0x11, 0x22, 0x33, 0x44);
    assert_eq!(Pixel::rgba(0x11223344), p);
    assert_eq!(Pixel::argb(0x44112233), p);
    assert_eq!(Pixel::rgb_a(0x112233, 0x44), p);
    assert_eq!(Pixel::rgb(0x112233), Pixel::r_g_b_a(0x11, 0x22, 0x33, 0xFF));
    assert_eq!(Pixel::r_g_b(0x11, 0x22, 0x33), Pixel::r_g_b_a(0x11, 0x22, 0x33, 0xFF));
}

#[test]
fn pixel_rgb_ignores_top_byte() {
    assert_eq!(Pixel::rgb(0xAB112233), Pixel::rgb(0x00112233));
    assert_eq!(Pixel::rgb_a(0xFF000000, 7), Pixel::r_g_b_a(0, 0, 0, 7));
}

#[test]
fn pixel_packing_round_trip() {
    for &(r, g, b, a) in [(0u8, 0u8, 0u8, 0u8), (255, 255, 255, 255), (1, 2, 3, 4), (200, 0, 17, 99)].iter() {
        let rgba = (r as u32) << 24 | (g as u32) << 16 | (b as u32) << 8 | a as u32;
        let argb = (a as u32) << 24 | (r as u32) << 16 | (g as u32) << 8 | b as u32;
        assert_eq!(Pixel::rgba(rgba), Pixel::r_g_b_a(r, g, b, a));
        assert_eq!(Pixel::argb(argb), Pixel::r_g_b_a(r, g, b, a));
    }
}

#[test]
fn pixels_new_is_blue() {
    let pixels = Pixels::new(3, 2);
    assert_eq!(pixels.width(), 3);
    assert_eq!(pixels.height(), 2);
    let blue = Pixel::rgb(0x0000FF);
    for row in 0..2 {
        let r = pixels.index(row);
        assert_eq!(r.len(), 3);
        for p in r.iter() {
            assert_eq!(*p, blue);
        }
    }
}

#[test]
fn pixels_set_then_index_reads_back() {
    let mut pixels = Pixels::new(3, 2);
    let red = Pixel::rgb(0xFF0000);
    pixels.set(1, 2, red);
    assert_eq!(pixels.index(1)[2], red);
    assert_eq!(pixels.index(1)[1], Pixel::rgb(0x0000FF));
    assert_eq!(pixels.index(0)[2], Pixel::rgb(0x0000FF));
}

#[test]
fn pixels_texel_bytes_are_rgba_row_after_row() {
    let mut pixels = Pixels::new(2, 1);
    pixels.set(0, 0, Pixel::r_g_b_a(1, 2, 3, 4));
    assert_eq!(pixels.texel_bytes(), vec![1, 2, 3, 4, 0, 0, 0xFF, 0xFF]);
    assert_eq!(pixels.format(), ImageFormat::rgba8());
}

#[test]
fn pixels_from_image_pixels_writes_each_texel() {
    let a = Pixel::r_g_b_a(9, 9, 9, 9);
    let b = Pixel::r_g_b_a(7, 7, 7, 7);
    let texels = vec![(0usize, 1usize, a), (1, 0, b), (0, 1, b)];
    let pixels = Pixels::from_image_pixels(2, 2, &texels);
    assert_eq!(pixels.index(0)[1], b);
    assert_eq!(pixels.index(1)[0], b);
    assert_eq!(pixels.index(0)[0], Pixel::rgb(0x0000FF));
}

#[test]
fn pixels_empty_grid() {
    let pixels = Pixels::new(0, 0);
    assert_eq!(pixels.texel_bytes(), Vec::<u8>::new());
}

#[test]
fn image_format_rgba8() {
    let f = ImageFormat::rgba8();
    assert_eq!(f.texel_type, UNSIGNED_BYTE_TEXEL);
    assert_eq!(f.texel_format, RGBA);
}

#[test]
fn texel_and_renderbuffer_format_values() {
    assert_eq!(TexelType::UnsignedByte.gl_enum(), 0x1401);
    assert_eq!(TexelType::UnsignedShort565.gl_enum(), 0x8363);
    assert_eq!(TexelType::from_gl(0x8033), Ok(TexelType::UnsignedShort4444));
    assert_eq!(TexelFormat::Alpha.gl_enum(), 0x1906);
    assert_eq!(TexelFormat::RGB.gl_enum(), 0x1907);
    assert_eq!(TexelFormat::from_gl(0x1908), Ok(TexelFormat::RGBA));
    assert_eq!(TexelFormat::from_gl(0), Err(()));
    assert_eq!(RenderbufferFormat::DepthComponent16.gl_enum(), 0x81A5);
    assert_eq!(RenderbufferFormat::StencilIndex8.gl_enum(), 0x8D48);
    assert_eq!(RenderbufferFormat::from_gl(0x8D62), Ok(RenderbufferFormat::RGB565));
}

#[test]
fn texel_bytes_length_and_layout() {
    let mut p = Pixels::new(3, 2);
    p.set(1, 2, Pixel::r_g_b_a(9, 8, 7, 6));
    let t = p.texel_bytes();
    assert_eq!(t.len(), 4 * 3 * 2);
    assert_eq!(&t[4 * (1 * 3 + 2)..4 * (1 * 3 + 2) + 4], &[9, 8, 7, 6]);
    assert_eq!(&t[0..4], &[0, 0, 0xFF, 0xFF]);
    assert!(Pixels::new(0, 5).texel_bytes().is_empty());
    assert!(Pixels::new(4, 0).texel_bytes().is_empty());
}
