use glitter::command::GlCommand;
use glitter::context::Context;
use glitter::context::texture_context::{ContextTextureBuilderExt, ContextTextureExt, TextureBinding};
use glitter::context::texture_units::{TextureUnit0Context, TextureUnit1Context, TextureUnit3Context, TextureUnitBinding2d, TextureUnitBindingCubeMap};
use glitter::image_data::{ImageFormat, Pixel, Pixels};
use glitter::texture::{
    Texture2d, TextureCubeMap, TextureFilter, TextureMipmapFilter, TextureWrapMode, CLAMP_TO_EDGE,
    LINEAR, NEAREST, REPEAT,
};
use glitter::types::{GLError, GLObject};

fn message(e: GLError) -> String {
    match e {
        GLError::Message(m) => m,
        _ => panic!("expected a message"),
    }
}

#[test]
fn texture_filter_values() {
    assert_eq!(NEAREST.gl_enum(), 0x2600);
    assert_eq!(LINEAR.gl_enum(), 0x2601);
    assert_eq!(TextureMipmapFilter::nearest_mipmap_nearest().gl_enum(), 0x2700);
    assert_eq!(TextureMipmapFilter::linear_mipmap_nearest().gl_enum(), 0x2701);
    assert_eq!(TextureMipmapFilter::nearest_mipmap_linear().gl_enum(), 0x2702);
    assert_eq!(TextureMipmapFilter::linear_mipmap_linear().gl_enum(), 0x2703);
    assert_eq!(TextureMipmapFilter::Filter(LINEAR).gl_enum(), 0x2601);
    assert_eq!(TextureMipmapFilter::from(NEAREST), TextureMipmapFilter::Filter(NEAREST));
}

#[test]
fn texture_filter_round_trip() {
    let filters = [
        TextureMipmapFilter::Filter(NEAREST),
        TextureMipmapFilter::Filter(LINEAR),
        TextureMipmapFilter::nearest_mipmap_nearest(),
        TextureMipmapFilter::linear_mipmap_nearest(),
        TextureMipmapFilter::nearest_mipmap_linear(),
        TextureMipmapFilter::linear_mipmap_linear(),
    ];
    for f in filters.iter() {
        assert_eq!(TextureMipmapFilter::from_gl(f.gl_enum()), Ok(*f));
    }
    assert_eq!(TextureFilter::from_gl(0x2601), Ok(TextureFilter::Linear));
    assert_eq!(TextureMipmapFilter::from_gl(0x2704), Err(()));
    assert_eq!(TextureWrapMode::from_gl(0x812F), Ok(CLAMP_TO_EDGE));
    assert_eq!(REPEAT.gl_enum(), 0x2901);
    assert_eq!(TextureWrapMode::MirroredRepeat.gl_enum(), 0x8370);
}

#[test]
fn texture_parameter_commands() {
    let gl = Context::current_context();
    let mut texture = Texture2d::from_raw(11);
    let (unit, gl, active) = gl.active_texture_0();
    assert_eq!(active, GlCommand::ActiveTexture { texture: 0x84C0 });
    let (mut gl_tex, _unit, bind) = unit.bind_texture_2d(&mut texture);
    assert_eq!(bind, GlCommand::BindTexture { target: 0x0DE1, texture: 11 });
    assert_eq!(gl_tex.target().gl_enum(), 0x0DE1);
    assert_eq!(
        gl.set_min_filter(&mut gl_tex, TextureMipmapFilter::linear_mipmap_linear()),
        GlCommand::TexParameteriv { target: 0x0DE1, pname: 0x2801, param: 0x2703 }
    );
    assert_eq!(
        gl.set_mag_filter(&mut gl_tex, NEAREST),
        GlCommand::TexParameteriv { target: 0x0DE1, pname: 0x2800, param: 0x2600 }
    );
    assert_eq!(
        gl.set_wrap_s(&mut gl_tex, CLAMP_TO_EDGE),
        GlCommand::TexParameteriv { target: 0x0DE1, pname: 0x2802, param: 0x812F }
    );
    assert_eq!(
        gl.set_wrap_t(&mut gl_tex, REPEAT),
        GlCommand::TexParameteriv { target: 0x0DE1, pname: 0x2803, param: 0x2901 }
    );
    assert_eq!(gl.generate_mipmap(&mut gl_tex), GlCommand::GenerateMipmap { target: 0x0DE1 });
}

#[test]
fn texture_unit_indices() {
    let gl = Context::current_context();
    let (unit, _gl, active) = gl.active_texture_3();
    assert_eq!(active, GlCommand::ActiveTexture { texture: 0x84C3 });
    assert_eq!(unit.gl_idx(), 3);
    let mut cube = TextureCubeMap::from_raw(2);
    let (_binding, _rest, bind) = unit.bind_texture_cube_map(&mut cube);
    assert_eq!(bind, GlCommand::BindTexture { target: 0x8513, texture: 2 });
}

#[test]
fn texture_builder_without_data_fails() {
    let gl = Context::current_context();
    let (cmds, result) = gl.build_texture_2d().try_unwrap(Texture2d::from_raw(5));
    assert_eq!(
        message(result.err().unwrap()),
        "Error building texture: neither an image nor a format were provided"
    );
    assert_eq!(
        cmds,
        vec![
            GlCommand::ActiveTexture { texture: 0x84C0 },
            GlCommand::BindTexture { target: 0x0DE1, texture: 5 },
            GlCommand::DeleteTexture { texture: 5 },
        ]
    );
}

#[test]
fn texture_builder_empty_needs_positive_dimensions() {
    let gl = Context::current_context();
    let (cmds, result) =
        gl.build_texture_2d().empty(ImageFormat::rgba8(), 0, 4).try_unwrap(Texture2d::from_raw(5));
    assert_eq!(message(result.err().unwrap()), "Error building texture: texture must have positive dimensions");
    assert_eq!(cmds.len(), 4);
    assert_eq!(
        cmds[2],
        GlCommand::TexImage2D {
            target: 0x0DE1,
            level: 0,
            internal_format: 0x1908,
            width: 0,
            height: 4,
            border: 0,
            format: 0x1908,
            ty: 0x1401,
            pixels: None,
        }
    );
    assert_eq!(cmds[3], GlCommand::DeleteTexture { texture: 5 });
}

#[test]
fn texture_builder_mipmap_filter_needs_mipmaps() {
    let gl = Context::current_context();
    let (cmds, result) = gl
        .build_texture_2d()
        .empty(ImageFormat::rgba8(), 2, 2)
        .min_filter(TextureMipmapFilter::nearest_mipmap_nearest())
        .try_unwrap(Texture2d::from_raw(5));
    assert_eq!(
        message(result.err().unwrap()),
        "Error building texture: texture uses a mipmap filter but does not have a mipmap"
    );
    assert_eq!(cmds.last(), Some(&GlCommand::DeleteTexture { texture: 5 }));
}

#[test]
fn texture_builder_default_filter_needs_mipmaps() {
    let gl = Context::current_context();
    let (cmds, result) = gl
        .build_texture_2d()
        .empty(ImageFormat::rgba8(), 4, 4)
        .try_unwrap(Texture2d::from_raw(7));
    assert_eq!(
        message(result.err().unwrap()),
        "Error building texture: texture uses a mipmap filter but does not have a mipmap"
    );
    assert_eq!(
        cmds,
        vec![
            GlCommand::ActiveTexture { texture: 0x84C0 },
            GlCommand::BindTexture { target: 0x0DE1, texture: 7 },
            GlCommand::TexImage2D {
                target: 0x0DE1,
                level: 0,
                internal_format: 0x1908,
                width: 4,
                height: 4,
                border: 0,
                format: 0x1908,
                ty: 0x1401,
                pixels: None,
            },
            GlCommand::DeleteTexture { texture: 7 },
        ]
    );
}

#[test]
fn texture_builder_default_filter_with_mipmaps() {
    let gl = Context::current_context();
    let (cmds, texture) = gl
        .build_texture_2d()
        .empty(ImageFormat::rgba8(), 4, 4)
        .generate_mipmap()
        .unwrap(Texture2d::from_raw(9));
    assert_eq!(texture.id(), 9);
    assert_eq!(cmds.last(), Some(&GlCommand::GenerateMipmap { target: 0x0DE1 }));
}

#[test]
fn texture_builder_with_image_and_mipmaps() {
    let gl = Context::current_context();
    let mut pixels = Pixels::new(2, 1);
    pixels.set(0, 1, Pixel::r_g_b_a(1, 2, 3, 4));
    let (cmds, texture) = gl
        .build_texture_2d()
        .image_2d(&pixels)
        .min_filter(TextureMipmapFilter::linear_mipmap_linear())
        .mag_filter(LINEAR)
        .wrap_s(CLAMP_TO_EDGE)
        .wrap_t(CLAMP_TO_EDGE)
        .generate_mipmap()
        .unwrap(Texture2d::from_raw(8));
    assert_eq!(texture.id(), 8);
    assert_eq!(
        cmds,
        vec![
            GlCommand::ActiveTexture { texture: 0x84C0 },
            GlCommand::BindTexture { target: 0x0DE1, texture: 8 },
            GlCommand::TexParameteriv { target: 0x0DE1, pname: 0x2801, param: 0x2703 },
            GlCommand::TexParameteriv { target: 0x0DE1, pname: 0x2800, param: 0x2601 },
            GlCommand::TexParameteriv { target: 0x0DE1, pname: 0x2802, param: 0x812F },
            GlCommand::TexParameteriv { target: 0x0DE1, pname: 0x2803, param: 0x812F },
            GlCommand::TexImage2D {
                target: 0x0DE1,
                level: 0,
                internal_format: 0x1908,
                width: 2,
                height: 1,
                border: 0,
                format: 0x1908,
                ty: 0x1401,
                pixels: Some(vec![0, 0, 0xFF, 0xFF, 1, 2, 3, 4]),
            },
            GlCommand::GenerateMipmap { target: 0x0DE1 },
        ]
    );
}

#[test]
fn texture_builder_plain_filter_without_mipmaps() {
    let gl = Context::current_context();
    let (cmds, result) = gl
        .build_texture_2d()
        .empty(ImageFormat::rgba8(), 4, 4)
        .min_filter(TextureMipmapFilter::Filter(LINEAR))
        .try_unwrap(Texture2d::from_raw(6));
    assert_eq!(result.unwrap().id(), 6);
    assert_eq!(cmds.len(), 4);
}

#[test]
fn texture_delete_command() {
    assert_eq!(Texture2d::from_raw(3).delete(), GlCommand::DeleteTexture { texture: 3 });
    assert_eq!(TextureCubeMap::from_raw(3).into_raw(), 3);
}

#[test]
fn texture_builder_on_borrowed_context() {
    let mut gl = Context::current_context();
    let (cmds, texture) = (&mut gl)
        .build_texture_2d()
        .empty(ImageFormat::rgba8(), 1, 1)
        .min_filter(TextureMipmapFilter::Filter(NEAREST))
        .unwrap(Texture2d::from_raw(30));
    assert_eq!(texture.id(), 30);
    assert_eq!(cmds.len(), 4);
    let (_unit, _rest, active) = (&mut gl).active_texture_0();
    assert_eq!(active, GlCommand::ActiveTexture { texture: 0x84C0 });
    let (mut unit, _rest, _) = gl.active_texture_1();
    let mut texture = Texture2d::from_raw(31);
    let (_binding, _unit_rest, bind) = (&mut unit).bind_texture_2d(&mut texture);
    assert_eq!(bind, GlCommand::BindTexture { target: 0x0DE1, texture: 31 });
    let mut cube = TextureCubeMap::from_raw(32);
    let (_binding, _unit_rest, bind) = unit.bind_texture_cube_map(&mut cube);
    assert_eq!(bind, GlCommand::BindTexture { target: 0x8513, texture: 32 });
}

#[test]
fn texture_unwrap_gives_what_try_unwrap_gives() {
    let gl = Context::current_context();
    let (try_cmds, result) = gl
        .build_texture_2d()
        .empty(ImageFormat::rgba8(), 2, 8)
        .min_filter(TextureMipmapFilter::Filter(LINEAR))
        .wrap_s(REPEAT)
        .try_unwrap(Texture2d::from_raw(12));
    let gl = Context::current_context();
    let (cmds, texture) = gl
        .build_texture_2d()
        .empty(ImageFormat::rgba8(), 2, 8)
        .min_filter(TextureMipmapFilter::Filter(LINEAR))
        .wrap_s(REPEAT)
        .unwrap(Texture2d::from_raw(12));
    assert_eq!(cmds, try_cmds);
    assert_eq!(result.unwrap().id(), texture.id());
}
