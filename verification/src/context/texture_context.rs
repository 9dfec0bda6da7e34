//! The OpenGL state types related to texture bindings, and the builder for
//! 2D textures.

use vstd::prelude::*;
use std::marker::PhantomData;
use crate::command::{GlCommand, GlCommandView, command_views};
use crate::context::BaseContext;
use crate::context::texture_units::{TextureUnit0Context, TextureUnitBinding2d};
use crate::gl_consts::{gl_texture_mag_filter, gl_texture_min_filter, gl_texture_wrap_s, gl_texture_wrap_t};
use crate::image_data::{Image2d, ImageFormat, TexelFormat};
use crate::texture::{
    ImageTargetType, Texture, Texture2d, TextureBindingTarget, TextureCubeMap, TextureFilter,
    TextureMipmapFilter, TextureType, TextureWrapMode, Tx2d, Tx2dImageTarget, TxCubeMap,
};
use crate::types::{GLError, GLObject};

verus! {

/// The `glTexImage2D` command with the given arguments, where the internal
/// format must be the texel format of `format`; sizes are passed as OpenGL's
/// signed integer type.
fn tex_image_2d_command(
    target: u32,
    level: u32,
    internal_format: TexelFormat,
    width: u32,
    height: u32,
    border: u32,
    format: ImageFormat,
    pixels: Option<Vec<u8>>,
) -> (c: GlCommand)
    requires
        internal_format == format.texel_format,
    ensures
        c@ == (GlCommandView::TexImage2D {
            target: target,
            level: level as i32,
            internal_format: internal_format.spec_gl_enum() as i32,
            width: width as i32,
            height: height as i32,
            border: border as i32,
            format: format.texel_format.spec_gl_enum(),
            ty: format.texel_type.spec_gl_enum(),
            pixels: match pixels {
                Some(v) => Some(v@),
                None => None,
            },
        }),
{
    GlCommand::TexImage2D {
        target: target,
        level: level as i32,
        internal_format: internal_format.gl_enum() as i32,
        width: width as i32,
        height: height as i32,
        border: border as i32,
        format: format.texel_format.gl_enum(),
        ty: format.texel_type.gl_enum(),
        pixels: pixels,
    }
}

/// The `glTexParameteriv` command that sets parameter `pname` of the texture
/// bound to `target`.
fn tex_parameter_command(target: TextureBindingTarget, pname: u32, param: i32) -> (c: GlCommand)
    ensures
        c@ == (GlCommandView::TexParameteriv { target: target.spec_gl_enum(), pname: pname, param: param }),
{
    GlCommand::TexParameteriv { target: target.gl_enum(), pname: pname, param: param }
}

/// The texture-related OpenGL methods.
pub trait ContextTextureExt: BaseContext {
    /// Set a texture's minifying filter (`glTexParameteriv` with
    /// `GL_TEXTURE_MIN_FILTER`).
    fn set_min_filter<T: TextureBinding>(&self, gl_texture: &mut T, filter: TextureMipmapFilter) -> (c: GlCommand)
        ensures
            c@ == (GlCommandView::TexParameteriv {
                target: old(gl_texture).spec_target().spec_gl_enum(),
                pname: 0x2801,
                param: filter.spec_gl_enum() as i32,
            }),
    {
        tex_parameter_command(gl_texture.target(), gl_texture_min_filter(), filter.gl_enum() as i32)
    }

    /// Set a texture's magnifying filter (`glTexParameteriv` with
    /// `GL_TEXTURE_MAG_FILTER`).
    fn set_mag_filter<T: TextureBinding>(&self, gl_texture: &mut T, filter: TextureFilter) -> (c: GlCommand)
        ensures
            c@ == (GlCommandView::TexParameteriv {
                target: old(gl_texture).spec_target().spec_gl_enum(),
                pname: 0x2800,
                param: filter.spec_gl_enum() as i32,
            }),
    {
        tex_parameter_command(gl_texture.target(), gl_texture_mag_filter(), filter.gl_enum() as i32)
    }

    /// Set a texture's wrap mode for the s-coordinate (`glTexParameteriv`
    /// with `GL_TEXTURE_WRAP_S`).
    fn set_wrap_s<T: TextureBinding>(&self, gl_texture: &mut T, wrap_mode: TextureWrapMode) -> (c: GlCommand)
        ensures
            c@ == (GlCommandView::TexParameteriv {
                target: old(gl_texture).spec_target().spec_gl_enum(),
                pname: 0x2802,
                param: wrap_mode.spec_gl_enum() as i32,
            }),
    {
        tex_parameter_command(gl_texture.target(), gl_texture_wrap_s(), wrap_mode.gl_enum() as i32)
    }

    /// Set a texture's wrap mode for the t-coordinate (`glTexParameteriv`
    /// with `GL_TEXTURE_WRAP_T`).
    fn set_wrap_t<T: TextureBinding>(&self, gl_texture: &mut T, wrap_mode: TextureWrapMode) -> (c: GlCommand)
        ensures
            c@ == (GlCommandView::TexParameteriv {
                target: old(gl_texture).spec_target().spec_gl_enum(),
                pname: 0x2803,
                param: wrap_mode.spec_gl_enum() as i32,
            }),
    {
        tex_parameter_command(gl_texture.target(), gl_texture_wrap_t(), wrap_mode.gl_enum() as i32)
    }

    /// Generate the mipmaps of a texture (`glGenerateMipmap`).
    fn generate_mipmap<T: TextureBinding>(&self, gl_texture: &mut T) -> (c: GlCommand)
        ensures
            c@ == (GlCommandView::GenerateMipmap { target: old(gl_texture).spec_target().spec_gl_enum() }),
    {
        GlCommand::GenerateMipmap { target: gl_texture.target().gl_enum() }
    }

    /// Upload 2D image data to an image target of the bound texture, at
    /// mipmap level `level` (`glTexImage2D`).
    fn tex_image_2d<T: TextureBinding, I: Image2d>(
        &self,
        _gl_texture: &mut T,
        target: <T::TextureType as TextureType>::ImageTargetType,
        level: u32,
        img: &I,
    ) -> (c: GlCommand)
        ensures
            c@ == (GlCommandView::TexImage2D {
                target: target.spec_image_target(),
                level: level as i32,
                internal_format: img.spec_format().texel_format.spec_gl_enum() as i32,
                width: (img.spec_width() as u32) as i32,
                height: (img.spec_height() as u32) as i32,
                border: 0,
                format: img.spec_format().texel_format.spec_gl_enum(),
                ty: img.spec_format().texel_type.spec_gl_enum(),
                pixels: Some(img.spec_texel_bytes()),
            }),
    {
        let format = img.format();
        tex_image_2d_command(
            target.gl_enum(),
            level,
            format.texel_format,
            img.width() as u32,
            img.height() as u32,
            0,
            format,
            Some(img.texel_bytes()),
        )
    }

    /// Set an image target of the bound texture to an empty image with the
    /// given format and size, at mipmap level `level` (`glTexImage2D` with no
    /// data).
    fn tex_image_2d_empty<T: TextureBinding, I: ImageTargetType>(
        &self,
        _gl_texture: &mut T,
        target: I,
        level: u32,
        format: ImageFormat,
        width: u32,
        height: u32,
    ) -> (c: GlCommand)
        ensures
            c@ == (GlCommandView::TexImage2D {
                target: target.spec_image_target(),
                level: level as i32,
                internal_format: format.texel_format.spec_gl_enum() as i32,
                width: width as i32,
                height: height as i32,
                border: 0,
                format: format.texel_format.spec_gl_enum(),
                ty: format.texel_type.spec_gl_enum(),
                pixels: None,
            }),
    {
        tex_image_2d_command(target.gl_enum(), level, format.texel_format, width, height, 0, format, None)
    }
}

impl<C: BaseContext> ContextTextureExt for C {
}

/// Represents a texture that has been bound to a texture unit.
pub trait TextureBinding {
    /// The type of texture that this binding represents.
    type TextureType: TextureType;

    /// The target the texture is bound to.
    spec fn spec_target(&self) -> TextureBindingTarget;

    /// The OpenGL texture target of this binding.
    fn target(&self) -> (r: TextureBindingTarget)
        ensures
            r == self.spec_target(),
    ;
}

/// Represents a texture that has been bound to the `GL_TEXTURE_2D` target of
/// a texture unit.
pub struct Texture2dBinding<'a> {
    _phantom: PhantomData<&'a mut Texture2d>,
}

impl<'a> TextureBinding for Texture2dBinding<'a> {
    type TextureType = Tx2d;

    open spec fn spec_target(&self) -> TextureBindingTarget {
        TextureBindingTarget::Texture2d
    }

    fn target(&self) -> (r: TextureBindingTarget) {
        assert(self.spec_target() == TextureBindingTarget::Texture2d);
        Tx2d::target()
    }
}

/// Represents a texture that has been bound to the `GL_TEXTURE_CUBE_MAP`
/// target of a texture unit.
pub struct TextureCubeMapBinding<'a> {
    _phantom: PhantomData<&'a mut TextureCubeMap>,
}

impl<'a> TextureBinding for TextureCubeMapBinding<'a> {
    type TextureType = TxCubeMap;

    open spec fn spec_target(&self) -> TextureBindingTarget {
        TextureBindingTarget::TextureCubeMap
    }

    fn target(&self) -> (r: TextureBindingTarget) {
        assert(self.spec_target() == TextureBindingTarget::TextureCubeMap);
        TxCubeMap::target()
    }
}

/// The `glBindTexture` command that binds `texture` to its kind's target.
fn bind_texture_command<T: TextureType>(texture: &Texture<T>) -> (c: GlCommand)
    ensures
        c@ == (GlCommandView::BindTexture { target: T::spec_target().spec_gl_enum(), texture: texture.spec_id() }),
{
    GlCommand::BindTexture { target: T::target().gl_enum(), texture: texture.id() }
}

/// The texture unit state that represents the `GL_TEXTURE_2D` target.
pub struct Texture2dBinder {
    _private: (),
}

impl Texture2dBinder {
    /// Get the current `GL_TEXTURE_2D` binder. The same rules apply to this
    /// method as to [`ContextOf::current_context`](../struct.ContextOf.html#method.current_context).
    pub fn current() -> (r: Self) {
        Texture2dBinder { _private: () }
    }

    /// Bind a texture to the `GL_TEXTURE_2D` target, returning a binding and
    /// the `glBindTexture` command.
    pub fn bind<'a>(&mut self, texture: &'a mut Texture2d) -> (r: (Texture2dBinding<'a>, GlCommand))
        ensures
            r.1@ == (GlCommandView::BindTexture { target: 0x0DE1, texture: old(texture).spec_id() }),
            *final(texture) == *old(texture),
    {
        bind_texture_2d_target(texture)
    }
}

/// The `glBindTexture` command that binds `texture` to `GL_TEXTURE_2D`, with
/// the binding it makes.
pub(crate) fn bind_texture_2d_target<'a>(texture: &'a mut Texture2d) -> (r: (Texture2dBinding<'a>, GlCommand))
    ensures
        r.1@ == (GlCommandView::BindTexture { target: 0x0DE1, texture: old(texture).spec_id() }),
        *final(texture) == *old(texture),
{
    let command = bind_texture_command(texture);
    (Texture2dBinding { _phantom: PhantomData }, command)
}

/// The texture unit state that represents the `GL_TEXTURE_CUBE_MAP` target.
pub struct TextureCubeMapBinder {
    _private: (),
}

impl TextureCubeMapBinder {
    /// Get the current `GL_TEXTURE_CUBE_MAP` binder. The same rules apply to
    /// this method as to [`ContextOf::current_context`](../struct.ContextOf.html#method.current_context).
    pub fn current() -> (r: Self) {
        TextureCubeMapBinder { _private: () }
    }

    /// Bind a texture to the `GL_TEXTURE_CUBE_MAP` target, returning a
    /// binding and the `glBindTexture` command.
    pub fn bind<'a>(&mut self, texture: &'a mut TextureCubeMap) -> (r: (TextureCubeMapBinding<'a>, GlCommand))
        ensures
            r.1@ == (GlCommandView::BindTexture { target: 0x8513, texture: old(texture).spec_id() }),
            *final(texture) == *old(texture),
    {
        bind_texture_cube_map_target(texture)
    }
}

/// The `glBindTexture` command that binds `texture` to
/// `GL_TEXTURE_CUBE_MAP`, with the binding it makes.
pub(crate) fn bind_texture_cube_map_target<'a>(texture: &'a mut TextureCubeMap) -> (r: (TextureCubeMapBinding<'a>, GlCommand))
    ensures
        r.1@ == (GlCommandView::BindTexture { target: 0x8513, texture: old(texture).spec_id() }),
        *final(texture) == *old(texture),
{
    let command = bind_texture_command(texture);
    (TextureCubeMapBinding { _phantom: PhantomData }, command)
}


/// The configuration of a [`Texture2dBuilder`](struct.Texture2dBuilder.html),
/// with image data taken as the image's width, height, format and bytes.
pub struct Texture2dConfig {
    /// The minifying filter, if one was set.
    pub min_filter: Option<TextureMipmapFilter>,
    /// The magnifying filter, if one was set.
    pub mag_filter: Option<TextureFilter>,
    /// The wrap mode for the s-coordinate, if one was set.
    pub wrap_s: Option<TextureWrapMode>,
    /// The wrap mode for the t-coordinate, if one was set.
    pub wrap_t: Option<TextureWrapMode>,
    /// Whether mipmaps are generated.
    pub gen_mipmap: bool,
    /// The image to fill the texture with, if one was given.
    pub image: Option<(usize, usize, ImageFormat, Seq<u8>)>,
    /// The format and size of an empty texture, if they were given.
    pub empty_params: Option<(ImageFormat, u32, u32)>,
}

/// The message of the error for an empty texture without positive
/// dimensions.
pub open spec fn spec_dimensions_message() -> Seq<char> {
    "Error building texture: texture must have positive dimensions"@
}

/// The message of the error for a texture with neither an image nor a
/// format.
pub open spec fn spec_no_image_message() -> Seq<char> {
    "Error building texture: neither an image nor a format were provided"@
}

/// The message of the error for a texture with a mipmap filter but no
/// mipmaps.
pub open spec fn spec_mipmap_message() -> Seq<char> {
    "Error building texture: texture uses a mipmap filter but does not have a mipmap"@
}

/// The error that the data of the configuration causes: no image nor empty
/// format, or an empty texture whose width or height is 0.
pub open spec fn texture_2d_data_error(cfg: Texture2dConfig) -> Option<Seq<char>> {
    data_error(cfg.image, cfg.empty_params)
}

/// The error that missing image data, or an empty image without positive
/// dimensions, causes.
pub open spec fn data_error(
    image: Option<(usize, usize, ImageFormat, Seq<u8>)>,
    empty_params: Option<(ImageFormat, u32, u32)>,
) -> Option<Seq<char>> {
    match image {
        Some(_) => None,
        None => match empty_params {
            Some((f, w, h)) => if w > 0 && h > 0 {
                None
            } else {
                Some(spec_dimensions_message())
            },
            None => Some(spec_no_image_message()),
        },
    }
}

/// Whether the minifying filter of the configuration samples mipmaps: a
/// mipmap filter, or no filter at all, since GL's initial minifying filter
/// is `GL_NEAREST_MIPMAP_LINEAR`.
pub open spec fn uses_mipmap_filter(min_filter: Option<TextureMipmapFilter>) -> bool {
    match min_filter {
        None => true,
        Some(TextureMipmapFilter::MipmapFilter { .. }) => true,
        Some(TextureMipmapFilter::Filter(_)) => false,
    }
}

/// The error that building a texture with the configuration gives, if any:
/// a data error, or, without generated mipmaps, a minifying filter that
/// samples mipmaps (which leaves the texture incomplete).
pub open spec fn texture_2d_error(cfg: Texture2dConfig) -> Option<Seq<char>> {
    if texture_2d_data_error(cfg) is Some {
        texture_2d_data_error(cfg)
    } else if !cfg.gen_mipmap && uses_mipmap_filter(cfg.min_filter) {
        Some(spec_mipmap_message())
    } else {
        None
    }
}

/// The `glTexParameteriv` command on `GL_TEXTURE_2D`, if the parameter is set.
pub open spec fn tex_parameter_2d(pname: u32, value: Option<u32>) -> Seq<GlCommandView> {
    match value {
        Some(v) => seq![GlCommandView::TexParameteriv { target: 0x0DE1, pname: pname, param: v as i32 }],
        None => Seq::empty(),
    }
}

/// The commands that make texture unit 0 active, bind the texture and set
/// each parameter that the configuration sets.
pub open spec fn texture_2d_setup(cfg: Texture2dConfig, texture: u32) -> Seq<GlCommandView> {
    seq![
        GlCommandView::ActiveTexture { texture: 0x84C0 },
        GlCommandView::BindTexture { target: 0x0DE1, texture: texture },
    ] + tex_parameter_2d(
        0x2801,
        match cfg.min_filter {
            Some(f) => Some(f.spec_gl_enum()),
            None => None,
        },
    ) + tex_parameter_2d(
        0x2800,
        match cfg.mag_filter {
            Some(f) => Some(f.spec_gl_enum()),
            None => None,
        },
    ) + tex_parameter_2d(
        0x2802,
        match cfg.wrap_s {
            Some(w) => Some(w.spec_gl_enum()),
            None => None,
        },
    ) + tex_parameter_2d(
        0x2803,
        match cfg.wrap_t {
            Some(w) => Some(w.spec_gl_enum()),
            None => None,
        },
    )
}

/// The command that uploads the image, or sets the empty image, of the
/// configuration (the image wins when both are given).
pub open spec fn texture_2d_upload(cfg: Texture2dConfig) -> Seq<GlCommandView> {
    upload_views(cfg.image, cfg.empty_params)
}

/// The command that uploads `image`, or else sets the empty image of
/// `empty_params`, if either is given.
pub open spec fn upload_views(
    image: Option<(usize, usize, ImageFormat, Seq<u8>)>,
    empty_params: Option<(ImageFormat, u32, u32)>,
) -> Seq<GlCommandView> {
    match image {
        Some((w, h, format, bytes)) => seq![
            GlCommandView::TexImage2D {
                target: 0x0DE1,
                level: 0,
                internal_format: format.texel_format.spec_gl_enum() as i32,
                width: (w as u32) as i32,
                height: (h as u32) as i32,
                border: 0,
                format: format.texel_format.spec_gl_enum(),
                ty: format.texel_type.spec_gl_enum(),
                pixels: Some(bytes),
            },
        ],
        None => match empty_params {
            Some((format, w, h)) => seq![
                GlCommandView::TexImage2D {
                    target: 0x0DE1,
                    level: 0,
                    internal_format: format.texel_format.spec_gl_enum() as i32,
                    width: w as i32,
                    height: h as i32,
                    border: 0,
                    format: format.texel_format.spec_gl_enum(),
                    ty: format.texel_type.spec_gl_enum(),
                    pixels: None,
                },
            ],
            None => Seq::empty(),
        },
    }
}

/// All of the commands that building texture `texture` with the
/// configuration runs: the setup and upload, then either the mipmap
/// generation or, when building fails, the deletion of the texture.
pub open spec fn texture_2d_commands(cfg: Texture2dConfig, texture: u32) -> Seq<GlCommandView> {
    let pre = texture_2d_setup(cfg, texture) + texture_2d_upload(cfg);
    if texture_2d_data_error(cfg) is Some {
        pre.push(GlCommandView::DeleteTexture { texture: texture })
    } else if cfg.gen_mipmap {
        pre.push(GlCommandView::GenerateMipmap { target: 0x0DE1 })
    } else if texture_2d_error(cfg) is Some {
        pre.push(GlCommandView::DeleteTexture { texture: texture })
    } else {
        pre
    }
}

/// What building texture `texture` with the configuration gives: the
/// views of the commands, and either the ID of the built texture or the
/// message of the error.
pub open spec fn texture_2d_outcome(cfg: Texture2dConfig, texture: u32) -> (Seq<GlCommandView>, Result<u32, Seq<char>>) {
    (
        texture_2d_commands(cfg, texture),
        match texture_2d_error(cfg) {
            None => Ok(texture),
            Some(msg) => Err(msg),
        },
    )
}

/// The ID of a built texture, or the message of an error (empty for an
/// error without one).
pub open spec fn texture_result_view(r: Result<Texture2d, GLError>) -> Result<u32, Seq<char>> {
    match r {
        Ok(t) => Ok(t.spec_id()),
        Err(GLError::Message(m)) => Err(m@),
        Err(_) => Err(Seq::empty()),
    }
}

/// Whether a command is a `glTexParameteriv` that sets parameter `pname`.
pub open spec fn sets_parameter(pname: u32) -> spec_fn(GlCommandView) -> bool {
    |c: GlCommandView| c matches GlCommandView::TexParameteriv { pname: p, .. } && p == pname
}

/// The `glTexParameteriv` commands of `cmds` that set parameter `pname`, in
/// order.
pub open spec fn parameter_commands(cmds: Seq<GlCommandView>, pname: u32) -> Seq<GlCommandView> {
    cmds.filter(sets_parameter(pname))
}

/// The commands that build a texture set each parameter exactly as the
/// builder's setter for it was last called: one `glTexParameteriv` on
/// `GL_TEXTURE_2D` for `GL_TEXTURE_MIN_FILTER` (0x2801) with the minifying
/// filter, `GL_TEXTURE_MAG_FILTER` (0x2800) with the magnifying filter,
/// `GL_TEXTURE_WRAP_S` (0x2802) with `wrap_s` and `GL_TEXTURE_WRAP_T` (0x2803)
/// with `wrap_t`, and none for a parameter that was not set.
pub proof fn lemma_texture_2d_parameters(cfg: Texture2dConfig, texture: u32)
    ensures
        parameter_commands(texture_2d_commands(cfg, texture), 0x2801) == match cfg.min_filter {
            Some(f) => seq![GlCommandView::TexParameteriv { target: 0x0DE1, pname: 0x2801, param: f.spec_gl_enum() as i32 }],
            None => Seq::<GlCommandView>::empty(),
        },
        parameter_commands(texture_2d_commands(cfg, texture), 0x2800) == match cfg.mag_filter {
            Some(f) => seq![GlCommandView::TexParameteriv { target: 0x0DE1, pname: 0x2800, param: f.spec_gl_enum() as i32 }],
            None => Seq::<GlCommandView>::empty(),
        },
        parameter_commands(texture_2d_commands(cfg, texture), 0x2802) == match cfg.wrap_s {
            Some(w) => seq![GlCommandView::TexParameteriv { target: 0x0DE1, pname: 0x2802, param: w.spec_gl_enum() as i32 }],
            None => Seq::<GlCommandView>::empty(),
        },
        parameter_commands(texture_2d_commands(cfg, texture), 0x2803) == match cfg.wrap_t {
            Some(w) => seq![GlCommandView::TexParameteriv { target: 0x0DE1, pname: 0x2803, param: w.spec_gl_enum() as i32 }],
            None => Seq::<GlCommandView>::empty(),
        },
{
    lemma_parameter_min_filter(cfg, texture);
    lemma_parameter_mag_filter(cfg, texture);
    lemma_parameter_wrap_s(cfg, texture);
    lemma_parameter_wrap_t(cfg, texture);
}

/// The build sets parameter `0x2801` to the `min_filter` of the configuration, if set.
proof fn lemma_parameter_min_filter(cfg: Texture2dConfig, texture: u32)
    ensures
        parameter_commands(texture_2d_commands(cfg, texture), 0x2801) == match cfg.min_filter {
            Some(f) => seq![GlCommandView::TexParameteriv { target: 0x0DE1, pname: 0x2801, param: f.spec_gl_enum() as i32 }],
            None => Seq::<GlCommandView>::empty(),
        },
{
    lemma_parameter_of_build(cfg, texture, 0x2801);
}

/// The build sets parameter `0x2800` to the `mag_filter` of the configuration, if set.
proof fn lemma_parameter_mag_filter(cfg: Texture2dConfig, texture: u32)
    ensures
        parameter_commands(texture_2d_commands(cfg, texture), 0x2800) == match cfg.mag_filter {
            Some(f) => seq![GlCommandView::TexParameteriv { target: 0x0DE1, pname: 0x2800, param: f.spec_gl_enum() as i32 }],
            None => Seq::<GlCommandView>::empty(),
        },
{
    lemma_parameter_of_build(cfg, texture, 0x2800);
}

/// The build sets parameter `0x2802` to the `wrap_s` of the configuration, if set.
proof fn lemma_parameter_wrap_s(cfg: Texture2dConfig, texture: u32)
    ensures
        parameter_commands(texture_2d_commands(cfg, texture), 0x2802) == match cfg.wrap_s {
            Some(w) => seq![GlCommandView::TexParameteriv { target: 0x0DE1, pname: 0x2802, param: w.spec_gl_enum() as i32 }],
            None => Seq::<GlCommandView>::empty(),
        },
{
    lemma_parameter_of_build(cfg, texture, 0x2802);
}

/// The build sets parameter `0x2803` to the `wrap_t` of the configuration, if set.
proof fn lemma_parameter_wrap_t(cfg: Texture2dConfig, texture: u32)
    ensures
        parameter_commands(texture_2d_commands(cfg, texture), 0x2803) == match cfg.wrap_t {
            Some(w) => seq![GlCommandView::TexParameteriv { target: 0x0DE1, pname: 0x2803, param: w.spec_gl_enum() as i32 }],
            None => Seq::<GlCommandView>::empty(),
        },
{
    lemma_parameter_of_build(cfg, texture, 0x2803);
}

/// The value that the configuration sets parameter `pname` to, if any.
spec fn configured_parameter(cfg: Texture2dConfig, pname: u32) -> Option<u32> {
    if pname == 0x2801 {
        match cfg.min_filter { Some(f) => Some(f.spec_gl_enum()), None => None }
    } else if pname == 0x2800 {
        match cfg.mag_filter { Some(f) => Some(f.spec_gl_enum()), None => None }
    } else if pname == 0x2802 {
        match cfg.wrap_s { Some(w) => Some(w.spec_gl_enum()), None => None }
    } else {
        match cfg.wrap_t { Some(w) => Some(w.spec_gl_enum()), None => None }
    }
}

/// The `pname` commands of a build are the setup's step for `pname`.
proof fn lemma_parameter_of_build(cfg: Texture2dConfig, texture: u32, pname: u32)
    requires
        0x2800 <= pname <= 0x2803,
    ensures
        parameter_commands(texture_2d_commands(cfg, texture), pname) == tex_parameter_2d(pname, configured_parameter(cfg, pname)),
{
    let min = configured_parameter(cfg, 0x2801);
    let mag = configured_parameter(cfg, 0x2800);
    let ws = configured_parameter(cfg, 0x2802);
    let wt = configured_parameter(cfg, 0x2803);
    lemma_build_parts(cfg, texture);
    lemma_parameters_of_parts(texture, min, mag, ws, wt, texture_2d_upload(cfg), texture_2d_commands(cfg, texture), pname);
}

/// Whether a command is a `glTexImage2D`.
pub open spec fn is_tex_image() -> spec_fn(GlCommandView) -> bool {
    |c: GlCommandView| c is TexImage2D
}

/// The commands that build a texture upload its image exactly once: one
/// `glTexImage2D` of level 0 of `GL_TEXTURE_2D`, with the image's width,
/// height, texel format and type and texel bytes when an image was given,
/// and otherwise with the empty texture's format and size and no data; no
/// upload when neither was given.
pub proof fn lemma_texture_2d_upload(cfg: Texture2dConfig, texture: u32)
    ensures
        texture_2d_commands(cfg, texture).filter(is_tex_image()) == match cfg.image {
            Some((w, h, format, bytes)) => seq![
                GlCommandView::TexImage2D {
                    target: 0x0DE1,
                    level: 0,
                    internal_format: format.texel_format.spec_gl_enum() as i32,
                    width: (w as u32) as i32,
                    height: (h as u32) as i32,
                    border: 0,
                    format: format.texel_format.spec_gl_enum(),
                    ty: format.texel_type.spec_gl_enum(),
                    pixels: Some(bytes),
                },
            ],
            None => match cfg.empty_params {
                Some((format, w, h)) => seq![
                    GlCommandView::TexImage2D {
                        target: 0x0DE1,
                        level: 0,
                        internal_format: format.texel_format.spec_gl_enum() as i32,
                        width: w as i32,
                        height: h as i32,
                        border: 0,
                        format: format.texel_format.spec_gl_enum(),
                        ty: format.texel_type.spec_gl_enum(),
                        pixels: None,
                    },
                ],
                None => Seq::<GlCommandView>::empty(),
            },
        },
{
    lemma_upload_of_build(cfg, texture);
}

/// The uploads of a build are the configuration's upload step.
proof fn lemma_upload_of_build(cfg: Texture2dConfig, texture: u32)
    ensures
        texture_2d_commands(cfg, texture).filter(is_tex_image()) == texture_2d_upload(cfg),
{
    lemma_build_parts(cfg, texture);
    lemma_upload_of_parts(
        texture,
        configured_parameter(cfg, 0x2801),
        configured_parameter(cfg, 0x2800),
        configured_parameter(cfg, 0x2802),
        configured_parameter(cfg, 0x2803),
        texture_2d_upload(cfg),
        texture_2d_commands(cfg, texture),
    );
}

/// The uploads of a setup and upload, followed by at most one command that
/// uploads nothing, are the upload's.
proof fn lemma_upload_of_parts(
    texture: u32,
    min: Option<u32>,
    mag: Option<u32>,
    ws: Option<u32>,
    wt: Option<u32>,
    up: Seq<GlCommandView>,
    c: Seq<GlCommandView>,
)
    requires
        up.len() <= 1,
        up.len() == 1 ==> up[0] is TexImage2D,
        ({
            let pre = setup_parts(texture, min, mag, ws, wt) + up;
            c == pre || (c == pre.push(c.last()) && !(c.last() is TexImage2D))
        }),
    ensures
        c.filter(is_tex_image()) == up,
{
    let pred = is_tex_image();
    let a0 = seq![GlCommandView::ActiveTexture { texture: 0x84C0 }];
    let b0 = seq![GlCommandView::BindTexture { target: 0x0DE1, texture: texture }];
    let t0 = seq![
        GlCommandView::ActiveTexture { texture: 0x84C0 },
        GlCommandView::BindTexture { target: 0x0DE1, texture: texture },
    ];
    let t1 = tex_parameter_2d(0x2801, min);
    let t2 = tex_parameter_2d(0x2800, mag);
    let t3 = tex_parameter_2d(0x2802, ws);
    let t4 = tex_parameter_2d(0x2803, wt);
    assert(t0 =~= a0 + b0);
    Seq::filter_distributes_over_add(a0, b0, pred);
    lemma_filter_short(a0, pred);
    lemma_filter_short(b0, pred);
    assert(t0.filter(pred) =~= Seq::<GlCommandView>::empty());
    lemma_filter_short(t1, pred);
    lemma_filter_short(t2, pred);
    lemma_filter_short(t3, pred);
    lemma_filter_short(t4, pred);
    lemma_filter_short(up, pred);
    Seq::filter_distributes_over_add(t0, t1, pred);
    Seq::filter_distributes_over_add(t0 + t1, t2, pred);
    Seq::filter_distributes_over_add(t0 + t1 + t2, t3, pred);
    Seq::filter_distributes_over_add(t0 + t1 + t2 + t3, t4, pred);
    Seq::filter_distributes_over_add(t0 + t1 + t2 + t3 + t4, up, pred);
    assert(setup_parts(texture, min, mag, ws, wt) == t0 + t1 + t2 + t3 + t4);
    let pre = t0 + t1 + t2 + t3 + t4 + up;
    assert(pre.filter(pred) =~= up);
    if c != pre {
        pre.lemma_filter_push(c.last(), pred);
    }
}

/// The setup commands for texture `texture` that set the parameters to
/// `min`, `mag`, `ws` and `wt`, each if given.
spec fn setup_parts(texture: u32, min: Option<u32>, mag: Option<u32>, ws: Option<u32>, wt: Option<u32>) -> Seq<GlCommandView> {
    seq![
        GlCommandView::ActiveTexture { texture: 0x84C0 },
        GlCommandView::BindTexture { target: 0x0DE1, texture: texture },
    ] + tex_parameter_2d(0x2801, min) + tex_parameter_2d(0x2800, mag) + tex_parameter_2d(0x2802, ws)
        + tex_parameter_2d(0x2803, wt)
}

/// The commands of a build are its setup and upload, then at most one
/// command that sets no parameter; the upload sets none either.
proof fn lemma_build_parts(cfg: Texture2dConfig, texture: u32)
    ensures
        texture_2d_upload(cfg).len() <= 1,
        texture_2d_upload(cfg).len() == 1 ==> texture_2d_upload(cfg)[0] is TexImage2D,
        ({
            let pre = setup_parts(
                texture,
                configured_parameter(cfg, 0x2801),
                configured_parameter(cfg, 0x2800),
                configured_parameter(cfg, 0x2802),
                configured_parameter(cfg, 0x2803),
            ) + texture_2d_upload(cfg);
            let c = texture_2d_commands(cfg, texture);
            c == pre || (c == pre.push(c.last()) && !(c.last() is TexParameteriv) && !(c.last() is TexImage2D))
        }),
{
    assert(texture_2d_setup(cfg, texture) == setup_parts(
        texture,
        configured_parameter(cfg, 0x2801),
        configured_parameter(cfg, 0x2800),
        configured_parameter(cfg, 0x2802),
        configured_parameter(cfg, 0x2803),
    ));
    let pre = texture_2d_setup(cfg, texture) + texture_2d_upload(cfg);
    let c = texture_2d_commands(cfg, texture);
    if c != pre {
        assert(c =~= pre.push(c.last()));
    }
}

/// Filtering a sequence of at most one command keeps it if it passes.
proof fn lemma_filter_short(s: Seq<GlCommandView>, pred: spec_fn(GlCommandView) -> bool)
    requires
        s.len() <= 1,
    ensures
        s.filter(pred) == (if s.len() == 1 && pred(s[0]) { s } else { Seq::<GlCommandView>::empty() }),
{
    reveal_with_fuel(Seq::filter, 2);
    if s.len() == 1 {
        assert(s.drop_last() =~= Seq::<GlCommandView>::empty());
    }
}

/// The `pname` commands of a setup and upload, followed by at most one
/// command that sets no parameter, are those of the setup step for `pname`.
proof fn lemma_parameters_of_parts(
    texture: u32,
    min: Option<u32>,
    mag: Option<u32>,
    ws: Option<u32>,
    wt: Option<u32>,
    up: Seq<GlCommandView>,
    c: Seq<GlCommandView>,
    pname: u32,
)
    requires
        0x2800 <= pname <= 0x2803,
        up.len() <= 1,
        up.len() == 1 ==> up[0] is TexImage2D,
        ({
            let pre = setup_parts(texture, min, mag, ws, wt) + up;
            c == pre || (c == pre.push(c.last()) && !(c.last() is TexParameteriv))
        }),
    ensures
        parameter_commands(c, pname) == if pname == 0x2801 {
            tex_parameter_2d(0x2801, min)
        } else if pname == 0x2800 {
            tex_parameter_2d(0x2800, mag)
        } else if pname == 0x2802 {
            tex_parameter_2d(0x2802, ws)
        } else {
            tex_parameter_2d(0x2803, wt)
        },
{
    let pred = sets_parameter(pname);
    let a0 = seq![GlCommandView::ActiveTexture { texture: 0x84C0 }];
    let b0 = seq![GlCommandView::BindTexture { target: 0x0DE1, texture: texture }];
    let t0 = seq![
        GlCommandView::ActiveTexture { texture: 0x84C0 },
        GlCommandView::BindTexture { target: 0x0DE1, texture: texture },
    ];
    let t1 = tex_parameter_2d(0x2801, min);
    let t2 = tex_parameter_2d(0x2800, mag);
    let t3 = tex_parameter_2d(0x2802, ws);
    let t4 = tex_parameter_2d(0x2803, wt);
    assert(t0 =~= a0 + b0);
    Seq::filter_distributes_over_add(a0, b0, pred);
    lemma_filter_short(a0, pred);
    lemma_filter_short(b0, pred);
    assert(t0.filter(pred) =~= Seq::<GlCommandView>::empty());
    lemma_filter_short(t1, pred);
    lemma_filter_short(t2, pred);
    lemma_filter_short(t3, pred);
    lemma_filter_short(t4, pred);
    lemma_filter_short(up, pred);
    Seq::filter_distributes_over_add(t0, t1, pred);
    Seq::filter_distributes_over_add(t0 + t1, t2, pred);
    Seq::filter_distributes_over_add(t0 + t1 + t2, t3, pred);
    Seq::filter_distributes_over_add(t0 + t1 + t2 + t3, t4, pred);
    Seq::filter_distributes_over_add(t0 + t1 + t2 + t3 + t4, up, pred);
    assert(setup_parts(texture, min, mag, ws, wt) == t0 + t1 + t2 + t3 + t4);
    let pre = t0 + t1 + t2 + t3 + t4 + up;
    let expected = if pname == 0x2801 { t1 } else if pname == 0x2800 { t2 } else if pname == 0x2802 { t3 } else { t4 };
    assert(pre.filter(pred) =~= expected);
    if c != pre {
        pre.lemma_filter_push(c.last(), pred);
    }
}

/// The views of `cmds` after pushing `c` are their views before, then `c`'s.
proof fn lemma_views_push(cmds: Seq<GlCommand>, c: GlCommand)
    ensures
        command_views(cmds.push(c)) == command_views(cmds).push(c@),
{
    assert(command_views(cmds.push(c)) =~= command_views(cmds).push(c@));
}

/// An image held by a builder: its size, format and texel bytes.
pub struct ImageUpload {
    width: usize,
    height: usize,
    format: ImageFormat,
    bytes: Vec<u8>,
}

impl Image2d for ImageUpload {
    closed spec fn spec_width(&self) -> usize {
        self.width
    }

    closed spec fn spec_height(&self) -> usize {
        self.height
    }

    closed spec fn spec_format(&self) -> ImageFormat {
        self.format
    }

    closed spec fn spec_texel_bytes(&self) -> Seq<u8> {
        self.bytes@
    }

    fn width(&self) -> (r: usize) {
        self.width
    }

    fn height(&self) -> (r: usize) {
        self.height
    }

    fn format(&self) -> (r: ImageFormat) {
        self.format
    }

    fn texel_bytes(&self) -> (r: Vec<u8>) {
        vstd::slice::slice_to_vec(self.bytes.as_slice())
    }
}

/// Provides an interface for building a 2D texture object that is checked
/// to be complete.
pub struct Texture2dBuilder<C: TextureUnit0Context> {
    gl: C,
    min_filter: Option<TextureMipmapFilter>,
    mag_filter: Option<TextureFilter>,
    wrap_s: Option<TextureWrapMode>,
    wrap_t: Option<TextureWrapMode>,
    gen_mipmap: bool,
    image: Option<ImageUpload>,
    empty_params: Option<(ImageFormat, u32, u32)>,
}

impl<C: TextureUnit0Context> Texture2dBuilder<C> {
    /// The configuration set so far.
    pub closed spec fn spec_config(&self) -> Texture2dConfig {
        Texture2dConfig {
            min_filter: self.min_filter,
            mag_filter: self.mag_filter,
            wrap_s: self.wrap_s,
            wrap_t: self.wrap_t,
            gen_mipmap: self.gen_mipmap,
            image: image_spec(self.image),
            empty_params: self.empty_params,
        }
    }

    /// Start a builder with nothing set.
    fn new(gl: C) -> (r: Self)
        ensures
            r.spec_config() == (Texture2dConfig {
                min_filter: None,
                mag_filter: None,
                wrap_s: None,
                wrap_t: None,
                gen_mipmap: false,
                image: None,
                empty_params: None,
            }),
    {
        Texture2dBuilder {
            gl: gl,
            min_filter: None,
            mag_filter: None,
            wrap_s: None,
            wrap_t: None,
            gen_mipmap: false,
            image: None,
            empty_params: None,
        }
    }

    /// Set the 2D image data to fill the texture with.
    pub fn image_2d<I: Image2d>(self, image: &I) -> (r: Self)
        ensures
            r.spec_config() == (Texture2dConfig {
                image: Some((image.spec_width(), image.spec_height(), image.spec_format(), image.spec_texel_bytes())),
                ..self.spec_config()
            }),
    {
        let upload = ImageUpload {
            width: image.width(),
            height: image.height(),
            format: image.format(),
            bytes: image.texel_bytes(),
        };
        let mut b = self;
        b.image = Some(upload);
        b
    }

    /// Set the format and size for creating an empty texture.
    pub fn empty(self, format: ImageFormat, width: u32, height: u32) -> (r: Self)
        ensures
            r.spec_config() == (Texture2dConfig { empty_params: Some((format, width, height)), ..self.spec_config() }),
    {
        let mut b = self;
        b.empty_params = Some((format, width, height));
        b
    }

    /// Generate mipmaps for the texture.
    pub fn generate_mipmap(self) -> (r: Self)
        ensures
            r.spec_config() == (Texture2dConfig { gen_mipmap: true, ..self.spec_config() }),
    {
        let mut b = self;
        b.gen_mipmap = true;
        b
    }

    /// Set the texture's minifying filter.
    pub fn min_filter(self, filter: TextureMipmapFilter) -> (r: Self)
        ensures
            r.spec_config() == (Texture2dConfig { min_filter: Some(filter), ..self.spec_config() }),
    {
        let mut b = self;
        b.min_filter = Some(filter);
        b
    }

    /// Set the texture's magnifying filter.
    pub fn mag_filter(self, filter: TextureFilter) -> (r: Self)
        ensures
            r.spec_config() == (Texture2dConfig { mag_filter: Some(filter), ..self.spec_config() }),
    {
        let mut b = self;
        b.mag_filter = Some(filter);
        b
    }

    /// Set the texture's wrap mode for the s-coordinate.
    pub fn wrap_s(self, wrap: TextureWrapMode) -> (r: Self)
        ensures
            r.spec_config() == (Texture2dConfig { wrap_s: Some(wrap), ..self.spec_config() }),
    {
        let mut b = self;
        b.wrap_s = Some(wrap);
        b
    }

    /// Set the texture's wrap mode for the t-coordinate.
    pub fn wrap_t(self, wrap: TextureWrapMode) -> (r: Self)
        ensures
            r.spec_config() == (Texture2dConfig { wrap_t: Some(wrap), ..self.spec_config() }),
    {
        let mut b = self;
        b.wrap_t = Some(wrap);
        b
    }

    /// Build the texture `texture` (a new texture object, from
    /// `glGenTextures`) with the configuration, on texture unit 0. Returns the
    /// commands to run and the texture, or an error if:
    ///
    /// - neither an image nor an empty format was given,
    /// - the texture was set to be empty with a width or height of 0, or
    /// - mipmaps are not generated and the minifying filter samples them: a
    ///   mipmap filter, or none at all (GL's initial minifying filter,
    ///   `GL_NEAREST_MIPMAP_LINEAR`, samples mipmaps, so such a texture is
    ///   not complete).
    ///
    /// On an error the commands end by deleting `texture`.
    pub fn try_unwrap(self, texture: Texture2d) -> (r: (Vec<GlCommand>, Result<Texture2d, GLError>))
        ensures
            command_views(r.0@) == texture_2d_commands(self.spec_config(), texture.spec_id()),
            match texture_2d_error(self.spec_config()) {
                None => r.1 matches Ok(t) && t.spec_id() == texture.spec_id(),
                Some(msg) => r.1 matches Err(GLError::Message(m)) && m@ == msg,
            },
            texture_2d_outcome(self.spec_config(), texture.spec_id()) == (command_views(r.0@), texture_result_view(r.1)),
    {
        let ghost cfg = self.spec_config();
        let mut texture = texture;
        let ghost id = texture.spec_id();
        let Texture2dBuilder { gl, min_filter, mag_filter, wrap_s, wrap_t, gen_mipmap, image, empty_params } = self;
        let (gl_tex_unit, gl, active) = gl.active_texture_0();
        let (mut gl_tex, _rest, bind) = gl_tex_unit.bind_texture_2d(&mut texture);
        let mut commands = setup_commands(&gl, &mut gl_tex, active, bind, min_filter, mag_filter, wrap_s, wrap_t);
        assert(seq![active@, bind@] =~= seq![
            GlCommandView::ActiveTexture { texture: 0x84C0 },
            GlCommandView::BindTexture { target: 0x0DE1, texture: id },
        ]);
        assert(command_views(commands@) == texture_2d_setup(cfg, id));
        let ghost prefix = command_views(commands@);
        let upload = upload_command(&gl, &mut gl_tex, &image, empty_params);
        push_optional(&mut commands, upload);
        assert(command_views(commands@) == prefix + texture_2d_upload(cfg));
        match data_error_message(&image, empty_params) {
            Some(msg) => {
                let d = texture.delete();
                proof {
                    lemma_views_push(commands@, d);
                }
                commands.push(d);
                return (commands, Err(GLError::Message(msg.to_owned())));
            },
            None => {},
        }
        if gen_mipmap {
            let c = gl.generate_mipmap(&mut gl_tex);
            proof {
                lemma_views_push(commands@, c);
            }
            commands.push(c);
        } else if min_filter_uses_mipmaps(min_filter) {
            let d = texture.delete();
            proof {
                lemma_views_push(commands@, d);
            }
            commands.push(d);
            let msg = "Error building texture: texture uses a mipmap filter but does not have a mipmap";
            return (commands, Err(GLError::Message(msg.to_owned())));
        }
        (commands, Ok(texture))
    }

    /// Build the texture as [`try_unwrap`](Texture2dBuilder::try_unwrap) does:
    /// the configuration must be one on which `try_unwrap` succeeds (on the
    /// others it fails), and the commands and the texture are those that
    /// `try_unwrap` gives.
    pub fn unwrap(self, texture: Texture2d) -> (r: (Vec<GlCommand>, Texture2d))
        requires
            texture_2d_outcome(self.spec_config(), texture.spec_id()).1 is Ok,
        ensures
            texture_2d_outcome(self.spec_config(), texture.spec_id()) == (command_views(r.0@), Ok::<u32, Seq<char>>(r.1.spec_id())),
            command_views(r.0@) == texture_2d_commands(self.spec_config(), texture.spec_id()),
            r.1.spec_id() == texture.spec_id(),
    {
        let id = texture.id();
        let (commands, result) = self.try_unwrap(texture);
        match result {
            Ok(t) => (commands, t),
            Err(_) => (commands, Texture::from_raw(id)),
        }
    }
}

/// Whether the minifying filter samples mipmaps (no filter means GL's
/// initial one, which does).
fn min_filter_uses_mipmaps(min_filter: Option<TextureMipmapFilter>) -> (r: bool)
    ensures
        r == uses_mipmap_filter(min_filter),
{
    match min_filter {
        None => true,
        Some(TextureMipmapFilter::MipmapFilter { .. }) => true,
        Some(TextureMipmapFilter::Filter(_)) => false,
    }
}

/// The views of an optional command: none, or the one command.
pub open spec fn optional_views(c: Option<GlCommand>) -> Seq<GlCommandView> {
    match c {
        Some(c) => seq![c@],
        None => Seq::empty(),
    }
}

/// Push a command, if there is one.
fn push_optional(commands: &mut Vec<GlCommand>, c: Option<GlCommand>)
    ensures
        command_views(final(commands)@) == command_views(old(commands)@) + optional_views(c),
{
    match c {
        Some(c) => {
            proof {
                lemma_views_push(commands@, c);
            }
            commands.push(c);
        },
        None => {
            assert(command_views(commands@) =~= command_views(commands@) + optional_views(None));
        },
    }
}

/// The commands that make texture unit 0 active (`active`), bind the
/// texture (`bind`) and set each parameter that is given.
fn setup_commands<G: ContextTextureExt>(
    gl: &G,
    gl_tex: &mut Texture2dBinding,
    active: GlCommand,
    bind: GlCommand,
    min_filter: Option<TextureMipmapFilter>,
    mag_filter: Option<TextureFilter>,
    wrap_s: Option<TextureWrapMode>,
    wrap_t: Option<TextureWrapMode>,
) -> (r: Vec<GlCommand>)
    ensures
        command_views(r@) == seq![active@, bind@] + tex_parameter_2d(
            0x2801,
            match min_filter {
                Some(f) => Some(f.spec_gl_enum()),
                None => None,
            },
        ) + tex_parameter_2d(
            0x2800,
            match mag_filter {
                Some(f) => Some(f.spec_gl_enum()),
                None => None,
            },
        ) + tex_parameter_2d(
            0x2802,
            match wrap_s {
                Some(w) => Some(w.spec_gl_enum()),
                None => None,
            },
        ) + tex_parameter_2d(
            0x2803,
            match wrap_t {
                Some(w) => Some(w.spec_gl_enum()),
                None => None,
            },
        ),
{
    let mut commands: Vec<GlCommand> = Vec::new();
    proof {
        lemma_views_push(commands@, active);
    }
    commands.push(active);
    proof {
        lemma_views_push(commands@, bind);
    }
    commands.push(bind);
    assert(command_views(commands@) =~= seq![active@, bind@]);
    let c = match min_filter {
        Some(f) => Some(gl.set_min_filter(gl_tex, f)),
        None => None,
    };
    assert(optional_views(c) =~= tex_parameter_2d(
        0x2801,
        match min_filter {
            Some(f) => Some(f.spec_gl_enum()),
            None => None,
        },
    ));
    push_optional(&mut commands, c);
    let c = match mag_filter {
        Some(f) => Some(gl.set_mag_filter(gl_tex, f)),
        None => None,
    };
    assert(optional_views(c) =~= tex_parameter_2d(
        0x2800,
        match mag_filter {
            Some(f) => Some(f.spec_gl_enum()),
            None => None,
        },
    ));
    push_optional(&mut commands, c);
    let c = match wrap_s {
        Some(w) => Some(gl.set_wrap_s(gl_tex, w)),
        None => None,
    };
    assert(optional_views(c) =~= tex_parameter_2d(
        0x2802,
        match wrap_s {
            Some(w) => Some(w.spec_gl_enum()),
            None => None,
        },
    ));
    push_optional(&mut commands, c);
    let c = match wrap_t {
        Some(w) => Some(gl.set_wrap_t(gl_tex, w)),
        None => None,
    };
    assert(optional_views(c) =~= tex_parameter_2d(
        0x2803,
        match wrap_t {
            Some(w) => Some(w.spec_gl_enum()),
            None => None,
        },
    ));
    push_optional(&mut commands, c);
    commands
}

/// The image data of a builder as plain values.
pub open spec fn image_spec(image: Option<ImageUpload>) -> Option<(usize, usize, ImageFormat, Seq<u8>)> {
    match image {
        Some(i) => Some((i.spec_width(), i.spec_height(), i.spec_format(), i.spec_texel_bytes())),
        None => None,
    }
}

/// The command that uploads `image`, or else sets the empty image of
/// `empty_params`, if either is given.
fn upload_command<G: ContextTextureExt>(
    gl: &G,
    gl_tex: &mut Texture2dBinding,
    image: &Option<ImageUpload>,
    empty_params: Option<(ImageFormat, u32, u32)>,
) -> (r: Option<GlCommand>)
    ensures
        optional_views(r) == upload_views(image_spec(*image), empty_params),
{
    match image {
        Some(image) => {
            let c = gl.tex_image_2d(gl_tex, Tx2dImageTarget::Texture2d, 0, image);
            assert(optional_views(Some(c)) =~= upload_views(image_spec(Some(*image)), empty_params));
            Some(c)
        },
        None => match empty_params {
            Some((format, width, height)) => {
                let c = gl.tex_image_2d_empty(gl_tex, Tx2dImageTarget::Texture2d, 0, format, width, height);
                assert(optional_views(Some(c)) =~= upload_views(None, empty_params));
                Some(c)
            },
            None => {
                assert(optional_views(None) =~= upload_views(None, None));
                None
            },
        },
    }
}

/// The message of the error that missing image data, or an empty image
/// without positive dimensions, causes.
fn data_error_message(image: &Option<ImageUpload>, empty_params: Option<(ImageFormat, u32, u32)>) -> (r: Option<&'static str>)
    ensures
        match r {
            Some(m) => data_error(image_spec(*image), empty_params) == Some(m@),
            None => data_error(image_spec(*image), empty_params) is None,
        },
{
    match image {
        Some(_) => None,
        None => match empty_params {
            Some((_, width, height)) => if width > 0 && height > 0 {
                None
            } else {
                Some("Error building texture: texture must have positive dimensions")
            },
            None => Some("Error building texture: neither an image nor a format were provided"),
        },
    }
}

/// The extension trait for contexts with a free texture unit 0 that adds the
/// `build_texture_2d` method.
pub trait ContextTextureBuilderExt: TextureUnit0Context + Sized {
    /// Create a new 2D texture builder, with nothing set.
    fn build_texture_2d(self) -> (r: Texture2dBuilder<Self>)
        ensures
            r.spec_config() == (Texture2dConfig {
                min_filter: None,
                mag_filter: None,
                wrap_s: None,
                wrap_t: None,
                gen_mipmap: false,
                image: None,
                empty_params: None,
            }),
    {
        Texture2dBuilder::new(self)
    }
}

impl<C: TextureUnit0Context> ContextTextureBuilderExt for C {
}

} // verus!
