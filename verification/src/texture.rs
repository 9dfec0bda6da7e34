//! OpenGL texture objects and the enums that describe textures.

use vstd::prelude::*;
use std::marker::PhantomData;
use crate::command::GlCommand;
use crate::types::GLObject;
use crate::gl_consts::{gl_clamp_to_edge, gl_mirrored_repeat, gl_repeat, gl_texture_cube_map_negative_x, gl_texture_cube_map_negative_y, gl_texture_cube_map_negative_z, gl_texture_cube_map_positive_x, gl_texture_cube_map_positive_y, gl_texture_cube_map_positive_z, gl_texture_2d, gl_texture_cube_map, gl_nearest, gl_linear, gl_nearest_mipmap_nearest, gl_linear_mipmap_nearest, gl_nearest_mipmap_linear, gl_linear_mipmap_linear};

verus! {

/// An OpenGL texture object. The type parameter tells, at the type level,
/// what kind of image data the texture holds (see
/// [`TextureType`](trait.TextureType.html)).
pub struct Texture<T: TextureType> {
    gl_id: u32,
    phantom: PhantomData<T>,
}

/// An OpenGL texture with 2-dimensional image data.
pub type Texture2d = Texture<Tx2d>;

/// An OpenGL texture made up of six 2-dimensional images, one for each face
/// of a cube.
pub type TextureCubeMap = Texture<TxCubeMap>;

impl<T: TextureType> GLObject for Texture<T> {
    type Id = u32;

    closed spec fn spec_id(&self) -> u32 {
        self.gl_id
    }

    fn from_raw(id: u32) -> (r: Self) {
        Texture { gl_id: id, phantom: PhantomData }
    }

    fn id(&self) -> (r: u32) {
        self.gl_id
    }
}

impl<T: TextureType> Texture<T> {
    /// The command that deletes the object; OpenGL frees the object's
    /// resources once it runs.
    pub fn delete(self) -> (c: GlCommand)
        ensures
            c == (GlCommand::DeleteTexture { texture: self.spec_id() }),
    {
        GlCommand::DeleteTexture { texture: self.gl_id }
    }
}

/// A type that stands for the 2D images that make up one kind of texture.
pub trait ImageTargetType {
    /// The raw OpenGL value of the image target.
    spec fn spec_image_target(&self) -> u32;

    /// Get the raw OpenGL enum value for an image target.
    fn gl_enum(&self) -> (r: u32)
        ensures
            r == self.spec_image_target(),
    ;
}

/// A type that stands for a kind of texture (such as 2D textures or cube map
/// textures).
pub trait TextureType {
    /// The type of the 2D images that make up this kind of texture.
    type ImageTargetType: ImageTargetType;

    /// The binding target of this kind of texture.
    spec fn spec_target() -> TextureBindingTarget;

    /// The actual variant that represents this type of texture.
    fn target() -> (r: TextureBindingTarget)
        ensures
            r == Self::spec_target(),
    ;
}

/// The [`TextureType`](trait.TextureType.html) for 2-dimensional textures.
pub struct Tx2d;

/// The possible image targets for `GL_TEXTURE_2D` (only one variant, since
/// this *is* the 2D texture).
#[derive(Debug, Clone, Copy, PartialEq, Eq, Structural)]
pub enum Tx2dImageTarget {
    /// The only possible target for a 2-dimensional texture.
    Texture2d,
}

impl ImageTargetType for Tx2dImageTarget {
    open spec fn spec_image_target(&self) -> u32 {
        0x0DE1
    }

    fn gl_enum(&self) -> (r: u32) {
        gl_texture_2d()
    }
}

impl TextureType for Tx2d {
    type ImageTargetType = Tx2dImageTarget;

    open spec fn spec_target() -> TextureBindingTarget {
        TextureBindingTarget::Texture2d
    }

    fn target() -> (r: TextureBindingTarget) {
        TextureBindingTarget::Texture2d
    }
}

/// The [`TextureType`](trait.TextureType.html) for cubemap textures.
pub struct TxCubeMap;

impl ImageTargetType for TxCubeMapImageTarget {
    open spec fn spec_image_target(&self) -> u32 {
        self.spec_gl_enum()
    }

    fn gl_enum(&self) -> (r: u32) {
        TxCubeMapImageTarget::gl_enum(self)
    }
}

impl TextureType for TxCubeMap {
    type ImageTargetType = TxCubeMapImageTarget;

    open spec fn spec_target() -> TextureBindingTarget {
        TextureBindingTarget::TextureCubeMap
    }

    fn target() -> (r: TextureBindingTarget) {
        TextureBindingTarget::TextureCubeMap
    }
}

/// The possible 2D image targets for a cubemap texture.
#[derive(Debug, Clone, Copy, PartialEq, Eq, Hash, Structural)]
pub enum TxCubeMapImageTarget {
    /// The positive-X image target face of a cubemap.
    CubeMapPositiveX,
    /// The negative-X image target face of a cubemap.
    CubeMapNegativeX,
    /// The positive-Y image target face of a cubemap.
    CubeMapPositiveY,
    /// The negative-Y image target face of a cubemap.
    CubeMapNegativeY,
    /// The positive-Z image target face of a cubemap.
    CubeMapPositiveZ,
    /// The negative-Z image target face of a cubemap.
    CubeMapNegativeZ,
}

/// The `TxCubeMapImageTarget::CubeMapPositiveX` variant, named as the OpenGL constant `GL_TEXTURE_CUBE_MAP_POSITIVE_X`.
pub const TEXTURE_CUBE_MAP_POSITIVE_X: TxCubeMapImageTarget = TxCubeMapImageTarget::CubeMapPositiveX;

/// The `TxCubeMapImageTarget::CubeMapNegativeX` variant, named as the OpenGL constant `GL_TEXTURE_CUBE_MAP_NEGATIVE_X`.
pub const TEXTURE_CUBE_MAP_NEGATIVE_X: TxCubeMapImageTarget = TxCubeMapImageTarget::CubeMapNegativeX;

/// The `TxCubeMapImageTarget::CubeMapPositiveY` variant, named as the OpenGL constant `GL_TEXTURE_CUBE_MAP_POSITIVE_Y`.
pub const TEXTURE_CUBE_MAP_POSITIVE_Y: TxCubeMapImageTarget = TxCubeMapImageTarget::CubeMapPositiveY;

/// The `TxCubeMapImageTarget::CubeMapNegativeY` variant, named as the OpenGL constant `GL_TEXTURE_CUBE_MAP_NEGATIVE_Y`.
pub const TEXTURE_CUBE_MAP_NEGATIVE_Y: TxCubeMapImageTarget = TxCubeMapImageTarget::CubeMapNegativeY;

/// The `TxCubeMapImageTarget::CubeMapPositiveZ` variant, named as the OpenGL constant `GL_TEXTURE_CUBE_MAP_POSITIVE_Z`.
pub const TEXTURE_CUBE_MAP_POSITIVE_Z: TxCubeMapImageTarget = TxCubeMapImageTarget::CubeMapPositiveZ;

/// The `TxCubeMapImageTarget::CubeMapNegativeZ` variant, named as the OpenGL constant `GL_TEXTURE_CUBE_MAP_NEGATIVE_Z`.
pub const TEXTURE_CUBE_MAP_NEGATIVE_Z: TxCubeMapImageTarget = TxCubeMapImageTarget::CubeMapNegativeZ;

impl TxCubeMapImageTarget {
    /// Each variant's raw value is the OpenGL registry's value of the
    /// constant that the variant is named after (the value that the
    /// matching `gl_consts` wrapper returns), so no two variants trade places.
    pub proof fn lemma_registry_values()
        ensures
            (TxCubeMapImageTarget::CubeMapPositiveX).spec_gl_enum() == 0x8515,
            (TxCubeMapImageTarget::CubeMapNegativeX).spec_gl_enum() == 0x8516,
            (TxCubeMapImageTarget::CubeMapPositiveY).spec_gl_enum() == 0x8517,
            (TxCubeMapImageTarget::CubeMapNegativeY).spec_gl_enum() == 0x8518,
            (TxCubeMapImageTarget::CubeMapPositiveZ).spec_gl_enum() == 0x8519,
            (TxCubeMapImageTarget::CubeMapNegativeZ).spec_gl_enum() == 0x851A,
    {
    }

    /// The raw OpenGL value of each variant.
    pub open spec fn spec_gl_enum(self) -> u32 {
        match self {
            TxCubeMapImageTarget::CubeMapPositiveX => 0x8515,
            TxCubeMapImageTarget::CubeMapNegativeX => 0x8516,
            TxCubeMapImageTarget::CubeMapPositiveY => 0x8517,
            TxCubeMapImageTarget::CubeMapNegativeY => 0x8518,
            TxCubeMapImageTarget::CubeMapPositiveZ => 0x8519,
            TxCubeMapImageTarget::CubeMapNegativeZ => 0x851A,
        }
    }

    /// The variant whose raw OpenGL value is `value`, if there is one.
    pub open spec fn spec_from_gl(value: u32) -> Result<TxCubeMapImageTarget, ()> {
        if value == 0x8515 {
            Ok(TxCubeMapImageTarget::CubeMapPositiveX)
        } else if value == 0x8516 {
            Ok(TxCubeMapImageTarget::CubeMapNegativeX)
        } else if value == 0x8517 {
            Ok(TxCubeMapImageTarget::CubeMapPositiveY)
        } else if value == 0x8518 {
            Ok(TxCubeMapImageTarget::CubeMapNegativeY)
        } else if value == 0x8519 {
            Ok(TxCubeMapImageTarget::CubeMapPositiveZ)
        } else if value == 0x851A {
            Ok(TxCubeMapImageTarget::CubeMapNegativeZ)
        } else {
            Err(())
        }
    }

    /// Convert from a raw OpenGL integer value to an enum variant.
    /// Returns an error if the value is not a valid enum variant.
    pub fn from_gl(gl_enum: u32) -> (r: Result<Self, ()>)
        ensures
            r == Self::spec_from_gl(gl_enum),
    {
        if gl_enum == gl_texture_cube_map_positive_x() {
            Ok(TxCubeMapImageTarget::CubeMapPositiveX)
        } else if gl_enum == gl_texture_cube_map_negative_x() {
            Ok(TxCubeMapImageTarget::CubeMapNegativeX)
        } else if gl_enum == gl_texture_cube_map_positive_y() {
            Ok(TxCubeMapImageTarget::CubeMapPositiveY)
        } else if gl_enum == gl_texture_cube_map_negative_y() {
            Ok(TxCubeMapImageTarget::CubeMapNegativeY)
        } else if gl_enum == gl_texture_cube_map_positive_z() {
            Ok(TxCubeMapImageTarget::CubeMapPositiveZ)
        } else if gl_enum == gl_texture_cube_map_negative_z() {
            Ok(TxCubeMapImageTarget::CubeMapNegativeZ)
        } else {
            Err(())
        }
    }

    /// Return the OpenGL integer value for a given enum variant.
    pub fn gl_enum(&self) -> (r: u32)
        ensures
            r == self.spec_gl_enum(),
    {
        match *self {
            TxCubeMapImageTarget::CubeMapPositiveX => gl_texture_cube_map_positive_x(),
            TxCubeMapImageTarget::CubeMapNegativeX => gl_texture_cube_map_negative_x(),
            TxCubeMapImageTarget::CubeMapPositiveY => gl_texture_cube_map_positive_y(),
            TxCubeMapImageTarget::CubeMapNegativeY => gl_texture_cube_map_negative_y(),
            TxCubeMapImageTarget::CubeMapPositiveZ => gl_texture_cube_map_positive_z(),
            TxCubeMapImageTarget::CubeMapNegativeZ => gl_texture_cube_map_negative_z(),
        }
    }

    /// Converting a variant to its raw value and back gives the same
    /// variant, and a raw value that converts to a variant is that
    /// variant's raw value.
    pub proof fn lemma_gl_enum_round_trip(x: Self, value: u32)
        ensures
            Self::spec_from_gl(x.spec_gl_enum()) == Ok::<Self, ()>(x),
            Self::spec_from_gl(value) matches Ok(y) ==> y.spec_gl_enum() == value,
    {
    }
}

/// Represents all of the possible types of OpenGL textures.
#[derive(Debug, Clone, Copy, PartialEq, Eq, Structural)]
pub enum TextureBindingTarget {
    /// A 2-dimensional texture.
    Texture2d,
    /// A cubemap texture, made up of six 2-dimensional images.
    TextureCubeMap,
}

impl TextureBindingTarget {
    /// Each variant's raw value is the OpenGL registry's value of the
    /// constant that the variant is named after (the value that the
    /// matching `gl_consts` wrapper returns), so no two variants trade places.
    pub proof fn lemma_registry_values()
        ensures
            (TextureBindingTarget::Texture2d).spec_gl_enum() == 0x0DE1,
            (TextureBindingTarget::TextureCubeMap).spec_gl_enum() == 0x8513,
    {
    }

    /// The raw OpenGL value of each variant.
    pub open spec fn spec_gl_enum(self) -> u32 {
        match self {
            TextureBindingTarget::Texture2d => 0x0DE1,
            TextureBindingTarget::TextureCubeMap => 0x8513,
        }
    }

    /// Convert a `TextureBindingTarget` into a raw OpenGL enum value.
    pub fn gl_enum(&self) -> (r: u32)
        ensures
            r == self.spec_gl_enum(),
    {
        match *self {
            TextureBindingTarget::Texture2d => gl_texture_2d(),
            TextureBindingTarget::TextureCubeMap => gl_texture_cube_map(),
        }
    }
}

/// A unit type whose only value, [`TEXTURE_2D`](constant.TEXTURE_2D.html),
/// converts into both [`TextureBindingTarget::Texture2d`] and
/// [`Tx2dImageTarget::Texture2d`], as `GL_TEXTURE_2D` names both in OpenGL.
#[derive(Debug, Clone, Copy)]
pub struct VariantTexture2d;

impl From<VariantTexture2d> for TextureBindingTarget {
    fn from(v: VariantTexture2d) -> (r: TextureBindingTarget)
        ensures
            r == TextureBindingTarget::Texture2d,
    {
        TextureBindingTarget::Texture2d
    }
}

impl vstd::std_specs::convert::FromSpecImpl<VariantTexture2d> for TextureBindingTarget {
    open spec fn obeys_from_spec() -> bool {
        true
    }

    open spec fn from_spec(v: VariantTexture2d) -> TextureBindingTarget {
        TextureBindingTarget::Texture2d
    }
}

impl From<VariantTexture2d> for Tx2dImageTarget {
    fn from(v: VariantTexture2d) -> (r: Tx2dImageTarget)
        ensures
            r == Tx2dImageTarget::Texture2d,
    {
        Tx2dImageTarget::Texture2d
    }
}

impl vstd::std_specs::convert::FromSpecImpl<VariantTexture2d> for Tx2dImageTarget {
    open spec fn obeys_from_spec() -> bool {
        true
    }

    open spec fn from_spec(v: VariantTexture2d) -> Tx2dImageTarget {
        Tx2dImageTarget::Texture2d
    }
}

impl ImageTargetType for VariantTexture2d {
    open spec fn spec_image_target(&self) -> u32 {
        0x0DE1
    }

    fn gl_enum(&self) -> (r: u32) {
        gl_texture_2d()
    }
}

/// This constant is designed to be used wherever the constant
/// `GL_TEXTURE_CUBE_MAP` is used in plain OpenGL code.
pub const TEXTURE_CUBE_MAP: TextureBindingTarget = TextureBindingTarget::TextureCubeMap;

/// This constant is designed to be used wherever the constant `GL_TEXTURE_2D`
/// is used in plain OpenGL code.
pub const TEXTURE_2D: VariantTexture2d = VariantTexture2d;

/// The different forms of texture filtering, which determine how a texture
/// is sampled when drawn.
#[derive(Debug, Clone, Copy, PartialEq, Eq, Structural)]
pub enum TextureFilter {
    /// Return the texel that is nearest to the center of the pixel.
    Nearest,
    /// Return a weighted average of the four texels nearest to the center of
    /// the pixel.
    Linear,
}

/// The different forms of texture filtering when using mipmaps.
#[derive(Debug, Clone, Copy, PartialEq, Eq, Structural)]
pub enum TextureMipmapFilter {
    /// Ignore mipmap values, and texture a pixel using a standard
    /// [`TextureFilter`](enum.TextureFilter.html).
    Filter(TextureFilter),
    /// Select the two mipmaps that are closest to the size of the pixel being
    /// filled, and sample each one according to `criterion`; the result is
    /// then chosen among the mipmaps according to `mipmap`.
    MipmapFilter {
        /// The method to use to select the texels from a mipmap.
        criterion: TextureFilter,
        /// The method to use to select the mipmaps.
        mipmap: TextureFilter,
    },
}

/// Select the texel that is closest to the center of the pixel.
pub const NEAREST: TextureFilter = TextureFilter::Nearest;

/// Take the weighted average of the four texels closest to the center of the
/// pixel.
pub const LINEAR: TextureFilter = TextureFilter::Linear;

impl TextureFilter {
    /// Each variant's raw value is the OpenGL registry's value of the
    /// constant that the variant is named after (the value that the
    /// matching `gl_consts` wrapper returns), so no two variants trade places.
    pub proof fn lemma_registry_values()
        ensures
            (TextureFilter::Nearest).spec_gl_enum() == 0x2600,
            (TextureFilter::Linear).spec_gl_enum() == 0x2601,
    {
    }

    /// The raw OpenGL value of each filter.
    pub open spec fn spec_gl_enum(self) -> u32 {
        match self {
            TextureFilter::Nearest => 0x2600,
            TextureFilter::Linear => 0x2601,
        }
    }

    /// The filter whose raw OpenGL value is `value`, if there is one.
    pub open spec fn spec_from_gl(value: u32) -> Result<TextureFilter, ()> {
        if value == 0x2600 {
            Ok(TextureFilter::Nearest)
        } else if value == 0x2601 {
            Ok(TextureFilter::Linear)
        } else {
            Err(())
        }
    }

    /// Convert a raw OpenGL value into a filter, or fail if the value names
    /// no filter.
    pub fn from_gl(gl_enum: u32) -> (r: Result<Self, ()>)
        ensures
            r == Self::spec_from_gl(gl_enum),
    {
        if gl_enum == gl_nearest() {
            Ok(NEAREST)
        } else if gl_enum == gl_linear() {
            Ok(LINEAR)
        } else {
            Err(())
        }
    }

    /// Convert a `TextureFilter` into a raw OpenGL enum value
    pub fn gl_enum(&self) -> (r: u32)
        ensures
            r == self.spec_gl_enum(),
    {
        match *self {
            TextureFilter::Nearest => gl_nearest(),
            TextureFilter::Linear => gl_linear(),
        }
    }

    /// Converting a filter to its raw value and back gives the same filter,
    /// and a raw value that converts to a filter is that filter's raw value.
    pub proof fn lemma_gl_enum_round_trip(x: Self, value: u32)
        ensures
            Self::spec_from_gl(x.spec_gl_enum()) == Ok::<Self, ()>(x),
            Self::spec_from_gl(value) matches Ok(y) ==> y.spec_gl_enum() == value,
    {
    }
}

impl TextureMipmapFilter {
    /// Each filter's raw value is the OpenGL registry's value of the
    /// constant that the filter is named after (the value that the
    /// matching `gl_consts` wrapper returns), so no two filters trade places.
    pub proof fn lemma_registry_values()
        ensures
            (TextureMipmapFilter::Filter(TextureFilter::Nearest)).spec_gl_enum() == 0x2600,
            (TextureMipmapFilter::Filter(TextureFilter::Linear)).spec_gl_enum() == 0x2601,
            (TextureMipmapFilter::MipmapFilter { criterion: TextureFilter::Nearest, mipmap: TextureFilter::Nearest }).spec_gl_enum() == 0x2700,
            (TextureMipmapFilter::MipmapFilter { criterion: TextureFilter::Linear, mipmap: TextureFilter::Nearest }).spec_gl_enum() == 0x2701,
            (TextureMipmapFilter::MipmapFilter { criterion: TextureFilter::Nearest, mipmap: TextureFilter::Linear }).spec_gl_enum() == 0x2702,
            (TextureMipmapFilter::MipmapFilter { criterion: TextureFilter::Linear, mipmap: TextureFilter::Linear }).spec_gl_enum() == 0x2703,
    {
    }

    /// Select the mipmap that is nearest in size to the pixel, and the texel
    /// closest to the center of the pixel (`GL_NEAREST_MIPMAP_NEAREST`).
    pub fn nearest_mipmap_nearest() -> (r: Self)
        ensures
            r == (TextureMipmapFilter::MipmapFilter { criterion: TextureFilter::Nearest, mipmap: TextureFilter::Nearest }),
    {
        TextureMipmapFilter::MipmapFilter { criterion: TextureFilter::Nearest, mipmap: TextureFilter::Nearest }
    }

    /// Select the mipmap that is nearest in size to the pixel, and average
    /// the four texels closest to the center of the pixel
    /// (`GL_LINEAR_MIPMAP_NEAREST`).
    pub fn linear_mipmap_nearest() -> (r: Self)
        ensures
            r == (TextureMipmapFilter::MipmapFilter { criterion: TextureFilter::Linear, mipmap: TextureFilter::Nearest }),
    {
        TextureMipmapFilter::MipmapFilter { criterion: TextureFilter::Linear, mipmap: TextureFilter::Nearest }
    }

    /// Select the two mipmaps nearest in size to the pixel, take the texel
    /// closest to the center of the pixel in each, and average the two
    /// (`GL_NEAREST_MIPMAP_LINEAR`).
    pub fn nearest_mipmap_linear() -> (r: Self)
        ensures
            r == (TextureMipmapFilter::MipmapFilter { criterion: TextureFilter::Nearest, mipmap: TextureFilter::Linear }),
    {
        TextureMipmapFilter::MipmapFilter { criterion: TextureFilter::Nearest, mipmap: TextureFilter::Linear }
    }

    /// Select the two mipmaps nearest in size to the pixel, average the four
    /// texels closest to the center of the pixel in each, and average the two
    /// results (`GL_LINEAR_MIPMAP_LINEAR`).
    pub fn linear_mipmap_linear() -> (r: Self)
        ensures
            r == (TextureMipmapFilter::MipmapFilter { criterion: TextureFilter::Linear, mipmap: TextureFilter::Linear }),
    {
        TextureMipmapFilter::MipmapFilter { criterion: TextureFilter::Linear, mipmap: TextureFilter::Linear }
    }

    /// The raw OpenGL value of each filter.
    pub open spec fn spec_gl_enum(self) -> u32 {
        match self {
            TextureMipmapFilter::Filter(TextureFilter::Linear) => 0x2601,
            TextureMipmapFilter::Filter(TextureFilter::Nearest) => 0x2600,
            TextureMipmapFilter::MipmapFilter { criterion: TextureFilter::Nearest, mipmap: TextureFilter::Nearest } => 0x2700,
            TextureMipmapFilter::MipmapFilter { criterion: TextureFilter::Linear, mipmap: TextureFilter::Nearest } => 0x2701,
            TextureMipmapFilter::MipmapFilter { criterion: TextureFilter::Nearest, mipmap: TextureFilter::Linear } => 0x2702,
            TextureMipmapFilter::MipmapFilter { criterion: TextureFilter::Linear, mipmap: TextureFilter::Linear } => 0x2703,
        }
    }

    /// The filter whose raw OpenGL value is `value`, if there is one.
    pub open spec fn spec_from_gl(value: u32) -> Result<TextureMipmapFilter, ()> {
        if value == 0x2600 {
            Ok(TextureMipmapFilter::Filter(TextureFilter::Nearest))
        } else if value == 0x2601 {
            Ok(TextureMipmapFilter::Filter(TextureFilter::Linear))
        } else if value == 0x2700 {
            Ok(TextureMipmapFilter::MipmapFilter { criterion: TextureFilter::Nearest, mipmap: TextureFilter::Nearest })
        } else if value == 0x2701 {
            Ok(TextureMipmapFilter::MipmapFilter { criterion: TextureFilter::Linear, mipmap: TextureFilter::Nearest })
        } else if value == 0x2702 {
            Ok(TextureMipmapFilter::MipmapFilter { criterion: TextureFilter::Nearest, mipmap: TextureFilter::Linear })
        } else if value == 0x2703 {
            Ok(TextureMipmapFilter::MipmapFilter { criterion: TextureFilter::Linear, mipmap: TextureFilter::Linear })
        } else {
            Err(())
        }
    }

    /// Convert a raw OpenGL value into a filter, or fail if the value names
    /// no filter.
    pub fn from_gl(gl_enum: u32) -> (r: Result<Self, ()>)
        ensures
            r == Self::spec_from_gl(gl_enum),
    {
        if gl_enum == gl_nearest() {
            Ok(TextureMipmapFilter::Filter(NEAREST))
        } else if gl_enum == gl_linear() {
            Ok(TextureMipmapFilter::Filter(LINEAR))
        } else if gl_enum == gl_nearest_mipmap_nearest() {
            Ok(Self::nearest_mipmap_nearest())
        } else if gl_enum == gl_linear_mipmap_nearest() {
            Ok(Self::linear_mipmap_nearest())
        } else if gl_enum == gl_nearest_mipmap_linear() {
            Ok(Self::nearest_mipmap_linear())
        } else if gl_enum == gl_linear_mipmap_linear() {
            Ok(Self::linear_mipmap_linear())
        } else {
            Err(())
        }
    }

    /// Convert a `TextureMipmapFilter` into a raw OpenGL enum value
    pub fn gl_enum(&self) -> (r: u32)
        ensures
            r == self.spec_gl_enum(),
    {
        match *self {
            TextureMipmapFilter::Filter(TextureFilter::Linear) => gl_linear(),
            TextureMipmapFilter::Filter(TextureFilter::Nearest) => gl_nearest(),
            TextureMipmapFilter::MipmapFilter { criterion: TextureFilter::Nearest, mipmap: TextureFilter::Nearest } => gl_nearest_mipmap_nearest(),
            TextureMipmapFilter::MipmapFilter { criterion: TextureFilter::Linear, mipmap: TextureFilter::Nearest } => gl_linear_mipmap_nearest(),
            TextureMipmapFilter::MipmapFilter { criterion: TextureFilter::Nearest, mipmap: TextureFilter::Linear } => gl_nearest_mipmap_linear(),
            TextureMipmapFilter::MipmapFilter { criterion: TextureFilter::Linear, mipmap: TextureFilter::Linear } => gl_linear_mipmap_linear(),
        }
    }

    /// Converting a filter to its raw value and back gives the same filter,
    /// and a raw value that converts to a filter is that filter's raw value.
    pub proof fn lemma_gl_enum_round_trip(x: Self, value: u32)
        ensures
            Self::spec_from_gl(x.spec_gl_enum()) == Ok::<Self, ()>(x),
            Self::spec_from_gl(value) matches Ok(y) ==> y.spec_gl_enum() == value,
    {
    }
}

impl From<TextureFilter> for TextureMipmapFilter {
    fn from(filter: TextureFilter) -> (r: TextureMipmapFilter)
        ensures
            r == TextureMipmapFilter::Filter(filter),
    {
        TextureMipmapFilter::Filter(filter)
    }
}

impl vstd::std_specs::convert::FromSpecImpl<TextureFilter> for TextureMipmapFilter {
    open spec fn obeys_from_spec() -> bool {
        true
    }

    open spec fn from_spec(filter: TextureFilter) -> TextureMipmapFilter {
        TextureMipmapFilter::Filter(filter)
    }
}

/// A filter used as a minifying filter keeps its raw OpenGL value: the
/// plain filter `f` and `TextureMipmapFilter::from(f)` set the same
/// `GL_TEXTURE_MIN_FILTER` value.
pub proof fn lemma_from_filter_keeps_gl_enum(filter: TextureFilter)
    ensures
        TextureMipmapFilter::Filter(filter).spec_gl_enum() == filter.spec_gl_enum(),
{
}

/// The wrapping modes when drawing a texture.
#[derive(Debug, Clone, Copy, PartialEq, Eq, Hash, Structural)]
pub enum TextureWrapMode {
    /// Wrap a texture by clamping it within the range `[1/2x, 1 - 1/2x]`.
    ClampToEdge,
    /// Wrap a texture by repeating it front-to-back, then back-to-front.
    MirroredRepeat,
    /// Wrap a texture by repeating it over and over again.
    Repeat,
}

/// The `TextureWrapMode::ClampToEdge` variant, named as the OpenGL constant `GL_CLAMP_TO_EDGE`.
pub const CLAMP_TO_EDGE: TextureWrapMode = TextureWrapMode::ClampToEdge;

/// The `TextureWrapMode::MirroredRepeat` variant, named as the OpenGL constant `GL_MIRRORED_REPEAT`.
pub const MIRRORED_REPEAT: TextureWrapMode = TextureWrapMode::MirroredRepeat;

/// The `TextureWrapMode::Repeat` variant, named as the OpenGL constant `GL_REPEAT`.
pub const REPEAT: TextureWrapMode = TextureWrapMode::Repeat;

impl TextureWrapMode {
    /// Each variant's raw value is the OpenGL registry's value of the
    /// constant that the variant is named after (the value that the
    /// matching `gl_consts` wrapper returns), so no two variants trade places.
    pub proof fn lemma_registry_values()
        ensures
            (TextureWrapMode::ClampToEdge).spec_gl_enum() == 0x812F,
            (TextureWrapMode::MirroredRepeat).spec_gl_enum() == 0x8370,
            (TextureWrapMode::Repeat).spec_gl_enum() == 0x2901,
    {
    }

    /// The raw OpenGL value of each variant.
    pub open spec fn spec_gl_enum(self) -> u32 {
        match self {
            TextureWrapMode::ClampToEdge => 0x812F,
            TextureWrapMode::MirroredRepeat => 0x8370,
            TextureWrapMode::Repeat => 0x2901,
        }
    }

    /// The variant whose raw OpenGL value is `value`, if there is one.
    pub open spec fn spec_from_gl(value: u32) -> Result<TextureWrapMode, ()> {
        if value == 0x812F {
            Ok(TextureWrapMode::ClampToEdge)
        } else if value == 0x8370 {
            Ok(TextureWrapMode::MirroredRepeat)
        } else if value == 0x2901 {
            Ok(TextureWrapMode::Repeat)
        } else {
            Err(())
        }
    }

    /// Convert from a raw OpenGL integer value to an enum variant.
    /// Returns an error if the value is not a valid enum variant.
    pub fn from_gl(gl_enum: u32) -> (r: Result<Self, ()>)
        ensures
            r == Self::spec_from_gl(gl_enum),
    {
        if gl_enum == gl_clamp_to_edge() {
            Ok(TextureWrapMode::ClampToEdge)
        } else if gl_enum == gl_mirrored_repeat() {
            Ok(TextureWrapMode::MirroredRepeat)
        } else if gl_enum == gl_repeat() {
            Ok(TextureWrapMode::Repeat)
        } else {
            Err(())
        }
    }

    /// Return the OpenGL integer value for a given enum variant.
    pub fn gl_enum(&self) -> (r: u32)
        ensures
            r == self.spec_gl_enum(),
    {
        match *self {
            TextureWrapMode::ClampToEdge => gl_clamp_to_edge(),
            TextureWrapMode::MirroredRepeat => gl_mirrored_repeat(),
            TextureWrapMode::Repeat => gl_repeat(),
        }
    }

    /// Converting a variant to its raw value and back gives the same
    /// variant, and a raw value that converts to a variant is that
    /// variant's raw value.
    pub proof fn lemma_gl_enum_round_trip(x: Self, value: u32)
        ensures
            Self::spec_from_gl(x.spec_gl_enum()) == Ok::<Self, ()>(x),
            Self::spec_from_gl(value) matches Ok(y) ==> y.spec_gl_enum() == value,
    {
    }
}

/// Each image target that a texture upload names is the OpenGL registry's
/// value of its constant: `GL_TEXTURE_2D` for a 2D texture, and
/// `GL_TEXTURE_CUBE_MAP_POSITIVE_X` (0x8515) through
/// `GL_TEXTURE_CUBE_MAP_NEGATIVE_Z` (0x851A), in the order +X, -X, +Y, -Y,
/// +Z, -Z, for the faces of a cube map.
pub proof fn lemma_image_target_registry_values()
    ensures
        Tx2dImageTarget::Texture2d.spec_image_target() == 0x0DE1,
        VariantTexture2d.spec_image_target() == 0x0DE1,
        TxCubeMapImageTarget::CubeMapPositiveX.spec_image_target() == 0x8515,
        TxCubeMapImageTarget::CubeMapNegativeX.spec_image_target() == 0x8516,
        TxCubeMapImageTarget::CubeMapPositiveY.spec_image_target() == 0x8517,
        TxCubeMapImageTarget::CubeMapNegativeY.spec_image_target() == 0x8518,
        TxCubeMapImageTarget::CubeMapPositiveZ.spec_image_target() == 0x8519,
        TxCubeMapImageTarget::CubeMapNegativeZ.spec_image_target() == 0x851A,
{
}

} // verus!
