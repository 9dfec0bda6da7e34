//! OpenGL buffer objects.

use vstd::prelude::*;
use crate::command::GlCommand;
use crate::types::GLObject;
use crate::gl_consts::{gl_array_buffer, gl_dynamic_draw, gl_element_array_buffer, gl_static_draw, gl_stream_draw};

verus! {

/// An OpenGL buffer object.
pub struct Buffer {
    gl_id: u32,
}

impl GLObject for Buffer {
    type Id = u32;

    closed spec fn spec_id(&self) -> u32 {
        self.gl_id
    }

    fn from_raw(id: u32) -> (r: Self) {
        Buffer { gl_id: id }
    }

    fn id(&self) -> (r: u32) {
        self.gl_id
    }
}

impl Buffer {
    /// The command that deletes the object; OpenGL frees the object's
    /// resources once it runs.
    pub fn delete(self) -> (c: GlCommand)
        ensures
            c == (GlCommand::DeleteBuffer { buffer: self.spec_id() }),
    {
        GlCommand::DeleteBuffer { buffer: self.gl_id }
    }
}

/// The expected usage pattern of a buffer's data store.
#[derive(Debug, Clone, Copy, PartialEq, Eq, Hash, Structural)]
pub enum BufferDataUsage {
    /// The data is set once and used at most a few times.
    StreamDraw,
    /// The data is set once and used many times.
    StaticDraw,
    /// The data is set repeatedly and used many times.
    DynamicDraw,
}

/// The `BufferDataUsage::StreamDraw` variant, named as the OpenGL constant `GL_STREAM_DRAW`.
pub const STREAM_DRAW: BufferDataUsage = BufferDataUsage::StreamDraw;

/// The `BufferDataUsage::StaticDraw` variant, named as the OpenGL constant `GL_STATIC_DRAW`.
pub const STATIC_DRAW: BufferDataUsage = BufferDataUsage::StaticDraw;

/// The `BufferDataUsage::DynamicDraw` variant, named as the OpenGL constant `GL_DYNAMIC_DRAW`.
pub const DYNAMIC_DRAW: BufferDataUsage = BufferDataUsage::DynamicDraw;

impl BufferDataUsage {
    /// Each variant's raw value is the OpenGL registry's value of the
    /// constant that the variant is named after (the value that the
    /// matching `gl_consts` wrapper returns), so no two variants trade places.
    pub proof fn lemma_registry_values()
        ensures
            (BufferDataUsage::StreamDraw).spec_gl_enum() == 0x88E0,
            (BufferDataUsage::StaticDraw).spec_gl_enum() == 0x88E4,
            (BufferDataUsage::DynamicDraw).spec_gl_enum() == 0x88E8,
    {
    }

    /// The raw OpenGL value of each variant.
    pub open spec fn spec_gl_enum(self) -> u32 {
        match self {
            BufferDataUsage::StreamDraw => 0x88E0,
            BufferDataUsage::StaticDraw => 0x88E4,
            BufferDataUsage::DynamicDraw => 0x88E8,
        }
    }

    /// The variant whose raw OpenGL value is `value`, if there is one.
    pub open spec fn spec_from_gl(value: u32) -> Result<BufferDataUsage, ()> {
        if value == 0x88E0 {
            Ok(BufferDataUsage::StreamDraw)
        } else if value == 0x88E4 {
            Ok(BufferDataUsage::StaticDraw)
        } else if value == 0x88E8 {
            Ok(BufferDataUsage::DynamicDraw)
        } else {
            Err(())
        }
    }

    /// Convert from a raw OpenGL integer value to an enum variant.
    /// Returns an error if the value is not a valid enum variant.
    pub fn from_gl(gl_enum: u32) -> (r: Result<Self, ()>)
        ensures
            r == Self::spec_from_gl(gl_enum),
    {
        if gl_enum == gl_stream_draw() {
            Ok(BufferDataUsage::StreamDraw)
        } else if gl_enum == gl_static_draw() {
            Ok(BufferDataUsage::StaticDraw)
        } else if gl_enum == gl_dynamic_draw() {
            Ok(BufferDataUsage::DynamicDraw)
        } else {
            Err(())
        }
    }

    /// Return the OpenGL integer value for a given enum variant.
    pub fn gl_enum(&self) -> (r: u32)
        ensures
            r == self.spec_gl_enum(),
    {
        match *self {
            BufferDataUsage::StreamDraw => gl_stream_draw(),
            BufferDataUsage::StaticDraw => gl_static_draw(),
            BufferDataUsage::DynamicDraw => gl_dynamic_draw(),
        }
    }

    /// Converting a variant to its raw value and back gives the same
    /// variant, and a raw value that converts to a variant is that
    /// variant's raw value.
    pub proof fn lemma_gl_enum_round_trip(x: Self, value: u32)
        ensures
            Self::spec_from_gl(x.spec_gl_enum()) == Ok::<Self, ()>(x),
            Self::spec_from_gl(value) matches Ok(y) ==> y.spec_gl_enum() == value,
    {
    }
}

/// The targets that a buffer object can be bound to.
#[derive(Debug, Clone, Copy, PartialEq, Eq, Hash, Structural)]
pub enum BufferBindingTarget {
    /// The target for vertex attribute data.
    ArrayBuffer,
    /// The target for vertex index data.
    ElementArrayBuffer,
}

/// The `BufferBindingTarget::ArrayBuffer` variant, named as the OpenGL constant `GL_ARRAY_BUFFER`.
pub const ARRAY_BUFFER: BufferBindingTarget = BufferBindingTarget::ArrayBuffer;

/// The `BufferBindingTarget::ElementArrayBuffer` variant, named as the OpenGL constant `GL_ELEMENT_ARRAY_BUFFER`.
pub const ELEMENT_ARRAY_BUFFER: BufferBindingTarget = BufferBindingTarget::ElementArrayBuffer;

impl BufferBindingTarget {
    /// Each variant's raw value is the OpenGL registry's value of the
    /// constant that the variant is named after (the value that the
    /// matching `gl_consts` wrapper returns), so no two variants trade places.
    pub proof fn lemma_registry_values()
        ensures
            (BufferBindingTarget::ArrayBuffer).spec_gl_enum() == 0x8892,
            (BufferBindingTarget::ElementArrayBuffer).spec_gl_enum() == 0x8893,
    {
    }

    /// The raw OpenGL value of each variant.
    pub open spec fn spec_gl_enum(self) -> u32 {
        match self {
            BufferBindingTarget::ArrayBuffer => 0x8892,
            BufferBindingTarget::ElementArrayBuffer => 0x8893,
        }
    }

    /// The variant whose raw OpenGL value is `value`, if there is one.
    pub open spec fn spec_from_gl(value: u32) -> Result<BufferBindingTarget, ()> {
        if value == 0x8892 {
            Ok(BufferBindingTarget::ArrayBuffer)
        } else if value == 0x8893 {
            Ok(BufferBindingTarget::ElementArrayBuffer)
        } else {
            Err(())
        }
    }

    /// Convert from a raw OpenGL integer value to an enum variant.
    /// Returns an error if the value is not a valid enum variant.
    pub fn from_gl(gl_enum: u32) -> (r: Result<Self, ()>)
        ensures
            r == Self::spec_from_gl(gl_enum),
    {
        if gl_enum == gl_array_buffer() {
            Ok(BufferBindingTarget::ArrayBuffer)
        } else if gl_enum == gl_element_array_buffer() {
            Ok(BufferBindingTarget::ElementArrayBuffer)
        } else {
            Err(())
        }
    }

    /// Return the OpenGL integer value for a given enum variant.
    pub fn gl_enum(&self) -> (r: u32)
        ensures
            r == self.spec_gl_enum(),
    {
        match *self {
            BufferBindingTarget::ArrayBuffer => gl_array_buffer(),
            BufferBindingTarget::ElementArrayBuffer => gl_element_array_buffer(),
        }
    }

    /// Converting a variant to its raw value and back gives the same
    /// variant, and a raw value that converts to a variant is that
    /// variant's raw value.
    pub proof fn lemma_gl_enum_round_trip(x: Self, value: u32)
        ensures
            Self::spec_from_gl(x.spec_gl_enum()) == Ok::<Self, ()>(x),
            Self::spec_from_gl(value) matches Ok(y) ==> y.spec_gl_enum() == value,
    {
    }
}

} // verus!
