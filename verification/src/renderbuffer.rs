//! OpenGL renderbuffer objects.

use vstd::prelude::*;
use crate::command::GlCommand;
use crate::types::GLObject;
use crate::gl_consts::{gl_renderbuffer};

verus! {

/// An OpenGL renderbuffer object.
pub struct Renderbuffer {
    gl_id: u32,
}

impl GLObject for Renderbuffer {
    type Id = u32;

    closed spec fn spec_id(&self) -> u32 {
        self.gl_id
    }

    fn from_raw(id: u32) -> (r: Self) {
        Renderbuffer { gl_id: id }
    }

    fn id(&self) -> (r: u32) {
        self.gl_id
    }
}

impl Renderbuffer {
    /// The command that deletes the object; OpenGL frees the object's
    /// resources once it runs.
    pub fn delete(self) -> (c: GlCommand)
        ensures
            c == (GlCommand::DeleteRenderbuffer { renderbuffer: self.spec_id() }),
    {
        GlCommand::DeleteRenderbuffer { renderbuffer: self.gl_id }
    }
}

/// The targets that a renderbuffer object can be bound to.
#[derive(Debug, Clone, Copy, PartialEq, Eq, Hash, Structural)]
pub enum RenderbufferTarget {
    /// The lone renderbuffer target.
    Renderbuffer,
}

/// The `RenderbufferTarget::Renderbuffer` variant, named as the OpenGL constant `GL_RENDERBUFFER`.
pub const RENDERBUFFER: RenderbufferTarget = RenderbufferTarget::Renderbuffer;

impl RenderbufferTarget {
    /// Each variant's raw value is the OpenGL registry's value of the
    /// constant that the variant is named after (the value that the
    /// matching `gl_consts` wrapper returns), so no two variants trade places.
    pub proof fn lemma_registry_values()
        ensures
            (RenderbufferTarget::Renderbuffer).spec_gl_enum() == 0x8D41,
    {
    }

    /// The raw OpenGL value of each variant.
    pub open spec fn spec_gl_enum(self) -> u32 {
        match self {
            RenderbufferTarget::Renderbuffer => 0x8D41,
        }
    }

    /// The variant whose raw OpenGL value is `value`, if there is one.
    pub open spec fn spec_from_gl(value: u32) -> Result<RenderbufferTarget, ()> {
        if value == 0x8D41 {
            Ok(RenderbufferTarget::Renderbuffer)
        } else {
            Err(())
        }
    }

    /// Convert from a raw OpenGL integer value to an enum variant.
    /// Returns an error if the value is not a valid enum variant.
    pub fn from_gl(gl_enum: u32) -> (r: Result<Self, ()>)
        ensures
            r == Self::spec_from_gl(gl_enum),
    {
        if gl_enum == gl_renderbuffer() {
            Ok(RenderbufferTarget::Renderbuffer)
        } else {
            Err(())
        }
    }

    /// Return the OpenGL integer value for a given enum variant.
    pub fn gl_enum(&self) -> (r: u32)
        ensures
            r == self.spec_gl_enum(),
    {
        match *self {
            RenderbufferTarget::Renderbuffer => gl_renderbuffer(),
        }
    }

    /// Converting a variant to its raw value and back gives the same
    /// variant, and a raw value that converts to a variant is that
    /// variant's raw value.
    pub proof fn lemma_gl_enum_round_trip(x: Self, value: u32)
        ensures
            Self::spec_from_gl(x.spec_gl_enum()) == Ok::<Self, ()>(x),
            Self::spec_from_gl(value) matches Ok(y) ==> y.spec_gl_enum() == value,
    {
    }
}

} // verus!
