//! OpenGL framebuffer objects.

use vstd::prelude::*;
use crate::command::GlCommand;
use crate::types::GLObject;

verus! {

/// An OpenGL framebuffer object.
pub struct Framebuffer {
    gl_id: u32,
}

impl GLObject for Framebuffer {
    type Id = u32;

    closed spec fn spec_id(&self) -> u32 {
        self.gl_id
    }

    fn from_raw(id: u32) -> (r: Self) {
        Framebuffer { gl_id: id }
    }

    fn id(&self) -> (r: u32) {
        self.gl_id
    }
}

impl Framebuffer {
    /// The command that deletes the object; OpenGL frees the object's
    /// resources once it runs.
    pub fn delete(self) -> (c: GlCommand)
        ensures
            c == (GlCommand::DeleteFramebuffer { framebuffer: self.spec_id() }),
    {
        GlCommand::DeleteFramebuffer { framebuffer: self.gl_id }
    }
}

} // verus!
