//! OpenGL program objects and their attribute and uniform locations.

use vstd::prelude::*;
use crate::command::GlCommand;
use crate::types::GLObject;

verus! {

/// An OpenGL program object.
pub struct Program {
    gl_id: u32,
}

impl GLObject for Program {
    type Id = u32;

    closed spec fn spec_id(&self) -> u32 {
        self.gl_id
    }

    fn from_raw(id: u32) -> (r: Self) {
        Program { gl_id: id }
    }

    fn id(&self) -> (r: u32) {
        self.gl_id
    }
}

impl Program {
    /// The command that deletes the object; OpenGL frees the object's
    /// resources once it runs.
    pub fn delete(self) -> (c: GlCommand)
        ensures
            c == (GlCommand::DeleteProgram { program: self.spec_id() }),
    {
        GlCommand::DeleteProgram { program: self.gl_id }
    }
}

/// The location of a vertex attribute in a program object.
#[derive(Debug, Clone, Copy, PartialEq, Eq, Structural)]
pub struct ProgramAttrib {
    /// The attribute's index.
    pub gl_index: u32,
}

/// The location of a uniform variable in a program object.
#[derive(Debug, Clone, Copy, PartialEq, Eq, Structural)]
pub struct ProgramUniform {
    /// The uniform's index.
    pub gl_index: u32,
}


/// The OpenGL state representing the program binding set by `glUseProgram`.
pub struct ProgramBinder {
    _private: (),
}

impl ProgramBinder {
    /// Get the current program binder. The same rules apply to this method as
    /// to [`ContextOf::current_context`](../context/struct.ContextOf.html#method.current_context).
    pub fn current() -> (r: Self) {
        ProgramBinder { _private: () }
    }
}

} // verus!
