//! Home of [`ContextOf`](struct.ContextOf.html), the type that represents the
//! OpenGL state machine, and through which OpenGL commands are made.
//!
//! Each type parameter of `ContextOf` holds one piece of OpenGL binding
//! state. Binding an object to a target takes that target's binder out of
//! the context, so the returned context can no longer bind to the same
//! target while the binding is alive.

use vstd::prelude::*;
use crate::command::GlCommand;
use crate::program::{ProgramAttrib, ProgramBinder};
use crate::to_ref::{ToMut, ToRef};
use crate::types::{Capability, Viewport};

pub mod buffer_context;
pub mod framebuffer_context;
pub mod renderbuffer_context;
pub mod texture_context;
pub mod texture_units;

use self::buffer_context::{BufferBinder, ContextBufferExt};
use self::framebuffer_context::{FramebufferBinder, ContextFramebufferExt};
use self::renderbuffer_context::{RenderbufferBinder, ContextRenderbufferExt};
use self::texture_context::ContextTextureExt;
use self::texture_units::TextureUnits;


verus! {

/// A "fresh" OpenGL context: one that has no active bindings.
pub type Context = ContextOf<
    BufferBinder,
    FramebufferBinder,
    ProgramBinder,
    RenderbufferBinder,
    TextureUnits,
>;

/// The type that represents the whole OpenGL state machine.
///
/// - `B`: buffer state (`GL_ARRAY_BUFFER`, `GL_ELEMENT_ARRAY_BUFFER`)
/// - `F`: framebuffer state (`GL_FRAMEBUFFER`)
/// - `P`: program state (the binding set by `glUseProgram`)
/// - `R`: renderbuffer state (`GL_RENDERBUFFER`)
/// - `T`: texture unit state (the unit set by `glActiveTexture`)
///
/// Each parameter is either a binder (the target is free to be bound) or
/// `()` (the target is in use by a binding).
pub struct ContextOf<B, F, P, R, T> {
    buffers: B,
    framebuffer: F,
    program: P,
    renderbuffer: R,
    tex_units: T,
}

impl<B, F, P, R, T> ContextOf<B, F, P, R, T> {
    /// The buffer state of the context.
    pub closed spec fn spec_buffers(&self) -> B {
        self.buffers
    }

    /// The framebuffer state of the context.
    pub closed spec fn spec_framebuffer(&self) -> F {
        self.framebuffer
    }

    /// The program state of the context.
    pub closed spec fn spec_program(&self) -> P {
        self.program
    }

    /// The renderbuffer state of the context.
    pub closed spec fn spec_renderbuffer(&self) -> R {
        self.renderbuffer
    }

    /// The texture unit state of the context.
    pub closed spec fn spec_tex_units(&self) -> T {
        self.tex_units
    }

    /// Get the current OpenGL context, with all of its targets free.
    ///
    /// A context must have been created and made current on this thread, and
    /// the OpenGL functions must have been loaded, before the commands that
    /// it hands out are run. Only one such value should be live at a time:
    /// two of them could bind two objects to the same target.
    pub fn current_context() -> (r: Context) {
        ContextOf {
            buffers: BufferBinder::current(),
            framebuffer: FramebufferBinder::current(),
            program: ProgramBinder::current(),
            renderbuffer: RenderbufferBinder::current(),
            tex_units: TextureUnits::current(),
        }
    }

    /// Replace the context's buffer state with a new value, returning the old
    /// value and the new context.
    pub fn swap_buffers<NB>(self, new_buffer: NB) -> (r: (B, ContextOf<NB, F, P, R, T>))
        ensures
            r.0 == self.spec_buffers(),
            r.1.spec_buffers() == new_buffer,
            r.1.spec_framebuffer() == self.spec_framebuffer(),
            r.1.spec_program() == self.spec_program(),
            r.1.spec_renderbuffer() == self.spec_renderbuffer(),
            r.1.spec_tex_units() == self.spec_tex_units(),
    {
        (
            self.buffers,
            ContextOf {
                buffers: new_buffer,
                framebuffer: self.framebuffer,
                program: self.program,
                renderbuffer: self.renderbuffer,
                tex_units: self.tex_units,
            },
        )
    }

    /// Replace the context's framebuffer state with a new value, returning the
    /// old value and the new context.
    pub fn swap_framebuffer<NF>(self, new_framebuffer: NF) -> (r: (F, ContextOf<B, NF, P, R, T>))
        ensures
            r.0 == self.spec_framebuffer(),
            r.1.spec_buffers() == self.spec_buffers(),
            r.1.spec_framebuffer() == new_framebuffer,
            r.1.spec_program() == self.spec_program(),
            r.1.spec_renderbuffer() == self.spec_renderbuffer(),
            r.1.spec_tex_units() == self.spec_tex_units(),
    {
        (
            self.framebuffer,
            ContextOf {
                buffers: self.buffers,
                framebuffer: new_framebuffer,
                program: self.program,
                renderbuffer: self.renderbuffer,
                tex_units: self.tex_units,
            },
        )
    }

    /// Replace the context's program state with a new value, returning the
    /// old value and the new context.
    pub fn swap_program<NP>(self, new_program: NP) -> (r: (P, ContextOf<B, F, NP, R, T>))
        ensures
            r.0 == self.spec_program(),
            r.1.spec_buffers() == self.spec_buffers(),
            r.1.spec_framebuffer() == self.spec_framebuffer(),
            r.1.spec_program() == new_program,
            r.1.spec_renderbuffer() == self.spec_renderbuffer(),
            r.1.spec_tex_units() == self.spec_tex_units(),
    {
        (
            self.program,
            ContextOf {
                buffers: self.buffers,
                framebuffer: self.framebuffer,
                program: new_program,
                renderbuffer: self.renderbuffer,
                tex_units: self.tex_units,
            },
        )
    }

    /// Replace the context's renderbuffer state with a new value, returning
    /// the old value and the new context.
    pub fn swap_renderbuffer<NR>(self, new_renderbuffer: NR) -> (r: (R, ContextOf<B, F, P, NR, T>))
        ensures
            r.0 == self.spec_renderbuffer(),
            r.1.spec_buffers() == self.spec_buffers(),
            r.1.spec_framebuffer() == self.spec_framebuffer(),
            r.1.spec_program() == self.spec_program(),
            r.1.spec_renderbuffer() == new_renderbuffer,
            r.1.spec_tex_units() == self.spec_tex_units(),
    {
        (
            self.renderbuffer,
            ContextOf {
                buffers: self.buffers,
                framebuffer: self.framebuffer,
                program: self.program,
                renderbuffer: new_renderbuffer,
                tex_units: self.tex_units,
            },
        )
    }

    /// Replace the context's texture unit state with a new value, returning
    /// the old value and the new context.
    pub fn swap_tex_units<NT>(self, new_tex_units: NT) -> (r: (T, ContextOf<B, F, P, R, NT>))
        ensures
            r.0 == self.spec_tex_units(),
            r.1.spec_buffers() == self.spec_buffers(),
            r.1.spec_framebuffer() == self.spec_framebuffer(),
            r.1.spec_program() == self.spec_program(),
            r.1.spec_renderbuffer() == self.spec_renderbuffer(),
            r.1.spec_tex_units() == new_tex_units,
    {
        (
            self.tex_units,
            ContextOf {
                buffers: self.buffers,
                framebuffer: self.framebuffer,
                program: self.program,
                renderbuffer: self.renderbuffer,
                tex_units: new_tex_units,
            },
        )
    }
}

impl<B, F, P, R, T> ContextOf<B, F, P, R, T> {
    /// A context whose pieces of state are shared borrows of this context's
    /// pieces.
    pub fn borrowed<'a>(&'a self) -> (r: ContextOf<&'a B, &'a F, &'a P, &'a R, &'a T>)
        ensures
            *r.spec_buffers() == self.spec_buffers(),
            *r.spec_framebuffer() == self.spec_framebuffer(),
            *r.spec_program() == self.spec_program(),
            *r.spec_renderbuffer() == self.spec_renderbuffer(),
            *r.spec_tex_units() == self.spec_tex_units(),
    {
        ContextOf {
            buffers: &self.buffers,
            framebuffer: &self.framebuffer,
            program: &self.program,
            renderbuffer: &self.renderbuffer,
            tex_units: &self.tex_units,
        }
    }

    /// A context whose pieces of state are mutable borrows of this context's
    /// pieces: once it is done with, each piece of this context is what its
    /// borrow last held.
    pub fn borrowed_mut<'a>(&'a mut self) -> (r: ContextOf<&'a mut B, &'a mut F, &'a mut P, &'a mut R, &'a mut T>)
        ensures
            *r.spec_buffers() == old(self).spec_buffers(),
            *r.spec_framebuffer() == old(self).spec_framebuffer(),
            *r.spec_program() == old(self).spec_program(),
            *r.spec_renderbuffer() == old(self).spec_renderbuffer(),
            *r.spec_tex_units() == old(self).spec_tex_units(),
            final(self).spec_buffers() == *final(r.spec_buffers()),
            final(self).spec_framebuffer() == *final(r.spec_framebuffer()),
            final(self).spec_program() == *final(r.spec_program()),
            final(self).spec_renderbuffer() == *final(r.spec_renderbuffer()),
            final(self).spec_tex_units() == *final(r.spec_tex_units()),
    {
        ContextOf {
            buffers: &mut self.buffers,
            framebuffer: &mut self.framebuffer,
            program: &mut self.program,
            renderbuffer: &mut self.renderbuffer,
            tex_units: &mut self.tex_units,
        }
    }
}

impl<'a, B, F, P, R, T> ToRef<'a> for ContextOf<B, F, P, R, T> where
    B: 'a + ToRef<'a>,
    F: 'a + ToRef<'a>,
    P: 'a + ToRef<'a>,
    R: 'a + ToRef<'a>,
    T: 'a + ToRef<'a>,
 {
    type Ref = ContextOf<B::Ref, F::Ref, P::Ref, R::Ref, T::Ref>;

    closed spec fn spec_to_ref(&'a self) -> Self::Ref {
        ContextOf {
            buffers: self.buffers.spec_to_ref(),
            framebuffer: self.framebuffer.spec_to_ref(),
            program: self.program.spec_to_ref(),
            renderbuffer: self.renderbuffer.spec_to_ref(),
            tex_units: self.tex_units.spec_to_ref(),
        }
    }

    fn to_ref(&'a self) -> (r: Self::Ref)
        ensures
            r.spec_buffers() == self.spec_buffers().spec_to_ref(),
            r.spec_framebuffer() == self.spec_framebuffer().spec_to_ref(),
            r.spec_program() == self.spec_program().spec_to_ref(),
            r.spec_renderbuffer() == self.spec_renderbuffer().spec_to_ref(),
            r.spec_tex_units() == self.spec_tex_units().spec_to_ref(),
    {
        ContextOf {
            buffers: self.buffers.to_ref(),
            framebuffer: self.framebuffer.to_ref(),
            program: self.program.to_ref(),
            renderbuffer: self.renderbuffer.to_ref(),
            tex_units: self.tex_units.to_ref(),
        }
    }
}

impl<'a, B, F, P, R, T> ToMut<'a> for ContextOf<B, F, P, R, T> where
    B: 'a + ToMut<'a>,
    F: 'a + ToMut<'a>,
    P: 'a + ToMut<'a>,
    R: 'a + ToMut<'a>,
    T: 'a + ToMut<'a>,
 {
    type Mut = ContextOf<B::Mut, F::Mut, P::Mut, R::Mut, T::Mut>;

    /// Each piece of the result is the mutably borrowed form of the same
    /// piece of the context.
    open spec fn spec_to_mut(pre: Self, post: Self, r: Self::Mut) -> bool {
        &&& B::spec_to_mut(pre.spec_buffers(), post.spec_buffers(), r.spec_buffers())
        &&& F::spec_to_mut(pre.spec_framebuffer(), post.spec_framebuffer(), r.spec_framebuffer())
        &&& P::spec_to_mut(pre.spec_program(), post.spec_program(), r.spec_program())
        &&& R::spec_to_mut(pre.spec_renderbuffer(), post.spec_renderbuffer(), r.spec_renderbuffer())
        &&& T::spec_to_mut(pre.spec_tex_units(), post.spec_tex_units(), r.spec_tex_units())
    }

    fn to_mut(&'a mut self) -> (r: Self::Mut) {
        ContextOf {
            buffers: self.buffers.to_mut(),
            framebuffer: self.framebuffer.to_mut(),
            program: self.program.to_mut(),
            renderbuffer: self.renderbuffer.to_mut(),
            tex_units: self.tex_units.to_mut(),
        }
    }
}

/// Two contexts whose five pieces of state are equal are the same context;
/// so a `swap_*` call followed by a `swap_*` call on the same piece that
/// puts the old value back gives back the context it started from.
pub proof fn lemma_context_ext_equal<B, F, P, R, T>(a: ContextOf<B, F, P, R, T>, b: ContextOf<B, F, P, R, T>)
    requires
        a.spec_buffers() == b.spec_buffers(),
        a.spec_framebuffer() == b.spec_framebuffer(),
        a.spec_program() == b.spec_program(),
        a.spec_renderbuffer() == b.spec_renderbuffer(),
        a.spec_tex_units() == b.spec_tex_units(),
    ensures
        a == b,
{
}

/// A marker trait for types that represent an active OpenGL context.
pub trait BaseContext {
}

impl<B, F, P, R, T> BaseContext for ContextOf<B, F, P, R, T> {
}

impl<'a, B, F, P, R, T> BaseContext for &'a mut ContextOf<B, F, P, R, T> {
}

/// A piece of context state that is, or mutably borrows, the binder `B`: a
/// context whose piece of state is either of these still has the target
/// free.
pub trait BorrowBinder<B> {
}

impl<B> BorrowBinder<B> for B {
}

impl<'a, B> BorrowBinder<B> for &'a mut B {
}

/// The core OpenGL methods that maintain state, such as which capabilities
/// are enabled.
pub trait ContextExt: BaseContext {
    /// Enable an OpenGL capability (`glEnable`).
    fn enable(&mut self, cap: Capability) -> (c: GlCommand)
        ensures
            c@ == (crate::command::GlCommandView::Enable { cap: cap.spec_gl_enum() }),
    {
        GlCommand::Enable { cap: cap.gl_enum() }
    }

    /// Disable an OpenGL capability (`glDisable`).
    fn disable(&mut self, cap: Capability) -> (c: GlCommand)
        ensures
            c@ == (crate::command::GlCommandView::Disable { cap: cap.spec_gl_enum() }),
    {
        GlCommand::Disable { cap: cap.gl_enum() }
    }

    /// Enable a vertex attribute array to be used while drawing
    /// (`glEnableVertexAttribArray`).
    fn enable_vertex_attrib_array(&self, attrib: ProgramAttrib) -> (c: GlCommand)
        ensures
            c@ == (crate::command::GlCommandView::EnableVertexAttribArray { index: attrib.gl_index }),
    {
        GlCommand::EnableVertexAttribArray { index: attrib.gl_index }
    }

    /// Set the OpenGL viewport, which maps from device coordinates to window
    /// coordinates (`glViewport`); each component is passed as OpenGL's
    /// signed integer type.
    fn viewport(&self, viewport: Viewport) -> (c: GlCommand)
        ensures
            c@ == (crate::command::GlCommandView::Viewport {
                x: viewport.x as i32,
                y: viewport.y as i32,
                width: viewport.width as i32,
                height: viewport.height as i32,
            }),
    {
        GlCommand::Viewport {
            x: viewport.x as i32,
            y: viewport.y as i32,
            width: viewport.width as i32,
            height: viewport.height as i32,
        }
    }
}

impl<C: BaseContext> ContextExt for C {
}

/// The core OpenGL context trait, giving access to the OpenGL methods that
/// don't deal with binding.
pub trait AContext: ContextExt + ContextBufferExt + ContextFramebufferExt + ContextRenderbufferExt + ContextTextureExt {
}

impl<B, F, P, R, T> AContext for ContextOf<B, F, P, R, T> {
}

impl<'a, B, F, P, R, T> AContext for &'a mut ContextOf<B, F, P, R, T> {
}

} // verus!
