//! The OpenGL state types related to renderbuffers.

use vstd::prelude::*;
use std::marker::PhantomData;
use crate::command::{GlCommand, GlCommandView, command_views};
use crate::context::{AContext, BaseContext, BorrowBinder, ContextOf};
use crate::image_data::RenderbufferFormat;
use crate::renderbuffer::{Renderbuffer, RenderbufferTarget};
use crate::types::{GLError, GLObject};

verus! {

/// The message of the error returned when a renderbuffer is built without
/// storage parameters.
pub open spec fn spec_missing_storage_message() -> Seq<char> {
    "Error building renderbuffer: no format or dimensions provided"@
}

/// Provides an interface for creating renderbuffer objects with storage.
pub struct RenderbufferBuilder<C: RenderbufferContext> {
    gl: C,
    storage_params: Option<(RenderbufferFormat, u32, u32)>,
}

impl<C: RenderbufferContext> RenderbufferBuilder<C> {
    /// The storage parameters (format, width, height) set so far.
    pub closed spec fn spec_storage_params(&self) -> Option<(RenderbufferFormat, u32, u32)> {
        self.storage_params
    }

    /// Start a builder with no storage parameters.
    fn new(gl: C) -> (r: Self)
        ensures
            r.spec_storage_params() is None,
    {
        RenderbufferBuilder { gl: gl, storage_params: None }
    }

    /// Set the storage parameters for the renderbuffer.
    pub fn storage(self, format: RenderbufferFormat, width: u32, height: u32) -> (r: Self)
        ensures
            r.spec_storage_params() == Some((format, width, height)),
    {
        let mut b = self;
        b.storage_params = Some((format, width, height));
        b
    }

    /// Build the renderbuffer `rbo` (a new renderbuffer object, from
    /// `glGenRenderbuffers`) with the storage parameters. Returns the commands
    /// to run and the renderbuffer, or an error (and the command that deletes
    /// `rbo`) if no storage parameters were provided.
    pub fn try_unwrap(self, rbo: Renderbuffer) -> (r: (Vec<GlCommand>, Result<Renderbuffer, GLError>))
        ensures
            match self.spec_storage_params() {
                Some((format, width, height)) => {
                    &&& command_views(r.0@) == seq![
                        GlCommandView::BindRenderbuffer { target: 0x8D41, renderbuffer: rbo.spec_id() },
                        GlCommandView::RenderbufferStorage {
                            target: 0x8D41,
                            internalformat: format.spec_gl_enum(),
                            width: width as i32,
                            height: height as i32,
                        },
                    ]
                    &&& r.1 matches Ok(b) && b.spec_id() == rbo.spec_id()
                },
                None => {
                    &&& command_views(r.0@) == seq![GlCommandView::DeleteRenderbuffer { renderbuffer: rbo.spec_id() }]
                    &&& r.1 matches Err(GLError::Message(m)) && m@ == spec_missing_storage_message()
                },
            },
    {
        let mut rbo = rbo;
        match self.storage_params {
            Some((format, width, height)) => {
                let commands = Self::storage_commands(self.gl, &mut rbo, format, width, height);
                (commands, Ok(rbo))
            },
            None => {
                let ghost id = rbo.spec_id();
                let mut commands: Vec<GlCommand> = Vec::new();
                commands.push(rbo.delete());
                assert(command_views(commands@) =~= seq![GlCommandView::DeleteRenderbuffer { renderbuffer: id }]);
                let msg = "Error building renderbuffer: no format or dimensions provided";
                (commands, Err(GLError::Message(msg.to_owned())))
            },
        }
    }

    /// The commands that bind `rbo` through `gl` and set up its storage.
    fn storage_commands(gl: C, rbo: &mut Renderbuffer, format: RenderbufferFormat, width: u32, height: u32) -> (r: Vec<GlCommand>)
        ensures
            command_views(r@) == seq![
                GlCommandView::BindRenderbuffer { target: 0x8D41, renderbuffer: old(rbo).spec_id() },
                GlCommandView::RenderbufferStorage {
                    target: 0x8D41,
                    internalformat: format.spec_gl_enum(),
                    width: width as i32,
                    height: height as i32,
                },
            ],
            *final(rbo) == *old(rbo),
    {
        let ghost id = rbo.spec_id();
        let mut commands: Vec<GlCommand> = Vec::new();
        let (mut gl_rbo, gl, bind) = gl.bind_renderbuffer(rbo);
        commands.push(bind);
        let storage = gl.storage(&mut gl_rbo, format, width, height);
        commands.push(storage);
        assert(command_views(commands@) =~= seq![
            GlCommandView::BindRenderbuffer { target: 0x8D41, renderbuffer: id },
            GlCommandView::RenderbufferStorage {
                target: 0x8D41,
                internalformat: format.spec_gl_enum(),
                width: width as i32,
                height: height as i32,
            },
        ]);
        commands
    }

    /// Build the renderbuffer `rbo` with the storage parameters, which must
    /// have been provided; returns the commands to run and the renderbuffer.
    pub fn unwrap(self, rbo: Renderbuffer) -> (r: (Vec<GlCommand>, Renderbuffer))
        requires
            self.spec_storage_params() is Some,
        ensures
            ({
                let (format, width, height) = self.spec_storage_params()->Some_0;
                command_views(r.0@) == seq![
                    GlCommandView::BindRenderbuffer { target: 0x8D41, renderbuffer: rbo.spec_id() },
                    GlCommandView::RenderbufferStorage {
                        target: 0x8D41,
                        internalformat: format.spec_gl_enum(),
                        width: width as i32,
                        height: height as i32,
                    },
                ]
            }),
            r.1.spec_id() == rbo.spec_id(),
    {
        let mut rbo = rbo;
        let (format, width, height) = self.storage_params.unwrap();
        let commands = Self::storage_commands(self.gl, &mut rbo, format, width, height);
        (commands, rbo)
    }
}

/// The extension trait for contexts with a free renderbuffer binding that
/// adds the `build_renderbuffer` method.
pub trait ContextRenderbufferBuilderExt: RenderbufferContext + Sized {
    /// Create a new renderbuffer builder, with no storage parameters.
    fn build_renderbuffer(self) -> (r: RenderbufferBuilder<Self>)
        ensures
            r.spec_storage_params() is None,
    {
        RenderbufferBuilder::new(self)
    }
}

impl<C: RenderbufferContext> ContextRenderbufferBuilderExt for C {
}

/// The renderbuffer-related OpenGL methods.
pub trait ContextRenderbufferExt: BaseContext {
    /// Initialize the storage of the bound renderbuffer
    /// (`glRenderbufferStorage`); the size is passed as OpenGL's signed
    /// integer type.
    fn storage(&self, gl_rbo: &mut RenderbufferBinding, format: RenderbufferFormat, width: u32, height: u32) -> (c: GlCommand)
        ensures
            c@ == (GlCommandView::RenderbufferStorage {
                target: 0x8D41,
                internalformat: format.spec_gl_enum(),
                width: width as i32,
                height: height as i32,
            }),
    {
        GlCommand::RenderbufferStorage {
            target: gl_rbo.target().gl_enum(),
            internalformat: format.gl_enum(),
            width: width as i32,
            height: height as i32,
        }
    }
}

impl<C: BaseContext> ContextRenderbufferExt for C {
}

/// An OpenGL context that has a free `GL_RENDERBUFFER` binding.
pub trait RenderbufferContext: AContext + Sized {
    /// The renderbuffer binder that the context holds.
    type Binder;

    /// The OpenGL context that will be returned after binding a renderbuffer.
    type Rest: AContext;

    /// Split the context into its renderbuffer binder and the remaining
    /// context.
    fn split_renderbuffer(self) -> (r: (Self::Binder, Self::Rest));

    /// Bind a renderbuffer to this context's renderbuffer target, returning a
    /// binding, the remaining context and the `glBindRenderbuffer` command.
    fn bind_renderbuffer<'a>(self, rbo: &'a mut Renderbuffer) -> (r: (RenderbufferBinding<'a>, Self::Rest, GlCommand))
        ensures
            r.2@ == (GlCommandView::BindRenderbuffer { target: 0x8D41, renderbuffer: old(rbo).spec_id() }),
            *final(rbo) == *old(rbo),
    {
        let (_binder, rest) = self.split_renderbuffer();
        let (binding, command) = bind_renderbuffer_target(rbo);
        (binding, rest, command)
    }
}

impl<B, F, P, R: BorrowBinder<RenderbufferBinder>, T> RenderbufferContext for ContextOf<B, F, P, R, T> {
    type Binder = R;
    type Rest = ContextOf<B, F, P, (), T>;

    fn split_renderbuffer(self) -> (r: (R, Self::Rest))
        ensures
            r.0 == self.spec_renderbuffer(),
            r.1.spec_buffers() == self.spec_buffers(),
            r.1.spec_framebuffer() == self.spec_framebuffer(),
            r.1.spec_program() == self.spec_program(),
            r.1.spec_tex_units() == self.spec_tex_units(),
    {
        self.swap_renderbuffer(())
    }
}

impl<'b, B, F, P, R: BorrowBinder<RenderbufferBinder>, T> RenderbufferContext for &'b mut ContextOf<B, F, P, R, T> {
    type Binder = &'b mut R;
    type Rest = ContextOf<&'b mut B, &'b mut F, &'b mut P, (), &'b mut T>;

    fn split_renderbuffer(self) -> (r: (&'b mut R, Self::Rest))
        ensures
            *r.0 == old(self).spec_renderbuffer(),
            *r.1.spec_buffers() == old(self).spec_buffers(),
            *r.1.spec_framebuffer() == old(self).spec_framebuffer(),
            *r.1.spec_program() == old(self).spec_program(),
            *r.1.spec_tex_units() == old(self).spec_tex_units(),
            final(self).spec_renderbuffer() == *final(r.0),
            final(self).spec_buffers() == *final(r.1.spec_buffers()),
            final(self).spec_framebuffer() == *final(r.1.spec_framebuffer()),
            final(self).spec_program() == *final(r.1.spec_program()),
            final(self).spec_tex_units() == *final(r.1.spec_tex_units()),
    {
        (
            &mut self.renderbuffer,
            ContextOf {
                buffers: &mut self.buffers,
                framebuffer: &mut self.framebuffer,
                program: &mut self.program,
                renderbuffer: (),
                tex_units: &mut self.tex_units,
            },
        )
    }
}

/// The `glBindRenderbuffer` command that binds `rbo` to `GL_RENDERBUFFER`,
/// with the binding it makes.
fn bind_renderbuffer_target<'a>(rbo: &'a mut Renderbuffer) -> (r: (RenderbufferBinding<'a>, GlCommand))
    ensures
        r.1@ == (GlCommandView::BindRenderbuffer { target: 0x8D41, renderbuffer: old(rbo).spec_id() }),
        *final(rbo) == *old(rbo),
{
    let binding = RenderbufferBinding { _phantom: PhantomData };
    let command = GlCommand::BindRenderbuffer { target: binding.target().gl_enum(), renderbuffer: rbo.id() };
    (binding, command)
}

/// Represents a renderbuffer that has been bound to the `GL_RENDERBUFFER`
/// target.
pub struct RenderbufferBinding<'a> {
    _phantom: PhantomData<&'a mut Renderbuffer>,
}

impl<'a> RenderbufferBinding<'a> {
    /// The target the renderbuffer is bound to.
    pub fn target(&self) -> (r: RenderbufferTarget)
        ensures
            r == RenderbufferTarget::Renderbuffer,
    {
        RenderbufferTarget::Renderbuffer
    }
}

/// The OpenGL state representing the `GL_RENDERBUFFER` target.
pub struct RenderbufferBinder {
    _private: (),
}

impl RenderbufferBinder {
    /// Get the current `GL_RENDERBUFFER` binder. The same rules apply to this
    /// method as to [`ContextOf::current_context`](../struct.ContextOf.html#method.current_context).
    pub fn current() -> (r: Self) {
        RenderbufferBinder { _private: () }
    }

    /// Bind a renderbuffer to the `GL_RENDERBUFFER` target, returning a
    /// binding and the `glBindRenderbuffer` command.
    pub fn bind<'a>(&mut self, renderbuffer: &'a mut Renderbuffer) -> (r: (RenderbufferBinding<'a>, GlCommand))
        ensures
            r.1@ == (GlCommandView::BindRenderbuffer { target: 0x8D41, renderbuffer: old(renderbuffer).spec_id() }),
            *final(renderbuffer) == *old(renderbuffer),
    {
        bind_renderbuffer_target(renderbuffer)
    }
}

} // verus!
