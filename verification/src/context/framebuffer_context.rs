//! The OpenGL state types related to framebuffer objects.

use vstd::prelude::*;
use std::marker::PhantomData;
use crate::command::{GlCommand, GlCommandView, command_views};
use crate::context::{BorrowBinder, AContext, BaseContext, ContextOf};
use crate::framebuffer::Framebuffer;
use crate::renderbuffer::Renderbuffer;
use crate::texture::{ImageTargetType, Texture, Texture2d, TextureType};
use crate::types::{BufferBits, GLError, GLFramebufferError, GLObject};
use crate::gl_consts::{gl_color_attachment0, gl_depth_attachment, gl_framebuffer, gl_stencil_attachment, gl_renderbuffer, gl_framebuffer_complete, gl_framebuffer_incomplete_attachment, gl_framebuffer_incomplete_missing_attachment};

verus! {

/// All of the possible OpenGL targets for binding framebuffer objects.
#[derive(Debug, Clone, Copy, PartialEq, Eq, Hash, Structural)]
pub enum FramebufferTarget {
    /// The lone framebuffer target.
    Framebuffer,
}

/// The `FramebufferTarget::Framebuffer` variant, named as the OpenGL constant `GL_FRAMEBUFFER`.
pub const FRAMEBUFFER: FramebufferTarget = FramebufferTarget::Framebuffer;

impl FramebufferTarget {
    /// Each variant's raw value is the OpenGL registry's value of the
    /// constant that the variant is named after (the value that the
    /// matching `gl_consts` wrapper returns), so no two variants trade places.
    pub proof fn lemma_registry_values()
        ensures
            (FramebufferTarget::Framebuffer).spec_gl_enum() == 0x8D40,
    {
    }

    /// The raw OpenGL value of each variant.
    pub open spec fn spec_gl_enum(self) -> u32 {
        match self {
            FramebufferTarget::Framebuffer => 0x8D40,
        }
    }

    /// The variant whose raw OpenGL value is `value`, if there is one.
    pub open spec fn spec_from_gl(value: u32) -> Result<FramebufferTarget, ()> {
        if value == 0x8D40 {
            Ok(FramebufferTarget::Framebuffer)
        } else {
            Err(())
        }
    }

    /// Convert from a raw OpenGL integer value to an enum variant.
    /// Returns an error if the value is not a valid enum variant.
    pub fn from_gl(gl_enum: u32) -> (r: Result<Self, ()>)
        ensures
            r == Self::spec_from_gl(gl_enum),
    {
        if gl_enum == gl_framebuffer() {
            Ok(FramebufferTarget::Framebuffer)
        } else {
            Err(())
        }
    }

    /// Return the OpenGL integer value for a given enum variant.
    pub fn gl_enum(&self) -> (r: u32)
        ensures
            r == self.spec_gl_enum(),
    {
        match *self {
            FramebufferTarget::Framebuffer => gl_framebuffer(),
        }
    }

    /// Converting a variant to its raw value and back gives the same
    /// variant, and a raw value that converts to a variant is that
    /// variant's raw value.
    pub proof fn lemma_gl_enum_round_trip(x: Self, value: u32)
        ensures
            Self::spec_from_gl(x.spec_gl_enum()) == Ok::<Self, ()>(x),
            Self::spec_from_gl(value) matches Ok(y) ==> y.spec_gl_enum() == value,
    {
    }
}

/// The attachment points of a framebuffer object.
#[derive(Debug, Clone, Copy, PartialEq, Eq, Hash, Structural)]
pub enum FramebufferAttachment {
    /// The color buffer attachment point.
    ColorAttachment0,
    /// The depth buffer attachment point.
    DepthAttachment,
    /// The stencil buffer attachment point.
    StencilAttachment,
}

/// The `FramebufferAttachment::ColorAttachment0` variant, named as the OpenGL constant `GL_COLOR_ATTACHMENT0`.
pub const COLOR_ATTACHMENT0: FramebufferAttachment = FramebufferAttachment::ColorAttachment0;

/// The `FramebufferAttachment::DepthAttachment` variant, named as the OpenGL constant `GL_DEPTH_ATTACHMENT`.
pub const DEPTH_ATTACHMENT: FramebufferAttachment = FramebufferAttachment::DepthAttachment;

/// The `FramebufferAttachment::StencilAttachment` variant, named as the OpenGL constant `GL_STENCIL_ATTACHMENT`.
pub const STENCIL_ATTACHMENT: FramebufferAttachment = FramebufferAttachment::StencilAttachment;

impl FramebufferAttachment {
    /// Each variant's raw value is the OpenGL registry's value of the
    /// constant that the variant is named after (the value that the
    /// matching `gl_consts` wrapper returns), so no two variants trade places.
    pub proof fn lemma_registry_values()
        ensures
            (FramebufferAttachment::ColorAttachment0).spec_gl_enum() == 0x8CE0,
            (FramebufferAttachment::DepthAttachment).spec_gl_enum() == 0x8D00,
            (FramebufferAttachment::StencilAttachment).spec_gl_enum() == 0x8D20,
    {
    }

    /// The raw OpenGL value of each variant.
    pub open spec fn spec_gl_enum(self) -> u32 {
        match self {
            FramebufferAttachment::ColorAttachment0 => 0x8CE0,
            FramebufferAttachment::DepthAttachment => 0x8D00,
            FramebufferAttachment::StencilAttachment => 0x8D20,
        }
    }

    /// The variant whose raw OpenGL value is `value`, if there is one.
    pub open spec fn spec_from_gl(value: u32) -> Result<FramebufferAttachment, ()> {
        if value == 0x8CE0 {
            Ok(FramebufferAttachment::ColorAttachment0)
        } else if value == 0x8D00 {
            Ok(FramebufferAttachment::DepthAttachment)
        } else if value == 0x8D20 {
            Ok(FramebufferAttachment::StencilAttachment)
        } else {
            Err(())
        }
    }

    /// Convert from a raw OpenGL integer value to an enum variant.
    /// Returns an error if the value is not a valid enum variant.
    pub fn from_gl(gl_enum: u32) -> (r: Result<Self, ()>)
        ensures
            r == Self::spec_from_gl(gl_enum),
    {
        if gl_enum == gl_color_attachment0() {
            Ok(FramebufferAttachment::ColorAttachment0)
        } else if gl_enum == gl_depth_attachment() {
            Ok(FramebufferAttachment::DepthAttachment)
        } else if gl_enum == gl_stencil_attachment() {
            Ok(FramebufferAttachment::StencilAttachment)
        } else {
            Err(())
        }
    }

    /// Return the OpenGL integer value for a given enum variant.
    pub fn gl_enum(&self) -> (r: u32)
        ensures
            r == self.spec_gl_enum(),
    {
        match *self {
            FramebufferAttachment::ColorAttachment0 => gl_color_attachment0(),
            FramebufferAttachment::DepthAttachment => gl_depth_attachment(),
            FramebufferAttachment::StencilAttachment => gl_stencil_attachment(),
        }
    }

    /// Converting a variant to its raw value and back gives the same
    /// variant, and a raw value that converts to a variant is that
    /// variant's raw value.
    pub proof fn lemma_gl_enum_round_trip(x: Self, value: u32)
        ensures
            Self::spec_from_gl(x.spec_gl_enum()) == Ok::<Self, ()>(x),
            Self::spec_from_gl(value) matches Ok(y) ==> y.spec_gl_enum() == value,
    {
    }
}

/// `GL_FRAMEBUFFER_INCOMPLETE_DIMENSIONS`, the status of OpenGL ES 2 for
/// attachments whose sizes differ. The registry gives it this value; the
/// core-profile bindings of the `gl` crate do not define it.
pub const FRAMEBUFFER_INCOMPLETE_DIMENSIONS: u32 = 0x8CD9;

/// The framebuffer-completeness error that a status returned by
/// `glCheckFramebufferStatus` stands for, or `None` if the status is
/// `GL_FRAMEBUFFER_COMPLETE`. A status that names none of the errors
/// (such as the 0 that an error in the call itself gives) is reported as
/// `Unsupported`: the framebuffer is not known to be usable.
pub open spec fn spec_framebuffer_status_error(status: u32) -> Option<GLFramebufferError> {
    if status == 0x8CD5 {
        None
    } else if status == 0x8CD6 {
        Some(GLFramebufferError::IncompleteAttachment)
    } else if status == 0x8CD7 {
        Some(GLFramebufferError::IncompleteMissingAttachment)
    } else if status == 0x8CD9 {
        Some(GLFramebufferError::IncompleteDimensions)
    } else {
        Some(GLFramebufferError::Unsupported)
    }
}

/// Map a status returned by `glCheckFramebufferStatus` to an error.
fn framebuffer_status_error(status: u32) -> (r: Option<GLFramebufferError>)
    ensures
        r == spec_framebuffer_status_error(status),
{
    if status == gl_framebuffer_complete() {
        None
    } else if status == gl_framebuffer_incomplete_attachment() {
        Some(GLFramebufferError::IncompleteAttachment)
    } else if status == gl_framebuffer_incomplete_missing_attachment() {
        Some(GLFramebufferError::IncompleteMissingAttachment)
    } else if status == FRAMEBUFFER_INCOMPLETE_DIMENSIONS {
        Some(GLFramebufferError::IncompleteDimensions)
    } else {
        Some(GLFramebufferError::Unsupported)
    }
}

/// The `glFramebufferRenderbuffer` command that attaches renderbuffer
/// `renderbuffer` to `attachment` of the bound framebuffer.
fn framebuffer_renderbuffer_command(attachment: FramebufferAttachment, renderbuffer: u32) -> (c: GlCommand)
    ensures
        c@ == (GlCommandView::FramebufferRenderbuffer {
            target: 0x8D40,
            attachment: attachment.spec_gl_enum(),
            renderbuffer_target: 0x8D41,
            renderbuffer: renderbuffer,
        }),
{
    GlCommand::FramebufferRenderbuffer {
        target: FramebufferTarget::Framebuffer.gl_enum(),
        attachment: attachment.gl_enum(),
        renderbuffer_target: gl_renderbuffer(),
        renderbuffer: renderbuffer,
    }
}

/// The `glFramebufferTexture2D` command that attaches image `tex_target` of
/// texture `texture` to `attachment` of the bound framebuffer.
fn framebuffer_texture_2d_command(attachment: FramebufferAttachment, tex_target: u32, texture: u32, level: i32) -> (c: GlCommand)
    ensures
        c@ == (GlCommandView::FramebufferTexture2D {
            target: 0x8D40,
            attachment: attachment.spec_gl_enum(),
            tex_target: tex_target,
            texture: texture,
            level: level,
        }),
{
    GlCommand::FramebufferTexture2D {
        target: FramebufferTarget::Framebuffer.gl_enum(),
        attachment: attachment.gl_enum(),
        tex_target: tex_target,
        texture: texture,
        level: level,
    }
}

/// The framebuffer-related OpenGL methods.
pub trait ContextFramebufferExt: BaseContext {
    /// Turn the status that `glCheckFramebufferStatus` returned for the bound
    /// framebuffer into the framebuffer-completeness error it reports, or
    /// `None` if the framebuffer is complete (`GL_FRAMEBUFFER_COMPLETE`).
    /// Any status that is neither complete nor one of the named errors
    /// gives `Unsupported`.
    fn check_framebuffer_status(&self, gl_fbo: &FramebufferBinding, status: u32) -> (r: Option<GLFramebufferError>)
        ensures
            r == spec_framebuffer_status_error(status),
    {
        framebuffer_status_error(status)
    }

    /// Attach a renderbuffer object to an attachment point of the bound
    /// framebuffer (`glFramebufferRenderbuffer`).
    fn framebuffer_renderbuffer(
        &self,
        gl_fbo: &mut FramebufferBinding,
        attachment: FramebufferAttachment,
        renderbuffer: &mut Renderbuffer,
    ) -> (c: GlCommand)
        ensures
            c@ == (GlCommandView::FramebufferRenderbuffer {
                target: 0x8D40,
                attachment: attachment.spec_gl_enum(),
                renderbuffer_target: 0x8D41,
                renderbuffer: old(renderbuffer).spec_id(),
            }),
    {
        framebuffer_renderbuffer_command(attachment, renderbuffer.id())
    }

    /// Attach an image of a texture to an attachment point of the bound
    /// framebuffer (`glFramebufferTexture2D`). The mipmap `level` must be 0.
    fn framebuffer_texture_2d<T: TextureType>(
        &self,
        gl_fbo: &mut FramebufferBinding,
        attachment: FramebufferAttachment,
        tex_target: T::ImageTargetType,
        texture: &mut Texture<T>,
        level: i32,
    ) -> (c: GlCommand)
        requires
            level == 0,
        ensures
            c@ == (GlCommandView::FramebufferTexture2D {
                target: 0x8D40,
                attachment: attachment.spec_gl_enum(),
                tex_target: tex_target.spec_image_target(),
                texture: old(texture).spec_id(),
                level: level,
            }),
    {
        framebuffer_texture_2d_command(attachment, tex_target.gl_enum(), texture.id(), level)
    }

    /// Clear the drawing buffers that `buffers` names (`glClear`).
    fn clear(&self, buffers: BufferBits) -> (c: GlCommand)
        ensures
            c@ == (GlCommandView::Clear { mask: buffers.spec_bits() }),
    {
        GlCommand::Clear { mask: buffers.bits() }
    }
}

impl<C: BaseContext> ContextFramebufferExt for C {
}

/// What a [`FramebufferBuilder`](struct.FramebufferBuilder.html) attaches to
/// one attachment point.
#[derive(Debug, Clone, Copy, PartialEq, Eq, Structural)]
pub enum BuilderAttachment {
    /// Mipmap level `level` of the 2D texture with ID `texture`.
    Texture2d { texture: u32, level: i32 },
    /// The renderbuffer with ID `renderbuffer`.
    Renderbuffer { renderbuffer: u32 },
}

/// The command that attaches `attached` to `point` of the bound framebuffer.
pub open spec fn spec_attach_command(point: FramebufferAttachment, attached: BuilderAttachment) -> GlCommandView {
    match attached {
        BuilderAttachment::Texture2d { texture, level } => GlCommandView::FramebufferTexture2D {
            target: 0x8D40,
            attachment: point.spec_gl_enum(),
            tex_target: 0x0DE1,
            texture: texture,
            level: level,
        },
        BuilderAttachment::Renderbuffer { renderbuffer } => GlCommandView::FramebufferRenderbuffer {
            target: 0x8D40,
            attachment: point.spec_gl_enum(),
            renderbuffer_target: 0x8D41,
            renderbuffer: renderbuffer,
        },
    }
}

/// The attach commands for the three attachment points in turn (color,
/// depth, stencil), for each point that has an attachment.
pub open spec fn spec_attach_commands(
    color: Option<BuilderAttachment>,
    depth: Option<BuilderAttachment>,
    stencil: Option<BuilderAttachment>,
) -> Seq<GlCommandView> {
    (match color {
        Some(a) => seq![spec_attach_command(FramebufferAttachment::ColorAttachment0, a)],
        None => Seq::empty(),
    }) + (match depth {
        Some(a) => seq![spec_attach_command(FramebufferAttachment::DepthAttachment, a)],
        None => Seq::empty(),
    }) + (match stencil {
        Some(a) => seq![spec_attach_command(FramebufferAttachment::StencilAttachment, a)],
        None => Seq::empty(),
    })
}

/// Whether a command attaches something to attachment point `point` (by
/// its raw value) of the bound framebuffer.
pub open spec fn attaches_to(point: u32) -> spec_fn(GlCommandView) -> bool {
    |c: GlCommandView| match c {
        GlCommandView::FramebufferTexture2D { attachment, .. } => attachment == point,
        GlCommandView::FramebufferRenderbuffer { attachment, .. } => attachment == point,
        _ => false,
    }
}

/// The commands of `cmds` that attach something to attachment point
/// `point`, in order.
pub open spec fn attach_commands_to(cmds: Seq<GlCommandView>, point: u32) -> Seq<GlCommandView> {
    cmds.filter(attaches_to(point))
}

/// The commands that build a framebuffer attach to each attachment point
/// exactly what the builder holds for it: one `glFramebufferTexture2D` of
/// the texture and level, or one `glFramebufferRenderbuffer` of the
/// renderbuffer, on `GL_FRAMEBUFFER`, naming the point's raw value, and no
/// command for a point that holds nothing.
pub proof fn lemma_framebuffer_attachments<'a, C: FramebufferContext>(
    b: FramebufferBuilder<'a, C>,
    fbo: u32,
    point: FramebufferAttachment,
)
    ensures
        attach_commands_to(
            seq![GlCommandView::BindFramebuffer { target: 0x8D40, framebuffer: fbo }] + spec_attach_commands(
                b.spec_attachment(FramebufferAttachment::ColorAttachment0),
                b.spec_attachment(FramebufferAttachment::DepthAttachment),
                b.spec_attachment(FramebufferAttachment::StencilAttachment),
            ),
            point.spec_gl_enum(),
        ) == match b.spec_attachment(point) {
            Some(BuilderAttachment::Texture2d { texture, level }) => seq![
                GlCommandView::FramebufferTexture2D {
                    target: 0x8D40,
                    attachment: point.spec_gl_enum(),
                    tex_target: 0x0DE1,
                    texture: texture,
                    level: level,
                },
            ],
            Some(BuilderAttachment::Renderbuffer { renderbuffer }) => seq![
                GlCommandView::FramebufferRenderbuffer {
                    target: 0x8D40,
                    attachment: point.spec_gl_enum(),
                    renderbuffer_target: 0x8D41,
                    renderbuffer: renderbuffer,
                },
            ],
            None => Seq::<GlCommandView>::empty(),
        },
{
    let pred = attaches_to(point.spec_gl_enum());
    let bind = seq![GlCommandView::BindFramebuffer { target: 0x8D40, framebuffer: fbo }];
    let c0 = attach_slot(FramebufferAttachment::ColorAttachment0, b.spec_attachment(FramebufferAttachment::ColorAttachment0));
    let c1 = attach_slot(FramebufferAttachment::DepthAttachment, b.spec_attachment(FramebufferAttachment::DepthAttachment));
    let c2 = attach_slot(FramebufferAttachment::StencilAttachment, b.spec_attachment(FramebufferAttachment::StencilAttachment));
    assert(spec_attach_commands(
        b.spec_attachment(FramebufferAttachment::ColorAttachment0),
        b.spec_attachment(FramebufferAttachment::DepthAttachment),
        b.spec_attachment(FramebufferAttachment::StencilAttachment),
    ) == c0 + c1 + c2);
    lemma_filter_one(bind, pred);
    lemma_slot_filter(FramebufferAttachment::ColorAttachment0, b.spec_attachment(FramebufferAttachment::ColorAttachment0), point);
    lemma_slot_filter(FramebufferAttachment::DepthAttachment, b.spec_attachment(FramebufferAttachment::DepthAttachment), point);
    lemma_slot_filter(FramebufferAttachment::StencilAttachment, b.spec_attachment(FramebufferAttachment::StencilAttachment), point);
    Seq::filter_distributes_over_add(bind, c0, pred);
    Seq::filter_distributes_over_add(bind + c0, c1, pred);
    Seq::filter_distributes_over_add(bind + c0 + c1, c2, pred);
    assert(bind + (c0 + c1 + c2) =~= bind + c0 + c1 + c2);
    assert(bind.filter(pred) =~= Seq::<GlCommandView>::empty());
    let r = (bind + c0 + c1 + c2).filter(pred);
    assert(r =~= attach_slot(point, b.spec_attachment(point)));
}

/// The attach command for point `p`, if it holds `attached`.
spec fn attach_slot(p: FramebufferAttachment, attached: Option<BuilderAttachment>) -> Seq<GlCommandView> {
    match attached {
        Some(a) => seq![spec_attach_command(p, a)],
        None => Seq::<GlCommandView>::empty(),
    }
}

/// The commands for point `p` that attach to `point` are all of them if the
/// two points are the same, and none otherwise.
proof fn lemma_slot_filter(p: FramebufferAttachment, attached: Option<BuilderAttachment>, point: FramebufferAttachment)
    ensures
        attach_slot(p, attached).filter(attaches_to(point.spec_gl_enum())) == if p == point {
            attach_slot(p, attached)
        } else {
            Seq::<GlCommandView>::empty()
        },
{
    lemma_filter_one(attach_slot(p, attached), attaches_to(point.spec_gl_enum()));
}

/// Filtering a sequence of at most one command keeps it if it passes.
proof fn lemma_filter_one(s: Seq<GlCommandView>, pred: spec_fn(GlCommandView) -> bool)
    requires
        s.len() <= 1,
    ensures
        s.filter(pred) == (if s.len() == 1 && pred(s[0]) { s } else { Seq::<GlCommandView>::empty() }),
{
    reveal_with_fuel(Seq::filter, 2);
    if s.len() == 1 {
        assert(s.drop_last() =~= Seq::<GlCommandView>::empty());
    }
}

/// Push the attach command for one attachment point, if it has an attachment.
fn push_attach_command(commands: &mut Vec<GlCommand>, point: FramebufferAttachment, attached: Option<BuilderAttachment>)
    ensures
        command_views(final(commands)@) == command_views(old(commands)@) + match attached {
            Some(a) => seq![spec_attach_command(point, a)],
            None => Seq::<GlCommandView>::empty(),
        },
{
    match attached {
        Some(BuilderAttachment::Texture2d { texture, level }) => {
            let c = framebuffer_texture_2d_command(point, crate::gl_consts::gl_texture_2d(), texture, level);
            commands.push(c);
        },
        Some(BuilderAttachment::Renderbuffer { renderbuffer }) => {
            let c = framebuffer_renderbuffer_command(point, renderbuffer);
            commands.push(c);
        },
        None => {},
    }
    assert(command_views(final(commands)@) =~= command_views(old(commands)@) + match attached {
        Some(a) => seq![spec_attach_command(point, a)],
        None => Seq::<GlCommandView>::empty(),
    });
}

/// Provides an interface for building a framebuffer object that is checked
/// to be framebuffer-complete. Each attachment point holds the last
/// attachment given for it.
pub struct FramebufferBuilder<'a, C: FramebufferContext> {
    gl: C,
    color: Option<BuilderAttachment>,
    depth: Option<BuilderAttachment>,
    stencil: Option<BuilderAttachment>,
    _borrows: PhantomData<&'a mut Texture2d>,
}

impl<'a, C: FramebufferContext> FramebufferBuilder<'a, C> {
    /// What the builder attaches to `point`, if anything.
    pub closed spec fn spec_attachment(&self, point: FramebufferAttachment) -> Option<BuilderAttachment> {
        match point {
            FramebufferAttachment::ColorAttachment0 => self.color,
            FramebufferAttachment::DepthAttachment => self.depth,
            FramebufferAttachment::StencilAttachment => self.stencil,
        }
    }

    /// Start a builder with no attachments.
    fn new(gl: C) -> (r: Self)
        ensures
            forall|p: FramebufferAttachment| r.spec_attachment(p) == None::<BuilderAttachment>,
    {
        FramebufferBuilder { gl: gl, color: None, depth: None, stencil: None, _borrows: PhantomData }
    }

    /// Set an attachment point, replacing any attachment it had.
    fn set(self, point: FramebufferAttachment, attached: BuilderAttachment) -> (r: Self)
        ensures
            r.spec_attachment(point) == Some(attached),
            forall|p: FramebufferAttachment| p != point ==> r.spec_attachment(p) == self.spec_attachment(p),
    {
        let mut b = self;
        match point {
            FramebufferAttachment::ColorAttachment0 => b.color = Some(attached),
            FramebufferAttachment::DepthAttachment => b.depth = Some(attached),
            FramebufferAttachment::StencilAttachment => b.stencil = Some(attached),
        }
        b
    }

    /// Attach mipmap level `level` of a 2D texture to an attachment point,
    /// replacing any attachment it had. `level` should be 0, or the
    /// framebuffer will not be complete.
    pub fn texture_2d(self, attachment: FramebufferAttachment, texture: &'a mut Texture2d, level: i32) -> (r: Self)
        ensures
            r.spec_attachment(attachment) == Some(BuilderAttachment::Texture2d { texture: old(texture).spec_id(), level: level }),
            forall|p: FramebufferAttachment| p != attachment ==> r.spec_attachment(p) == self.spec_attachment(p),
    {
        let id = texture.id();
        self.set(attachment, BuilderAttachment::Texture2d { texture: id, level: level })
    }

    /// Attach a renderbuffer to an attachment point, replacing any attachment
    /// it had.
    pub fn renderbuffer(self, attachment: FramebufferAttachment, renderbuffer: &'a mut Renderbuffer) -> (r: Self)
        ensures
            r.spec_attachment(attachment) == Some(BuilderAttachment::Renderbuffer { renderbuffer: old(renderbuffer).spec_id() }),
            forall|p: FramebufferAttachment| p != attachment ==> r.spec_attachment(p) == self.spec_attachment(p),
    {
        let id = renderbuffer.id();
        self.set(attachment, BuilderAttachment::Renderbuffer { renderbuffer: id })
    }

    /// Build the framebuffer `fbo` (a new framebuffer object, from
    /// `glGenFramebuffers`): the commands bind it and attach each attachment
    /// point in turn (color, depth, stencil). Run them, then query
    /// `glCheckFramebufferStatus(GL_FRAMEBUFFER)` and pass the status to
    /// [`FramebufferCheck::try_unwrap`](struct.FramebufferCheck.html#method.try_unwrap).
    pub fn try_unwrap(self, fbo: Framebuffer) -> (r: (Vec<GlCommand>, FramebufferCheck))
        ensures
            command_views(r.0@) == seq![GlCommandView::BindFramebuffer { target: 0x8D40, framebuffer: fbo.spec_id() }]
                + spec_attach_commands(
                self.spec_attachment(FramebufferAttachment::ColorAttachment0),
                self.spec_attachment(FramebufferAttachment::DepthAttachment),
                self.spec_attachment(FramebufferAttachment::StencilAttachment),
            ),
            r.1.spec_framebuffer_id() == fbo.spec_id(),
    {
        let mut fbo = fbo;
        let ghost id = fbo.spec_id();
        let mut commands: Vec<GlCommand> = Vec::new();
        let (_gl_fbo, _gl, bind) = self.gl.bind_framebuffer(&mut fbo);
        commands.push(bind);
        assert(command_views(commands@) =~= seq![GlCommandView::BindFramebuffer { target: 0x8D40, framebuffer: id }]);
        push_attach_command(&mut commands, FramebufferAttachment::ColorAttachment0, self.color);
        push_attach_command(&mut commands, FramebufferAttachment::DepthAttachment, self.depth);
        push_attach_command(&mut commands, FramebufferAttachment::StencilAttachment, self.stencil);
        (commands, FramebufferCheck { fbo: fbo })
    }
}

/// A framebuffer whose attachments have been set up, waiting for the result
/// of `glCheckFramebufferStatus`.
pub struct FramebufferCheck {
    fbo: Framebuffer,
}

impl FramebufferCheck {
    /// The ID of the framebuffer being built.
    pub closed spec fn spec_framebuffer_id(&self) -> u32 {
        self.fbo.spec_id()
    }

    /// Return the framebuffer if `status` (returned by
    /// `glCheckFramebufferStatus`) reports it complete, or the
    /// framebuffer-completeness error together with the command that deletes
    /// the incomplete framebuffer.
    pub fn try_unwrap(self, status: u32) -> (r: Result<Framebuffer, (GLError, GlCommand)>)
        ensures
            match spec_framebuffer_status_error(status) {
                None => r matches Ok(f) && f.spec_id() == self.spec_framebuffer_id(),
                Some(e) => r matches Err((err, c)) && err == GLError::FramebufferError(e)
                    && c@ == (GlCommandView::DeleteFramebuffer { framebuffer: self.spec_framebuffer_id() }),
            },
    {
        match framebuffer_status_error(status) {
            Some(e) => Err((GLError::from(e), self.fbo.delete())),
            None => Ok(self.fbo),
        }
    }

    /// Return the framebuffer; `status` (returned by
    /// `glCheckFramebufferStatus`) must report it complete.
    pub fn unwrap(self, status: u32) -> (r: Framebuffer)
        requires
            spec_framebuffer_status_error(status) is None,
        ensures
            r.spec_id() == self.spec_framebuffer_id(),
    {
        self.fbo
    }
}

/// The extension trait for contexts with a free framebuffer binding that adds
/// the `build_framebuffer` method.
pub trait ContextFramebufferBuilderExt: FramebufferContext + Sized {
    /// Create a new framebuffer builder, with no attachments.
    fn build_framebuffer<'a>(self) -> (r: FramebufferBuilder<'a, Self>)
        ensures
            forall|p: FramebufferAttachment| r.spec_attachment(p) == None::<BuilderAttachment>,
    {
        FramebufferBuilder::new(self)
    }
}

impl<C: FramebufferContext> ContextFramebufferBuilderExt for C {
}

/// An OpenGL context that has a free `GL_FRAMEBUFFER` binding.
pub trait FramebufferContext: AContext + Sized {
    /// The framebuffer binder that the context holds.
    type Binder;

    /// The OpenGL context that will be returned after binding a framebuffer.
    type Rest: AContext;

    /// Split the context into its framebuffer binder and the remaining
    /// context.
    fn split_framebuffer(self) -> (r: (Self::Binder, Self::Rest));

    /// Bind a framebuffer to this context's framebuffer target, returning a
    /// binding, the remaining context and the `glBindFramebuffer` command.
    fn bind_framebuffer<'a>(self, fbo: &'a mut Framebuffer) -> (r: (FramebufferBinding<'a>, Self::Rest, GlCommand))
        ensures
            r.2@ == (GlCommandView::BindFramebuffer { target: 0x8D40, framebuffer: old(fbo).spec_id() }),
            *final(fbo) == *old(fbo),
    {
        let (_binder, rest) = self.split_framebuffer();
        let (binding, command) = bind_framebuffer_target(fbo);
        (binding, rest, command)
    }
}

impl<B, F: BorrowBinder<FramebufferBinder>, P, R, T> FramebufferContext for ContextOf<B, F, P, R, T> {
    type Binder = F;
    type Rest = ContextOf<B, (), P, R, T>;

    fn split_framebuffer(self) -> (r: (F, Self::Rest))
        ensures
            r.0 == self.spec_framebuffer(),
            r.1.spec_buffers() == self.spec_buffers(),
            r.1.spec_program() == self.spec_program(),
            r.1.spec_renderbuffer() == self.spec_renderbuffer(),
            r.1.spec_tex_units() == self.spec_tex_units(),
    {
        self.swap_framebuffer(())
    }
}

impl<'b, B, F: BorrowBinder<FramebufferBinder>, P, R, T> FramebufferContext for &'b mut ContextOf<B, F, P, R, T> {
    type Binder = &'b mut F;
    type Rest = ContextOf<&'b mut B, (), &'b mut P, &'b mut R, &'b mut T>;

    fn split_framebuffer(self) -> (r: (&'b mut F, Self::Rest))
        ensures
            *r.0 == old(self).spec_framebuffer(),
            *r.1.spec_buffers() == old(self).spec_buffers(),
            *r.1.spec_program() == old(self).spec_program(),
            *r.1.spec_renderbuffer() == old(self).spec_renderbuffer(),
            *r.1.spec_tex_units() == old(self).spec_tex_units(),
            final(self).spec_framebuffer() == *final(r.0),
            final(self).spec_buffers() == *final(r.1.spec_buffers()),
            final(self).spec_program() == *final(r.1.spec_program()),
            final(self).spec_renderbuffer() == *final(r.1.spec_renderbuffer()),
            final(self).spec_tex_units() == *final(r.1.spec_tex_units()),
    {
        (
            &mut self.framebuffer,
            ContextOf {
                buffers: &mut self.buffers,
                framebuffer: (),
                program: &mut self.program,
                renderbuffer: &mut self.renderbuffer,
                tex_units: &mut self.tex_units,
            },
        )
    }
}

/// The `glBindFramebuffer` command that binds `fbo` to `GL_FRAMEBUFFER`,
/// with the binding it makes.
fn bind_framebuffer_target<'a>(fbo: &'a mut Framebuffer) -> (r: (FramebufferBinding<'a>, GlCommand))
    ensures
        r.1@ == (GlCommandView::BindFramebuffer { target: 0x8D40, framebuffer: old(fbo).spec_id() }),
        *final(fbo) == *old(fbo),
{
    let binding = FramebufferBinding { _phantom: PhantomData };
    let command = GlCommand::BindFramebuffer { target: binding.target().gl_enum(), framebuffer: fbo.id() };
    (binding, command)
}

/// Represents a framebuffer that has been bound to the `GL_FRAMEBUFFER`
/// target.
pub struct FramebufferBinding<'a> {
    _phantom: PhantomData<&'a mut Framebuffer>,
}

impl<'a> FramebufferBinding<'a> {
    /// The target the framebuffer is bound to.
    pub fn target(&self) -> (r: FramebufferTarget)
        ensures
            r == FramebufferTarget::Framebuffer,
    {
        FramebufferTarget::Framebuffer
    }
}

/// The OpenGL state representing the `GL_FRAMEBUFFER` target.
pub struct FramebufferBinder {
    _private: (),
}

impl FramebufferBinder {
    /// Get the current `GL_FRAMEBUFFER` binder. The same rules apply to this
    /// method as to [`ContextOf::current_context`](../struct.ContextOf.html#method.current_context).
    pub fn current() -> (r: Self) {
        FramebufferBinder { _private: () }
    }

    /// Get a binding for the framebuffer currently bound to `GL_FRAMEBUFFER`.
    /// It should not be used to make a binding that aliases another one.
    pub fn current_binding(&mut self) -> (r: FramebufferBinding) {
        FramebufferBinding { _phantom: PhantomData }
    }

    /// Bind a framebuffer to the `GL_FRAMEBUFFER` target, returning a binding
    /// and the `glBindFramebuffer` command.
    pub fn bind<'a>(&mut self, fbo: &'a mut Framebuffer) -> (r: (FramebufferBinding<'a>, GlCommand))
        ensures
            r.1@ == (GlCommandView::BindFramebuffer { target: 0x8D40, framebuffer: old(fbo).spec_id() }),
            *final(fbo) == *old(fbo),
    {
        bind_framebuffer_target(fbo)
    }
}

} // verus!
