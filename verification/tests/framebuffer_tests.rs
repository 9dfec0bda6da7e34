use glitter::command::GlCommand;
use glitter::context::Context;
use glitter::context::framebuffer_context::{
    ContextFramebufferBuilderExt, ContextFramebufferExt, FramebufferAttachment, FramebufferContext,
    COLOR_ATTACHMENT0, DEPTH_ATTACHMENT,
};
use glitter::context::renderbuffer_context::{ContextRenderbufferBuilderExt, ContextRenderbufferExt, RenderbufferContext};
use glitter::framebuffer::Framebuffer;
use glitter::image_data::{DEPTH_COMPONENT16, RGBA4};
use glitter::renderbuffer::Renderbuffer;
use glitter::texture::Texture2d;
use glitter::types::{BufferBits, GLError, GLFramebufferError, GLObject};

#[test]
fn framebuffer_attachment_values() {
    assert_eq!(COLOR_ATTACHMENT0.gl_enum(), 0x8CE0);
    assert_eq!(DEPTH_ATTACHMENT.gl_enum(), 0x8D00);
    assert_eq!(FramebufferAttachment::StencilAttachment.gl_enum(), 0x8D20);
    assert_eq!(FramebufferAttachment::from_gl(0x8D00), Ok(DEPTH_ATTACHMENT));
}

#[test]
fn framebuffer_builder_commands_and_complete_status() {
    let gl = Context::current_context();
    let mut texture = Texture2d::from_raw(3);
    let mut rbo = Renderbuffer::from_raw(4);
    let (cmds, check) = gl
        .build_framebuffer()
        .texture_2d(COLOR_ATTACHMENT0, &mut texture, 0)
        .renderbuffer(DEPTH_ATTACHMENT, &mut rbo)
        .try_unwrap(Framebuffer::from_raw(2));
    assert_eq!(
        cmds,
        vec![
            GlCommand::BindFramebuffer { target: 0x8D40, framebuffer: 2 },
            GlCommand::FramebufferTexture2D { target: 0x8D40, attachment: 0x8CE0, tex_target: 0x0DE1, texture: 3, level: 0 },
            GlCommand::FramebufferRenderbuffer { target: 0x8D40, attachment: 0x8D00, renderbuffer_target: 0x8D41, renderbuffer: 4 },
        ]
    );
    let fbo = check.try_unwrap(0x8CD5).ok().unwrap();
    assert_eq!(fbo.id(), 2);
}

#[test]
fn framebuffer_builder_last_attachment_wins() {
    let gl = Context::current_context();
    let mut a = Renderbuffer::from_raw(4);
    let mut b = Renderbuffer::from_raw(5);
    let (cmds, _check) = gl
        .build_framebuffer()
        .renderbuffer(COLOR_ATTACHMENT0, &mut a)
        .renderbuffer(COLOR_ATTACHMENT0, &mut b)
        .try_unwrap(Framebuffer::from_raw(2));
    assert_eq!(cmds.len(), 2);
    assert_eq!(
        cmds[1],
        GlCommand::FramebufferRenderbuffer { target: 0x8D40, attachment: 0x8CE0, renderbuffer_target: 0x8D41, renderbuffer: 5 }
    );
}

#[test]
fn framebuffer_incomplete_status_errors() {
    let statuses = [
        (0x8CD6, GLFramebufferError::IncompleteAttachment),
        (0x8CD7, GLFramebufferError::IncompleteMissingAttachment),
        (0x8CD9, GLFramebufferError::IncompleteDimensions),
        (0x8CDD, GLFramebufferError::Unsupported),
        (0, GLFramebufferError::Unsupported),
    ];
    for &(status, expected) in statuses.iter() {
        let gl = Context::current_context();
        let (_cmds, check) = gl.build_framebuffer().try_unwrap(Framebuffer::from_raw(2));
        match check.try_unwrap(status) {
            Err((GLError::FramebufferError(e), delete)) => {
                assert_eq!(e, expected);
                assert_eq!(delete, GlCommand::DeleteFramebuffer { framebuffer: 2 });
            },
            _ => panic!("expected a framebuffer error"),
        }
    }
}

#[test]
fn check_framebuffer_status_maps_codes() {
    let gl = Context::current_context();
    let mut fbo = Framebuffer::from_raw(1);
    let (gl_fbo, gl, bind) = gl.bind_framebuffer(&mut fbo);
    assert_eq!(bind, GlCommand::BindFramebuffer { target: 0x8D40, framebuffer: 1 });
    assert_eq!(gl.check_framebuffer_status(&gl_fbo, 0x8CD5), None);
    assert_eq!(gl.check_framebuffer_status(&gl_fbo, 0x8CDD), Some(GLFramebufferError::Unsupported));
    assert_eq!(gl.check_framebuffer_status(&gl_fbo, 0x8CD9), Some(GLFramebufferError::IncompleteDimensions));
    assert_eq!(gl.check_framebuffer_status(&gl_fbo, 0x8CD6), Some(GLFramebufferError::IncompleteAttachment));
    assert_eq!(gl.check_framebuffer_status(&gl_fbo, 0x8CD7), Some(GLFramebufferError::IncompleteMissingAttachment));
    assert_eq!(gl.check_framebuffer_status(&gl_fbo, 0x8219), Some(GLFramebufferError::Unsupported));
    assert_eq!(gl.check_framebuffer_status(&gl_fbo, 0), Some(GLFramebufferError::Unsupported));
    assert_eq!(gl.clear(BufferBits::all()), GlCommand::Clear { mask: 0x4500 });
}

#[test]
fn renderbuffer_builder_with_storage() {
    let gl = Context::current_context();
    let (cmds, rbo) = gl.build_renderbuffer().storage(DEPTH_COMPONENT16, 64, 32).unwrap(Renderbuffer::from_raw(7));
    assert_eq!(rbo.id(), 7);
    assert_eq!(
        cmds,
        vec![
            GlCommand::BindRenderbuffer { target: 0x8D41, renderbuffer: 7 },
            GlCommand::RenderbufferStorage { target: 0x8D41, internalformat: 0x81A5, width: 64, height: 32 },
        ]
    );
}

#[test]
fn renderbuffer_builder_without_storage_fails() {
    let gl = Context::current_context();
    let (cmds, result) = gl.build_renderbuffer().try_unwrap(Renderbuffer::from_raw(7));
    assert_eq!(cmds, vec![GlCommand::DeleteRenderbuffer { renderbuffer: 7 }]);
    match result {
        Err(GLError::Message(m)) => assert_eq!(m, "Error building renderbuffer: no format or dimensions provided"),
        _ => panic!("expected an error"),
    }
}

#[test]
fn renderbuffer_storage_command() {
    let gl = Context::current_context();
    let mut rbo = Renderbuffer::from_raw(9);
    let (mut gl_rbo, gl, _) = gl.bind_renderbuffer(&mut rbo);
    assert_eq!(
        gl.storage(&mut gl_rbo, RGBA4, 8, 8),
        GlCommand::RenderbufferStorage { target: 0x8D41, internalformat: 0x8056, width: 8, height: 8 }
    );
}

#[test]
fn builders_on_borrowed_context() {
    let mut gl = Context::current_context();
    let (cmds, rbo) = (&mut gl).build_renderbuffer().storage(RGBA4, 2, 2).unwrap(Renderbuffer::from_raw(40));
    assert_eq!(rbo.id(), 40);
    assert_eq!(cmds.len(), 2);
    let mut rbo = rbo;
    let (cmds, check) = (&mut gl)
        .build_framebuffer()
        .renderbuffer(COLOR_ATTACHMENT0, &mut rbo)
        .try_unwrap(Framebuffer::from_raw(41));
    assert_eq!(cmds[0], GlCommand::BindFramebuffer { target: 0x8D40, framebuffer: 41 });
    assert_eq!(check.unwrap(0x8CD5).id(), 41);
    let mut fbo = Framebuffer::from_raw(42);
    let (_binding, _rest, bind) = gl.bind_framebuffer(&mut fbo);
    assert_eq!(bind, GlCommand::BindFramebuffer { target: 0x8D40, framebuffer: 42 });
}
