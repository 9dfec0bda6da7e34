//! The OpenGL commands that the library asks a context to execute.
//!
//! Every operation of the library that would change OpenGL state returns the
//! commands it needs as [`GlCommand`](enum.GlCommand.html) values, with all of
//! their arguments computed. Running them against a live context is the
//! caller's part.

use vstd::prelude::*;

verus! {

/// A single OpenGL ES 2 command, with the raw values of its arguments.
#[derive(Debug, Clone, PartialEq, Eq)]
pub enum GlCommand {
    /// `glBindBuffer(target, buffer)`
    BindBuffer { target: u32, buffer: u32 },
    /// `glBufferData(target, data.len(), data, usage)`
    BufferData { target: u32, data: Vec<u8>, usage: u32 },
    /// `glVertexAttribPointer(index, size, ty, normalized, stride, offset)`,
    /// where `offset` is the byte offset into the bound array buffer.
    VertexAttribPointer { index: u32, size: i32, ty: u32, normalized: u8, stride: i32, offset: usize },
    /// `glEnableVertexAttribArray(index)`
    EnableVertexAttribArray { index: u32 },
    /// `glDrawArrays(mode, first, count)`
    DrawArrays { mode: u32, first: i32, count: i32 },
    /// `glDrawElements(mode, count, ty, indices)`: `indices` holds the bytes
    /// of a client-side index array, or is `None` to read the indices from
    /// the bound element array buffer.
    DrawElements { mode: u32, count: i32, ty: u32, indices: Option<Vec<u8>> },
    /// `glEnable(cap)`
    Enable { cap: u32 },
    /// `glDisable(cap)`
    Disable { cap: u32 },
    /// `glViewport(x, y, width, height)`
    Viewport { x: i32, y: i32, width: i32, height: i32 },
    /// `glClear(mask)`
    Clear { mask: u32 },
    /// `glBindFramebuffer(target, framebuffer)`
    BindFramebuffer { target: u32, framebuffer: u32 },
    /// `glFramebufferRenderbuffer(target, attachment, renderbuffer_target, renderbuffer)`
    FramebufferRenderbuffer { target: u32, attachment: u32, renderbuffer_target: u32, renderbuffer: u32 },
    /// `glFramebufferTexture2D(target, attachment, tex_target, texture, level)`
    FramebufferTexture2D { target: u32, attachment: u32, tex_target: u32, texture: u32, level: i32 },
    /// `glBindRenderbuffer(target, renderbuffer)`
    BindRenderbuffer { target: u32, renderbuffer: u32 },
    /// `glRenderbufferStorage(target, internalformat, width, height)`
    RenderbufferStorage { target: u32, internalformat: u32, width: i32, height: i32 },
    /// `glActiveTexture(texture)`
    ActiveTexture { texture: u32 },
    /// `glBindTexture(target, texture)`
    BindTexture { target: u32, texture: u32 },
    /// `glTexParameteriv(target, pname, &param)`
    TexParameteriv { target: u32, pname: u32, param: i32 },
    /// `glGenerateMipmap(target)`
    GenerateMipmap { target: u32 },
    /// `glTexImage2D(target, level, internal_format, width, height, border,
    /// format, ty, pixels)`: `pixels` is `None` for a null data pointer.
    TexImage2D {
        target: u32,
        level: i32,
        internal_format: i32,
        width: i32,
        height: i32,
        border: i32,
        format: u32,
        ty: u32,
        pixels: Option<Vec<u8>>,
    },
    /// `glShaderSource(shader, 1, &source, &source.len())`
    ShaderSource { shader: u32, source: String },
    /// `glCompileShader(shader)`
    CompileShader { shader: u32 },
    /// `glDeleteBuffers(1, &buffer)`
    DeleteBuffer { buffer: u32 },
    /// `glDeleteFramebuffers(1, &framebuffer)`
    DeleteFramebuffer { framebuffer: u32 },
    /// `glDeleteRenderbuffers(1, &renderbuffer)`
    DeleteRenderbuffer { renderbuffer: u32 },
    /// `glDeleteTextures(1, &texture)`
    DeleteTexture { texture: u32 },
    /// `glDeleteShader(shader)`
    DeleteShader { shader: u32 },
    /// `glDeleteProgram(program)`
    DeleteProgram { program: u32 },
}


/// A [`GlCommand`](enum.GlCommand.html) as a mathematical value: the same
/// command with its byte and text arguments taken as sequences.
pub enum GlCommandView {
    /// `glBindBuffer(target, buffer)`
    BindBuffer { target: u32, buffer: u32 },
    /// `glBufferData(target, data.len(), data, usage)`
    BufferData { target: u32, data: Seq<u8>, usage: u32 },
    /// `glVertexAttribPointer(index, size, ty, normalized, stride, offset)`,
    /// where `offset` is the byte offset into the bound array buffer.
    VertexAttribPointer { index: u32, size: i32, ty: u32, normalized: u8, stride: i32, offset: usize },
    /// `glEnableVertexAttribArray(index)`
    EnableVertexAttribArray { index: u32 },
    /// `glDrawArrays(mode, first, count)`
    DrawArrays { mode: u32, first: i32, count: i32 },
    /// `glDrawElements(mode, count, ty, indices)`: `indices` holds the bytes
    /// of a client-side index array, or is `None` to read the indices from
    /// the bound element array buffer.
    DrawElements { mode: u32, count: i32, ty: u32, indices: Option<Seq<u8>> },
    /// `glEnable(cap)`
    Enable { cap: u32 },
    /// `glDisable(cap)`
    Disable { cap: u32 },
    /// `glViewport(x, y, width, height)`
    Viewport { x: i32, y: i32, width: i32, height: i32 },
    /// `glClear(mask)`
    Clear { mask: u32 },
    /// `glBindFramebuffer(target, framebuffer)`
    BindFramebuffer { target: u32, framebuffer: u32 },
    /// `glFramebufferRenderbuffer(target, attachment, renderbuffer_target, renderbuffer)`
    FramebufferRenderbuffer { target: u32, attachment: u32, renderbuffer_target: u32, renderbuffer: u32 },
    /// `glFramebufferTexture2D(target, attachment, tex_target, texture, level)`
    FramebufferTexture2D { target: u32, attachment: u32, tex_target: u32, texture: u32, level: i32 },
    /// `glBindRenderbuffer(target, renderbuffer)`
    BindRenderbuffer { target: u32, renderbuffer: u32 },
    /// `glRenderbufferStorage(target, internalformat, width, height)`
    RenderbufferStorage { target: u32, internalformat: u32, width: i32, height: i32 },
    /// `glActiveTexture(texture)`
    ActiveTexture { texture: u32 },
    /// `glBindTexture(target, texture)`
    BindTexture { target: u32, texture: u32 },
    /// `glTexParameteriv(target, pname, &param)`
    TexParameteriv { target: u32, pname: u32, param: i32 },
    /// `glGenerateMipmap(target)`
    GenerateMipmap { target: u32 },
    /// `glTexImage2D(target, level, internal_format, width, height, border,
    /// format, ty, pixels)`: `pixels` is `None` for a null data pointer.
    TexImage2D {
        target: u32,
        level: i32,
        internal_format: i32,
        width: i32,
        height: i32,
        border: i32,
        format: u32,
        ty: u32,
        pixels: Option<Seq<u8>>,
    },
    /// `glShaderSource(shader, 1, &source, &source.len())`
    ShaderSource { shader: u32, source: Seq<char> },
    /// `glCompileShader(shader)`
    CompileShader { shader: u32 },
    /// `glDeleteBuffers(1, &buffer)`
    DeleteBuffer { buffer: u32 },
    /// `glDeleteFramebuffers(1, &framebuffer)`
    DeleteFramebuffer { framebuffer: u32 },
    /// `glDeleteRenderbuffers(1, &renderbuffer)`
    DeleteRenderbuffer { renderbuffer: u32 },
    /// `glDeleteTextures(1, &texture)`
    DeleteTexture { texture: u32 },
    /// `glDeleteShader(shader)`
    DeleteShader { shader: u32 },
    /// `glDeleteProgram(program)`
    DeleteProgram { program: u32 },
}

impl View for GlCommand {
    type V = GlCommandView;

    open spec fn view(&self) -> GlCommandView {
        match self {
            GlCommand::BindBuffer { target, buffer } => GlCommandView::BindBuffer { target: *target, buffer: *buffer },
            GlCommand::BufferData { target, data, usage } => GlCommandView::BufferData { target: *target, data: data@, usage: *usage },
            GlCommand::VertexAttribPointer { index, size, ty, normalized, stride, offset } => GlCommandView::VertexAttribPointer { index: *index, size: *size, ty: *ty, normalized: *normalized, stride: *stride, offset: *offset },
            GlCommand::EnableVertexAttribArray { index } => GlCommandView::EnableVertexAttribArray { index: *index },
            GlCommand::DrawArrays { mode, first, count } => GlCommandView::DrawArrays { mode: *mode, first: *first, count: *count },
            GlCommand::DrawElements { mode, count, ty, indices } => GlCommandView::DrawElements { mode: *mode, count: *count, ty: *ty, indices: match indices { Some(v) => Some(v@), None => None } },
            GlCommand::Enable { cap } => GlCommandView::Enable { cap: *cap },
            GlCommand::Disable { cap } => GlCommandView::Disable { cap: *cap },
            GlCommand::Viewport { x, y, width, height } => GlCommandView::Viewport { x: *x, y: *y, width: *width, height: *height },
            GlCommand::Clear { mask } => GlCommandView::Clear { mask: *mask },
            GlCommand::BindFramebuffer { target, framebuffer } => GlCommandView::BindFramebuffer { target: *target, framebuffer: *framebuffer },
            GlCommand::FramebufferRenderbuffer { target, attachment, renderbuffer_target, renderbuffer } => GlCommandView::FramebufferRenderbuffer { target: *target, attachment: *attachment, renderbuffer_target: *renderbuffer_target, renderbuffer: *renderbuffer },
            GlCommand::FramebufferTexture2D { target, attachment, tex_target, texture, level } => GlCommandView::FramebufferTexture2D { target: *target, attachment: *attachment, tex_target: *tex_target, texture: *texture, level: *level },
            GlCommand::BindRenderbuffer { target, renderbuffer } => GlCommandView::BindRenderbuffer { target: *target, renderbuffer: *renderbuffer },
            GlCommand::RenderbufferStorage { target, internalformat, width, height } => GlCommandView::RenderbufferStorage { target: *target, internalformat: *internalformat, width: *width, height: *height },
            GlCommand::ActiveTexture { texture } => GlCommandView::ActiveTexture { texture: *texture },
            GlCommand::BindTexture { target, texture } => GlCommandView::BindTexture { target: *target, texture: *texture },
            GlCommand::TexParameteriv { target, pname, param } => GlCommandView::TexParameteriv { target: *target, pname: *pname, param: *param },
            GlCommand::GenerateMipmap { target } => GlCommandView::GenerateMipmap { target: *target },
            GlCommand::TexImage2D { target, level, internal_format, width, height, border, format, ty, pixels } => GlCommandView::TexImage2D { target: *target, level: *level, internal_format: *internal_format, width: *width, height: *height, border: *border, format: *format, ty: *ty, pixels: match pixels { Some(v) => Some(v@), None => None } },
            GlCommand::ShaderSource { shader, source } => GlCommandView::ShaderSource { shader: *shader, source: source@ },
            GlCommand::CompileShader { shader } => GlCommandView::CompileShader { shader: *shader },
            GlCommand::DeleteBuffer { buffer } => GlCommandView::DeleteBuffer { buffer: *buffer },
            GlCommand::DeleteFramebuffer { framebuffer } => GlCommandView::DeleteFramebuffer { framebuffer: *framebuffer },
            GlCommand::DeleteRenderbuffer { renderbuffer } => GlCommandView::DeleteRenderbuffer { renderbuffer: *renderbuffer },
            GlCommand::DeleteTexture { texture } => GlCommandView::DeleteTexture { texture: *texture },
            GlCommand::DeleteShader { shader } => GlCommandView::DeleteShader { shader: *shader },
            GlCommand::DeleteProgram { program } => GlCommandView::DeleteProgram { program: *program },
        }
    }
}

/// The views of a sequence of commands.
pub open spec fn command_views(cmds: Seq<GlCommand>) -> Seq<GlCommandView> {
    cmds.map_values(|c: GlCommand| c@)
}

} // verus!
