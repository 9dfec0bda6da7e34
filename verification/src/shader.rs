//! OpenGL shader objects, and the decisions taken around compiling them.

use vstd::prelude::*;
use crate::command::{GlCommand, GlCommandView};
use crate::context::Context;
use crate::gl_consts::{gl_fragment_shader, gl_vertex_shader};
use crate::types::GLError;
use vstd::utf8::{decode_utf8, valid_utf8};

verus! {

/// An OpenGL shader object.
pub struct Shader {
    gl_id: u32,
}

impl Shader {
    /// The shader's OpenGL name.
    pub closed spec fn spec_gl_id(&self) -> u32 {
        self.gl_id
    }

    /// Get the shader's OpenGL name.
    pub fn gl_id(&self) -> (r: u32)
        ensures
            r == self.spec_gl_id(),
    {
        self.gl_id
    }

    /// The command that deletes the object; OpenGL frees the object's
    /// resources once it runs.
    pub fn delete(self) -> (c: GlCommand)
        ensures
            c == (GlCommand::DeleteShader { shader: self.spec_gl_id() }),
    {
        GlCommand::DeleteShader { shader: self.gl_id }
    }
}

/// `String::from_utf8`: the text that `bytes` encode in UTF-8, or `None`
/// where they are not valid UTF-8. The contract claims that the standard
/// library accepts exactly the valid UTF-8 byte sequences, and decodes them
/// to the characters they encode.
#[verifier::external_body]
fn string_from_utf8(bytes: Vec<u8>) -> (r: Option<String>)
    ensures
        r is Some <==> valid_utf8(bytes@),
        r matches Some(s) ==> s@ == decode_utf8(bytes@),
{
    match String::from_utf8(bytes) {
        Ok(s) => Some(s),
        Err(_) => None,
    }
}

/// The message of a failed compile whose info log could not be read.
pub open spec fn unknown_shader_error() -> Seq<char> {
    "[Unknown shader error]"@
}

/// The bytes of an info log of `info_length` bytes (the terminating null
/// byte included) that OpenGL wrote into `log`: all but that null byte, as
/// far as `log` holds them.
pub open spec fn info_log_bytes(info_length: i32, log: Seq<u8>) -> Seq<u8> {
    if info_length - 1 <= log.len() {
        log.subrange(0, info_length - 1)
    } else {
        log
    }
}

/// The text of an info log, if it has any and it is valid UTF-8.
pub open spec fn info_log_text(info_length: i32, log: Seq<u8>) -> Option<Seq<char>> {
    if info_length > 0 && valid_utf8(info_log_bytes(info_length, log)) {
        Some(decode_utf8(info_log_bytes(info_length, log)))
    } else {
        None
    }
}

impl Context {
    /// Wrap the shader object `id` that `glCreateShader` returned for a
    /// shader of type `shader_type`. OpenGL returns 0 when it fails to create
    /// the shader, which gives an error.
    pub fn create_shader(&self, shader_type: ShaderType, id: u32) -> (r: Result<Shader, ()>)
        ensures
            r is Ok <==> id > 0,
            r matches Ok(s) ==> s.spec_gl_id() == id,
    {
        if id > 0 {
            Ok(Shader { gl_id: id })
        } else {
            Err(())
        }
    }

    /// Set the source code of a shader (`glShaderSource`).
    pub fn shader_source(&self, shader: &mut Shader, source: &str) -> (c: GlCommand)
        ensures
            *final(shader) == *old(shader),
            c@ == (GlCommandView::ShaderSource { shader: old(shader).spec_gl_id(), source: source@ }),
    {
        GlCommand::ShaderSource { shader: shader.gl_id, source: source.to_owned() }
    }

    /// The command that compiles a shader (`glCompileShader`).
    pub fn compile_shader_command(&self, shader: &Shader) -> (c: GlCommand)
        ensures
            c == (GlCommand::CompileShader { shader: shader.spec_gl_id() }),
    {
        GlCommand::CompileShader { shader: shader.gl_id }
    }

    /// The outcome of compiling a shader, from the `GL_COMPILE_STATUS` that
    /// `glGetShaderiv` gave after the compile and the shader's info log
    /// (see [`get_shader_info_log`](#method.get_shader_info_log)). A failed
    /// compile gives the info log as its message.
    pub fn compile_shader(&self, shader: &mut Shader, compile_status: i32, info_log: Option<String>) -> (r: Result<(), GLError>)
        ensures
            *final(shader) == *old(shader),
            r is Ok <==> compile_status == 1,
            r matches Err(e) ==> e matches GLError::Message(m) && m@ == match info_log {
                Some(s) => s@,
                None => unknown_shader_error(),
            },
    {
        if compile_status == gl_true_i32() {
            Ok(())
        } else {
            let msg = match info_log {
                Some(s) => s,
                None => "[Unknown shader error]".to_owned(),
            };
            proof {
                reveal_strlit("[Unknown shader error]");
            }
            Err(GLError::Message(msg))
        }
    }

    /// The info log of a shader, from the `GL_INFO_LOG_LENGTH` that
    /// `glGetShaderiv` gave and the bytes that `glGetShaderInfoLog` wrote:
    /// `None` if the log is empty or not valid UTF-8.
    pub fn get_shader_info_log(&self, shader: &Shader, info_length: i32, log: Vec<u8>) -> (r: Option<String>)
        ensures
            match info_log_text(info_length, log@) {
                Some(t) => r matches Some(s) && s@ == t,
                None => r is None,
            },
    {
        if info_length > 0 {
            let mut bytes = log;
            bytes.truncate((info_length - 1) as usize);
            string_from_utf8(bytes)
        } else {
            None
        }
    }
}

/// `GL_TRUE` as OpenGL's signed integer type, as `glGetShaderiv` reports it.
fn gl_true_i32() -> (r: i32)
    ensures
        r == 1,
{
    crate::gl_consts::gl_true() as i32
}

/// The types of OpenGL shader objects.
#[derive(Debug, Clone, Copy, PartialEq, Eq, Hash, Structural)]
pub enum ShaderType {
    /// A vertex shader.
    VertexShader,
    /// A fragment shader.
    FragmentShader,
}

/// The `ShaderType::VertexShader` variant, named as the OpenGL constant `GL_VERTEX_SHADER`.
pub const VERTEX_SHADER: ShaderType = ShaderType::VertexShader;

/// The `ShaderType::FragmentShader` variant, named as the OpenGL constant `GL_FRAGMENT_SHADER`.
pub const FRAGMENT_SHADER: ShaderType = ShaderType::FragmentShader;

impl ShaderType {
    /// Each variant's raw value is the OpenGL registry's value of the
    /// constant that the variant is named after (the value that the
    /// matching `gl_consts` wrapper returns), so no two variants trade places.
    pub proof fn lemma_registry_values()
        ensures
            (ShaderType::VertexShader).spec_gl_enum() == 0x8B31,
            (ShaderType::FragmentShader).spec_gl_enum() == 0x8B30,
    {
    }

    /// The raw OpenGL value of each variant.
    pub open spec fn spec_gl_enum(self) -> u32 {
        match self {
            ShaderType::VertexShader => 0x8B31,
            ShaderType::FragmentShader => 0x8B30,
        }
    }

    /// The variant whose raw OpenGL value is `value`, if there is one.
    pub open spec fn spec_from_gl(value: u32) -> Result<ShaderType, ()> {
        if value == 0x8B31 {
            Ok(ShaderType::VertexShader)
        } else if value == 0x8B30 {
            Ok(ShaderType::FragmentShader)
        } else {
            Err(())
        }
    }

    /// Convert from a raw OpenGL integer value to an enum variant.
    /// Returns an error if the value is not a valid enum variant.
    pub fn from_gl(gl_enum: u32) -> (r: Result<Self, ()>)
        ensures
            r == Self::spec_from_gl(gl_enum),
    {
        if gl_enum == gl_vertex_shader() {
            Ok(ShaderType::VertexShader)
        } else if gl_enum == gl_fragment_shader() {
            Ok(ShaderType::FragmentShader)
        } else {
            Err(())
        }
    }

    /// Return the OpenGL integer value for a given enum variant.
    pub fn gl_enum(&self) -> (r: u32)
        ensures
            r == self.spec_gl_enum(),
    {
        match *self {
            ShaderType::VertexShader => gl_vertex_shader(),
            ShaderType::FragmentShader => gl_fragment_shader(),
        }
    }

    /// Converting a variant to its raw value and back gives the same
    /// variant, and a raw value that converts to a variant is that
    /// variant's raw value.
    pub proof fn lemma_gl_enum_round_trip(x: Self, value: u32)
        ensures
            Self::spec_from_gl(x.spec_gl_enum()) == Ok::<Self, ()>(x),
            Self::spec_from_gl(value) matches Ok(y) ==> y.spec_gl_enum() == value,
    {
    }
}


} // verus!
