//! A type-safe OpenGL ES 2 abstraction whose rules are checked by Verus.
//!
//! The library computes every OpenGL command that the wrapped API issues as a
//! [`GlCommand`](command/enum.GlCommand.html) value, together with the
//! bookkeeping (bindings, counts, builder decisions) around it. Executing the
//! commands against a live OpenGL context is left to the caller.

pub mod gl_consts;
pub mod types;
pub mod command;
pub mod buffer;
pub mod framebuffer;
pub mod renderbuffer;
pub mod program;
pub mod texture;
pub mod image_data;
pub mod native_bytes;
pub mod index_data;
pub mod vertex_data;
pub mod uniform_data;
pub mod context;
pub mod vertex_buffer;
pub mod shader;
pub mod to_ref;
pub mod ref_into;
pub mod cgmath_vertex_data;
pub mod nalgebra_uniform_data;
