//! The OpenGL state types related to buffer objects.

use vstd::prelude::*;
use std::marker::PhantomData;
use crate::buffer::{Buffer, BufferBindingTarget, BufferDataUsage};
use crate::command::{GlCommand, GlCommandView};
use crate::context::{AContext, BaseContext, BorrowBinder, ContextOf};
use crate::gl_consts::{gl_false, gl_true, gl_unsigned_byte, gl_unsigned_short};
use crate::index_data::{IndexData, IndexDatum, IndexDatumType};
use crate::program::ProgramAttrib;
use crate::to_ref::{ToMut, ToRef};
use crate::types::{DataType, DrawingMode, GLObject};
use crate::vertex_data::{gl_integer_range, gl_integer_size};

verus! {

/// The raw OpenGL type of an index datum type.
pub open spec fn index_type_gl_enum(index_type: IndexDatumType) -> u32 {
    match index_type {
        IndexDatumType::UnsignedByte => 0x1401,
        IndexDatumType::UnsignedShort => 0x1403,
    }
}

/// The OpenGL type that indexed drawing names for each index type is the
/// one with the Rust index type's signedness and width: its values are
/// exactly those of `u8` or `u16`, each taking as many bytes as the Rust
/// type and as the index type's own size.
pub proof fn lemma_index_types()
    ensures
        gl_integer_range(index_type_gl_enum(<u8 as IndexDatum>::spec_index_datum_type())) == Some((u8::MIN as int, u8::MAX as int)),
        gl_integer_range(index_type_gl_enum(<u16 as IndexDatum>::spec_index_datum_type())) == Some((u16::MIN as int, u16::MAX as int)),
        gl_integer_size(index_type_gl_enum(<u8 as IndexDatum>::spec_index_datum_type())) == vstd::layout::size_of::<u8>(),
        gl_integer_size(index_type_gl_enum(<u16 as IndexDatum>::spec_index_datum_type())) == vstd::layout::size_of::<u16>(),
        <u8 as IndexDatum>::spec_index_datum_type().spec_size() == vstd::layout::size_of::<u8>(),
        <u16 as IndexDatum>::spec_index_datum_type().spec_size() == vstd::layout::size_of::<u16>(),
{
    broadcast use vstd::layout::layout_of_primitives;
}

/// The `glDrawElements` command for `count` indices of type `index_type`,
/// read from `indices` or, when that is `None`, from the bound element
/// array buffer.
fn draw_elements_command(
    mode: DrawingMode,
    count: usize,
    index_type: IndexDatumType,
    indices: Option<Vec<u8>>,
) -> (c: GlCommand)
    ensures
        c@ == (GlCommandView::DrawElements {
            mode: mode.spec_gl_enum(),
            count: count as i32,
            ty: index_type_gl_enum(index_type),
            indices: match indices {
                Some(v) => Some(v@),
                None => None,
            },
        }),
{
    let gl_index_type = match index_type {
        IndexDatumType::UnsignedByte => gl_unsigned_byte(),
        IndexDatumType::UnsignedShort => gl_unsigned_short(),
    };
    GlCommand::DrawElements {
        mode: mode.gl_enum(),
        count: count as i32,
        ty: gl_index_type,
        indices: indices,
    }
}

/// The `glBindBuffer` command that binds `buffer` to `target`.
fn bind_buffer_command(target: BufferBindingTarget, buffer: &Buffer) -> (c: GlCommand)
    ensures
        c@ == (GlCommandView::BindBuffer { target: target.spec_gl_enum(), buffer: buffer.spec_id() }),
{
    GlCommand::BindBuffer { target: target.gl_enum(), buffer: buffer.id() }
}

/// The buffer-object-related OpenGL methods.
pub trait ContextBufferExt: BaseContext {
    /// Send data to a buffer object, replacing its contents (`glBufferData`).
    fn buffer_bytes<B: BufferBinding>(&self, gl_buffer: &mut B, bytes: &[u8], usage: BufferDataUsage) -> (c: GlCommand)
        ensures
            c@ == (GlCommandView::BufferData {
                target: old(gl_buffer).spec_target().spec_gl_enum(),
                data: bytes@,
                usage: usage.spec_gl_enum(),
            }),
    {
        GlCommand::BufferData {
            target: gl_buffer.target().gl_enum(),
            data: vstd::slice::slice_to_vec(bytes),
            usage: usage.gl_enum(),
        }
    }

    /// Specify how an array of vertex data will be treated while rendering
    /// (`glVertexAttribPointer`). `components` must be between 1 and 4. The
    /// buffer bound when the command runs must hold the data described, or a
    /// draw call may read uninitialized memory.
    fn vertex_attrib_pointer(
        &self,
        attrib: ProgramAttrib,
        components: i8,
        gl_type: DataType,
        normalized: bool,
        stride: usize,
        offset: usize,
    ) -> (c: GlCommand)
        requires
            1 <= components <= 4,
        ensures
            c@ == (GlCommandView::VertexAttribPointer {
                index: attrib.gl_index,
                size: components as i32,
                ty: gl_type.spec_gl_enum(),
                normalized: if normalized { 1u8 } else { 0u8 },
                stride: stride as i32,
                offset: offset,
            }),
    {
        let gl_normalized = if normalized { gl_true() } else { gl_false() };
        GlCommand::VertexAttribPointer {
            index: attrib.gl_index,
            size: components as i32,
            ty: gl_type.gl_enum(),
            normalized: gl_normalized,
            stride: stride as i32,
            offset: offset,
        }
    }

    /// Draw `count` vertices, starting at vertex `first`, from the array
    /// buffer binding (`glDrawArrays`). The vertex attributes must have been
    /// set up with [`vertex_attrib_pointer`](#method.vertex_attrib_pointer).
    fn draw_arrays_range(&self, _ab: &ArrayBufferBinding, mode: DrawingMode, first: u32, count: usize) -> (c: GlCommand)
        ensures
            c@ == (GlCommandView::DrawArrays {
                mode: mode.spec_gl_enum(),
                first: first as i32,
                count: count as i32,
            }),
    {
        GlCommand::DrawArrays { mode: mode.gl_enum(), first: first as i32, count: count as i32 }
    }

    /// Draw primitives whose vertex indices are read from the element array
    /// buffer binding (`glDrawElements` with a null offset).
    fn draw_n_elements_buffered(
        &self,
        _ab: &ArrayBufferBinding,
        _eab: &ElementArrayBufferBinding,
        mode: DrawingMode,
        count: usize,
        index_type: IndexDatumType,
    ) -> (c: GlCommand)
        ensures
            c@ == (GlCommandView::DrawElements {
                mode: mode.spec_gl_enum(),
                count: count as i32,
                ty: index_type_gl_enum(index_type),
                indices: None,
            }),
    {
        draw_elements_command(mode, count, index_type, None)
    }

    /// Draw primitives whose vertex indices are the first `count` of
    /// `indices` (`glDrawElements` with a client-side index array).
    fn draw_n_elements<I: IndexDatum>(&self, _ab: &ArrayBufferBinding, mode: DrawingMode, count: usize, indices: &[I]) -> (c: GlCommand)
        requires
            count <= indices@.len(),
        ensures
            c@ matches GlCommandView::DrawElements { mode: m, count: n, ty, indices: Some(bytes) } && m
                == mode.spec_gl_enum() && n == count as i32 && ty == index_type_gl_enum(
                I::spec_index_datum_type(),
            ) && indices.spec_index_bytes(bytes),
    {
        let bytes = indices.index_bytes();
        let index_type = I::index_datum_type();
        draw_elements_command(mode, count, index_type, Some(bytes))
    }

    /// Draw primitives whose vertex indices are all of `indices`.
    fn draw_elements<I: IndexDatum>(&self, _ab: &ArrayBufferBinding, mode: DrawingMode, indices: &[I]) -> (c: GlCommand)
        ensures
            c@ matches GlCommandView::DrawElements { mode: m, count: n, ty, indices: Some(bytes) } && m
                == mode.spec_gl_enum() && n == indices@.len() as i32 && ty == index_type_gl_enum(
                I::spec_index_datum_type(),
            ) && indices.spec_index_bytes(bytes),
    {
        self.draw_n_elements(_ab, mode, indices.len(), indices)
    }
}

impl<C: BaseContext> ContextBufferExt for C {
}

/// An OpenGL context that has a free `GL_ARRAY_BUFFER` binding.
pub trait ArrayBufferContext: AContext + Sized {
    /// The array buffer binder that the context holds.
    type Binder;

    /// The OpenGL context that will be returned after binding the array buffer.
    type Rest: AContext;

    /// Split this context into its array buffer binder and the remaining
    /// context.
    fn split_array_buffer(self) -> (r: (Self::Binder, Self::Rest));

    /// Bind a buffer to this context's array buffer, returning a binding, the
    /// remaining context and the `glBindBuffer` command.
    fn bind_array_buffer<'a>(self, buffer: &'a mut Buffer) -> (r: (ArrayBufferBinding<'a>, Self::Rest, GlCommand))
        ensures
            r.2@ == (GlCommandView::BindBuffer { target: 0x8892, buffer: old(buffer).spec_id() }),
            *final(buffer) == *old(buffer),
    {
        let (_binder, rest) = self.split_array_buffer();
        let (binding, command) = bind_array_buffer_target(buffer);
        (binding, rest, command)
    }
}

/// An OpenGL context that has a free `GL_ELEMENT_ARRAY_BUFFER` binding.
pub trait ElementArrayBufferContext: AContext + Sized {
    /// The element array buffer binder that the context holds.
    type Binder;

    /// The OpenGL context that will be returned after binding the element
    /// array buffer.
    type Rest: AContext;

    /// Split this context into its element array buffer binder and the
    /// remaining context.
    fn split_element_array_buffer(self) -> (r: (Self::Binder, Self::Rest));

    /// Bind a buffer to this context's element array buffer, returning a
    /// binding, the remaining context and the `glBindBuffer` command.
    fn bind_element_array_buffer<'a>(self, buffer: &'a mut Buffer) -> (r: (ElementArrayBufferBinding<'a>, Self::Rest, GlCommand))
        ensures
            r.2@ == (GlCommandView::BindBuffer { target: 0x8893, buffer: old(buffer).spec_id() }),
            *final(buffer) == *old(buffer),
    {
        let (_binder, rest) = self.split_element_array_buffer();
        let (binding, command) = bind_element_array_buffer_target(buffer);
        (binding, rest, command)
    }
}

impl<BA: BorrowBinder<ArrayBufferBinder>, BE, F, P, R, T> ArrayBufferContext for ContextOf<BufferBinderOf<BA, BE>, F, P, R, T> {
    type Binder = BA;
    type Rest = ContextOf<BufferBinderOf<(), BE>, F, P, R, T>;

    fn split_array_buffer(self) -> (r: (BA, Self::Rest))
        ensures
            r.0 == self.spec_buffers().spec_array(),
            r.1.spec_buffers().spec_element_array() == self.spec_buffers().spec_element_array(),
            r.1.spec_framebuffer() == self.spec_framebuffer(),
            r.1.spec_program() == self.spec_program(),
            r.1.spec_renderbuffer() == self.spec_renderbuffer(),
            r.1.spec_tex_units() == self.spec_tex_units(),
    {
        let (buffers, gl) = self.swap_buffers(());
        let (binder, rest_buffers) = buffers.swap_array(());
        let (_, gl) = gl.swap_buffers(rest_buffers);
        (binder, gl)
    }
}

impl<BA, BE: BorrowBinder<ElementArrayBufferBinder>, F, P, R, T> ElementArrayBufferContext for ContextOf<BufferBinderOf<BA, BE>, F, P, R, T> {
    type Binder = BE;
    type Rest = ContextOf<BufferBinderOf<BA, ()>, F, P, R, T>;

    fn split_element_array_buffer(self) -> (r: (BE, Self::Rest))
        ensures
            r.0 == self.spec_buffers().spec_element_array(),
            r.1.spec_buffers().spec_array() == self.spec_buffers().spec_array(),
            r.1.spec_framebuffer() == self.spec_framebuffer(),
            r.1.spec_program() == self.spec_program(),
            r.1.spec_renderbuffer() == self.spec_renderbuffer(),
            r.1.spec_tex_units() == self.spec_tex_units(),
    {
        let (buffers, gl) = self.swap_buffers(());
        let (binder, rest_buffers) = buffers.swap_element_array(());
        let (_, gl) = gl.swap_buffers(rest_buffers);
        (binder, gl)
    }
}

impl<'b, BA: BorrowBinder<ArrayBufferBinder>, BE, F, P, R, T> ArrayBufferContext for &'b mut ContextOf<BufferBinderOf<BA, BE>, F, P, R, T> {
    type Binder = &'b mut BA;
    type Rest = ContextOf<BufferBinderOf<(), &'b mut BE>, &'b mut F, &'b mut P, &'b mut R, &'b mut T>;

    fn split_array_buffer(self) -> (r: (&'b mut BA, Self::Rest))
        ensures
            *r.0 == old(self).spec_buffers().spec_array(),
            *r.1.spec_buffers().spec_element_array() == old(self).spec_buffers().spec_element_array(),
            *r.1.spec_framebuffer() == old(self).spec_framebuffer(),
            *r.1.spec_program() == old(self).spec_program(),
            *r.1.spec_renderbuffer() == old(self).spec_renderbuffer(),
            *r.1.spec_tex_units() == old(self).spec_tex_units(),
            final(self).spec_buffers().spec_array() == *final(r.0),
            final(self).spec_buffers().spec_element_array() == *final(r.1.spec_buffers().spec_element_array()),
            final(self).spec_framebuffer() == *final(r.1.spec_framebuffer()),
            final(self).spec_program() == *final(r.1.spec_program()),
            final(self).spec_renderbuffer() == *final(r.1.spec_renderbuffer()),
            final(self).spec_tex_units() == *final(r.1.spec_tex_units()),
    {
        (
            &mut self.buffers.array,
            ContextOf {
                buffers: BufferBinderOf { array: (), element_array: &mut self.buffers.element_array },
                framebuffer: &mut self.framebuffer,
                program: &mut self.program,
                renderbuffer: &mut self.renderbuffer,
                tex_units: &mut self.tex_units,
            },
        )
    }
}

impl<'b, BA, BE: BorrowBinder<ElementArrayBufferBinder>, F, P, R, T> ElementArrayBufferContext for &'b mut ContextOf<BufferBinderOf<BA, BE>, F, P, R, T> {
    type Binder = &'b mut BE;
    type Rest = ContextOf<BufferBinderOf<&'b mut BA, ()>, &'b mut F, &'b mut P, &'b mut R, &'b mut T>;

    fn split_element_array_buffer(self) -> (r: (&'b mut BE, Self::Rest))
        ensures
            *r.0 == old(self).spec_buffers().spec_element_array(),
            *r.1.spec_buffers().spec_array() == old(self).spec_buffers().spec_array(),
            *r.1.spec_framebuffer() == old(self).spec_framebuffer(),
            *r.1.spec_program() == old(self).spec_program(),
            *r.1.spec_renderbuffer() == old(self).spec_renderbuffer(),
            *r.1.spec_tex_units() == old(self).spec_tex_units(),
            final(self).spec_buffers().spec_element_array() == *final(r.0),
            final(self).spec_buffers().spec_array() == *final(r.1.spec_buffers().spec_array()),
            final(self).spec_framebuffer() == *final(r.1.spec_framebuffer()),
            final(self).spec_program() == *final(r.1.spec_program()),
            final(self).spec_renderbuffer() == *final(r.1.spec_renderbuffer()),
            final(self).spec_tex_units() == *final(r.1.spec_tex_units()),
    {
        (
            &mut self.buffers.element_array,
            ContextOf {
                buffers: BufferBinderOf { array: &mut self.buffers.array, element_array: () },
                framebuffer: &mut self.framebuffer,
                program: &mut self.program,
                renderbuffer: &mut self.renderbuffer,
                tex_units: &mut self.tex_units,
            },
        )
    }
}

/// The `glBindBuffer` command that binds `buffer` to `GL_ARRAY_BUFFER`, with
/// the binding it makes.
fn bind_array_buffer_target<'a>(buffer: &'a mut Buffer) -> (r: (ArrayBufferBinding<'a>, GlCommand))
    ensures
        r.1@ == (GlCommandView::BindBuffer { target: 0x8892, buffer: old(buffer).spec_id() }),
        *final(buffer) == *old(buffer),
{
    let binding = ArrayBufferBinding { _phantom: PhantomData };
    let command = bind_buffer_command(binding.target(), buffer);
    (binding, command)
}

/// The `glBindBuffer` command that binds `buffer` to
/// `GL_ELEMENT_ARRAY_BUFFER`, with the binding it makes.
fn bind_element_array_buffer_target<'a>(buffer: &'a mut Buffer) -> (r: (ElementArrayBufferBinding<'a>, GlCommand))
    ensures
        r.1@ == (GlCommandView::BindBuffer { target: 0x8893, buffer: old(buffer).spec_id() }),
        *final(buffer) == *old(buffer),
{
    let binding = ElementArrayBufferBinding { _phantom: PhantomData };
    let command = bind_buffer_command(binding.target(), buffer);
    (binding, command)
}

/// An OpenGL context that has all free buffer bindings.
pub trait BufferContext: ArrayBufferContext + ElementArrayBufferContext {
}

impl<BA: BorrowBinder<ArrayBufferBinder>, BE: BorrowBinder<ElementArrayBufferBinder>, F, P, R, T> BufferContext for ContextOf<BufferBinderOf<BA, BE>, F, P, R, T> {
}

impl<'b, BA: BorrowBinder<ArrayBufferBinder>, BE: BorrowBinder<ElementArrayBufferBinder>, F, P, R, T> BufferContext for &'b mut ContextOf<BufferBinderOf<BA, BE>, F, P, R, T> {
}

/// A buffer that has been bound to an OpenGL buffer binding point.
pub trait BufferBinding {
    /// The binding target that this buffer binding references.
    spec fn spec_target(&self) -> BufferBindingTarget;

    /// Returns the OpenGL binding target that this buffer binding references.
    fn target(&self) -> (r: BufferBindingTarget)
        ensures
            r == self.spec_target(),
    ;
}

/// Represents a buffer that has been bound to the `GL_ARRAY_BUFFER` target.
pub struct ArrayBufferBinding<'a> {
    _phantom: PhantomData<&'a mut Buffer>,
}

impl<'a> BufferBinding for ArrayBufferBinding<'a> {
    open spec fn spec_target(&self) -> BufferBindingTarget {
        BufferBindingTarget::ArrayBuffer
    }

    fn target(&self) -> (r: BufferBindingTarget) {
        assert(self.spec_target() == BufferBindingTarget::ArrayBuffer);
        BufferBindingTarget::ArrayBuffer
    }
}

/// Represents a buffer that has been bound to the `GL_ELEMENT_ARRAY_BUFFER`
/// target.
pub struct ElementArrayBufferBinding<'a> {
    _phantom: PhantomData<&'a mut Buffer>,
}

impl<'a> BufferBinding for ElementArrayBufferBinding<'a> {
    open spec fn spec_target(&self) -> BufferBindingTarget {
        BufferBindingTarget::ElementArrayBuffer
    }

    fn target(&self) -> (r: BufferBindingTarget) {
        assert(self.spec_target() == BufferBindingTarget::ElementArrayBuffer);
        BufferBindingTarget::ElementArrayBuffer
    }
}

/// The OpenGL state of the buffer binding targets: `A` for
/// `GL_ARRAY_BUFFER` and `E` for `GL_ELEMENT_ARRAY_BUFFER`.
pub struct BufferBinderOf<A, E> {
    array: A,
    element_array: E,
}

/// A part of the OpenGL context that has all free buffer bindings.
pub type BufferBinder = BufferBinderOf<ArrayBufferBinder, ElementArrayBufferBinder>;

impl<A, E> BufferBinderOf<A, E> {
    /// The array buffer state.
    pub closed spec fn spec_array(&self) -> A {
        self.array
    }

    /// The element array buffer state.
    pub closed spec fn spec_element_array(&self) -> E {
        self.element_array
    }

    /// Get the current buffer-object binders. The same rules apply to this
    /// method as to [`ContextOf::current_context`](../struct.ContextOf.html#method.current_context).
    pub fn current() -> (r: BufferBinder) {
        BufferBinderOf {
            array: ArrayBufferBinder::current(),
            element_array: ElementArrayBufferBinder::current(),
        }
    }

    /// A buffer state whose pieces are mutable borrows of this state's
    /// pieces: once it is done with, each piece of this state is what its
    /// borrow last held.
    pub fn borrowed_mut<'a>(&'a mut self) -> (r: BufferBinderOf<&'a mut A, &'a mut E>)
        ensures
            *r.spec_array() == old(self).spec_array(),
            *r.spec_element_array() == old(self).spec_element_array(),
            final(self).spec_array() == *final(r.spec_array()),
            final(self).spec_element_array() == *final(r.spec_element_array()),
    {
        BufferBinderOf { array: &mut self.array, element_array: &mut self.element_array }
    }

    /// Replace the array buffer state with a new value, returning the old
    /// value and the new buffer state.
    pub fn swap_array<NA>(self, new_array: NA) -> (r: (A, BufferBinderOf<NA, E>))
        ensures
            r.0 == self.spec_array(),
            r.1.spec_array() == new_array,
            r.1.spec_element_array() == self.spec_element_array(),
    {
        (self.array, BufferBinderOf { array: new_array, element_array: self.element_array })
    }

    /// Replace the element array buffer state with a new value, returning the
    /// old value and the new buffer state.
    pub fn swap_element_array<NE>(self, new_element_array: NE) -> (r: (E, BufferBinderOf<A, NE>))
        ensures
            r.0 == self.spec_element_array(),
            r.1.spec_array() == self.spec_array(),
            r.1.spec_element_array() == new_element_array,
    {
        (self.element_array, BufferBinderOf { array: self.array, element_array: new_element_array })
    }
}

impl<'a, A, E> ToRef<'a> for BufferBinderOf<A, E> where A: 'a + ToRef<'a>, E: 'a + ToRef<'a> {
    type Ref = BufferBinderOf<A::Ref, E::Ref>;

    closed spec fn spec_to_ref(&'a self) -> Self::Ref {
        BufferBinderOf { array: self.array.spec_to_ref(), element_array: self.element_array.spec_to_ref() }
    }

    fn to_ref(&'a self) -> (r: Self::Ref)
        ensures
            r.spec_array() == self.spec_array().spec_to_ref(),
            r.spec_element_array() == self.spec_element_array().spec_to_ref(),
    {
        BufferBinderOf { array: self.array.to_ref(), element_array: self.element_array.to_ref() }
    }
}

impl<'a, A, E> ToMut<'a> for BufferBinderOf<A, E> where A: 'a + ToMut<'a>, E: 'a + ToMut<'a> {
    type Mut = BufferBinderOf<A::Mut, E::Mut>;

    /// Each piece of the result is the mutably borrowed form of the same
    /// piece of the buffer state.
    open spec fn spec_to_mut(pre: Self, post: Self, r: Self::Mut) -> bool {
        &&& A::spec_to_mut(pre.spec_array(), post.spec_array(), r.spec_array())
        &&& E::spec_to_mut(pre.spec_element_array(), post.spec_element_array(), r.spec_element_array())
    }

    fn to_mut(&'a mut self) -> (r: Self::Mut) {
        BufferBinderOf { array: self.array.to_mut(), element_array: self.element_array.to_mut() }
    }
}

/// The OpenGL state representing the `GL_ARRAY_BUFFER` target.
pub struct ArrayBufferBinder {
    _private: (),
}

impl ArrayBufferBinder {
    /// Get the current `GL_ARRAY_BUFFER` binder. The same rules apply to this
    /// method as to [`ContextOf::current_context`](../struct.ContextOf.html#method.current_context).
    pub fn current() -> (r: Self) {
        ArrayBufferBinder { _private: () }
    }

    /// Bind a buffer to the `GL_ARRAY_BUFFER` target, returning a binding and
    /// the `glBindBuffer` command.
    pub fn bind<'a>(&mut self, buffer: &'a mut Buffer) -> (r: (ArrayBufferBinding<'a>, GlCommand))
        ensures
            r.1@ == (GlCommandView::BindBuffer { target: 0x8892, buffer: old(buffer).spec_id() }),
            *final(buffer) == *old(buffer),
    {
        bind_array_buffer_target(buffer)
    }
}

/// The OpenGL state representing the `GL_ELEMENT_ARRAY_BUFFER` target.
pub struct ElementArrayBufferBinder {
    _private: (),
}

impl ElementArrayBufferBinder {
    /// Get the current `GL_ELEMENT_ARRAY_BUFFER` binder. The same rules apply
    /// to this method as to [`ContextOf::current_context`](../struct.ContextOf.html#method.current_context).
    pub fn current() -> (r: Self) {
        ElementArrayBufferBinder { _private: () }
    }

    /// Bind a buffer to the `GL_ELEMENT_ARRAY_BUFFER` target, returning a
    /// binding and the `glBindBuffer` command.
    pub fn bind<'a>(&mut self, buffer: &'a mut Buffer) -> (r: (ElementArrayBufferBinding<'a>, GlCommand))
        ensures
            r.1@ == (GlCommandView::BindBuffer { target: 0x8893, buffer: old(buffer).spec_id() }),
            *final(buffer) == *old(buffer),
    {
        bind_element_array_buffer_target(buffer)
    }
}

} // verus!
