//! The OpenGL state types related to texture units.

use vstd::prelude::*;
use crate::command::{GlCommand, GlCommandView};
use crate::context::{AContext, BorrowBinder, ContextOf};
use crate::context::texture_context::{
    Texture2dBinder, Texture2dBinding, TextureCubeMapBinder, TextureCubeMapBinding, bind_texture_2d_target,
    bind_texture_cube_map_target,
};
use crate::gl_consts::gl_texture0;
use crate::native_bytes::{is_native_encoding, le_bytes_u32};
use crate::texture::{Texture2d, TextureCubeMap};
use crate::to_ref::{ToMut, ToRef};
use crate::types::GLObject;
use crate::uniform_data::{UniformDatum, UniformDatumType, UniformPrimitive, UniformPrimitiveType};

verus! {

/// The `glActiveTexture` command that makes texture unit `idx` active.
fn active_texture_command(idx: u32) -> (c: GlCommand)
    requires
        idx <= u32::MAX - 0x84C0,
    ensures
        c@ == (GlCommandView::ActiveTexture { texture: (0x84C0 + idx) as u32 }),
{
    GlCommand::ActiveTexture { texture: gl_texture0() + idx }
}

/// A texture unit: a piece of OpenGL state that holds its own texture
/// bindings.
pub trait TextureUnit {
    /// The index of the texture unit.
    spec fn spec_idx(&self) -> u32;

    /// Get the index of the texture unit.
    fn idx(&self) -> (r: u32)
        ensures
            r == self.spec_idx(),
    ;

    /// Make the texture unit active, returning a binding for it and the
    /// `glActiveTexture` command.
    fn active(&mut self) -> (r: (TextureUnitBinding, GlCommand))
        requires
            old(self).spec_idx() <= u32::MAX - 0x84C0,
        ensures
            r.0.spec_idx() == old(self).spec_idx(),
            r.1@ == (GlCommandView::ActiveTexture { texture: (0x84C0 + old(self).spec_idx()) as u32 }),
    {
        let idx = self.idx();
        let command = active_texture_command(idx);
        (TextureUnitBinding::current_at_idx(idx), command)
    }
}

/// The 0th texture unit.
pub struct TextureUnit0 {
    _private: (),
}

impl TextureUnit for TextureUnit0 {
    open spec fn spec_idx(&self) -> u32 {
        0
    }

    fn idx(&self) -> (r: u32) {
        0
    }
}

/// The 1st texture unit.
pub struct TextureUnit1 {
    _private: (),
}

impl TextureUnit for TextureUnit1 {
    open spec fn spec_idx(&self) -> u32 {
        1
    }

    fn idx(&self) -> (r: u32) {
        1
    }
}

/// The 2nd texture unit.
pub struct TextureUnit2 {
    _private: (),
}

impl TextureUnit for TextureUnit2 {
    open spec fn spec_idx(&self) -> u32 {
        2
    }

    fn idx(&self) -> (r: u32) {
        2
    }
}

/// The 3rd texture unit.
pub struct TextureUnit3 {
    _private: (),
}

impl TextureUnit for TextureUnit3 {
    open spec fn spec_idx(&self) -> u32 {
        3
    }

    fn idx(&self) -> (r: u32) {
        3
    }
}

/// The 4th texture unit.
pub struct TextureUnit4 {
    _private: (),
}

impl TextureUnit for TextureUnit4 {
    open spec fn spec_idx(&self) -> u32 {
        4
    }

    fn idx(&self) -> (r: u32) {
        4
    }
}

/// The 5th texture unit.
pub struct TextureUnit5 {
    _private: (),
}

impl TextureUnit for TextureUnit5 {
    open spec fn spec_idx(&self) -> u32 {
        5
    }

    fn idx(&self) -> (r: u32) {
        5
    }
}

/// The 6th texture unit.
pub struct TextureUnit6 {
    _private: (),
}

impl TextureUnit for TextureUnit6 {
    open spec fn spec_idx(&self) -> u32 {
        6
    }

    fn idx(&self) -> (r: u32) {
        6
    }
}

/// The 7th texture unit.
pub struct TextureUnit7 {
    _private: (),
}

impl TextureUnit for TextureUnit7 {
    open spec fn spec_idx(&self) -> u32 {
        7
    }

    fn idx(&self) -> (r: u32) {
        7
    }
}

/// The OpenGL texture units. Each type parameter is the state of one unit:
/// a `TextureUnitN` while the unit is free, `()` while it is in use.
pub struct TextureUnitsOf<T0, T1, T2, T3, T4, T5, T6, T7>(pub T0, pub T1, pub T2, pub T3, pub T4, pub T5, pub T6, pub T7);

impl<'a, T0, T1, T2, T3, T4, T5, T6, T7> ToRef<'a> for TextureUnitsOf<T0, T1, T2, T3, T4, T5, T6, T7> where
    T0: 'a + ToRef<'a>,
    T1: 'a + ToRef<'a>,
    T2: 'a + ToRef<'a>,
    T3: 'a + ToRef<'a>,
    T4: 'a + ToRef<'a>,
    T5: 'a + ToRef<'a>,
    T6: 'a + ToRef<'a>,
    T7: 'a + ToRef<'a>,
 {
    type Ref = TextureUnitsOf<T0::Ref, T1::Ref, T2::Ref, T3::Ref, T4::Ref, T5::Ref, T6::Ref, T7::Ref>;

    open spec fn spec_to_ref(&'a self) -> Self::Ref {
        TextureUnitsOf(
            self.0.spec_to_ref(),
            self.1.spec_to_ref(),
            self.2.spec_to_ref(),
            self.3.spec_to_ref(),
            self.4.spec_to_ref(),
            self.5.spec_to_ref(),
            self.6.spec_to_ref(),
            self.7.spec_to_ref(),
        )
    }

    fn to_ref(&'a self) -> (r: Self::Ref) {
        TextureUnitsOf(
            self.0.to_ref(),
            self.1.to_ref(),
            self.2.to_ref(),
            self.3.to_ref(),
            self.4.to_ref(),
            self.5.to_ref(),
            self.6.to_ref(),
            self.7.to_ref(),
        )
    }
}

impl<'a, T0, T1, T2, T3, T4, T5, T6, T7> ToMut<'a> for TextureUnitsOf<T0, T1, T2, T3, T4, T5, T6, T7> where
    T0: 'a + ToMut<'a>,
    T1: 'a + ToMut<'a>,
    T2: 'a + ToMut<'a>,
    T3: 'a + ToMut<'a>,
    T4: 'a + ToMut<'a>,
    T5: 'a + ToMut<'a>,
    T6: 'a + ToMut<'a>,
    T7: 'a + ToMut<'a>,
 {
    type Mut = TextureUnitsOf<T0::Mut, T1::Mut, T2::Mut, T3::Mut, T4::Mut, T5::Mut, T6::Mut, T7::Mut>;

    /// Each unit of the result is the mutably borrowed form of the same unit.
    open spec fn spec_to_mut(pre: Self, post: Self, r: Self::Mut) -> bool {
        &&& T0::spec_to_mut(pre.0, post.0, r.0)
        &&& T1::spec_to_mut(pre.1, post.1, r.1)
        &&& T2::spec_to_mut(pre.2, post.2, r.2)
        &&& T3::spec_to_mut(pre.3, post.3, r.3)
        &&& T4::spec_to_mut(pre.4, post.4, r.4)
        &&& T5::spec_to_mut(pre.5, post.5, r.5)
        &&& T6::spec_to_mut(pre.6, post.6, r.6)
        &&& T7::spec_to_mut(pre.7, post.7, r.7)
    }

    fn to_mut(&'a mut self) -> (r: Self::Mut) {
        TextureUnitsOf(
            self.0.to_mut(),
            self.1.to_mut(),
            self.2.to_mut(),
            self.3.to_mut(),
            self.4.to_mut(),
            self.5.to_mut(),
            self.6.to_mut(),
            self.7.to_mut(),
        )
    }
}

/// A part of the OpenGL context that has all free texture units.
pub type TextureUnits = TextureUnitsOf<TextureUnit0, TextureUnit1, TextureUnit2, TextureUnit3, TextureUnit4, TextureUnit5, TextureUnit6, TextureUnit7>;

impl<T0, T1, T2, T3, T4, T5, T6, T7> TextureUnitsOf<T0, T1, T2, T3, T4, T5, T6, T7> {
    /// Get the current texture units. The same rules apply to this method as
    /// to [`ContextOf::current_context`](../struct.ContextOf.html#method.current_context).
    pub fn current() -> (r: TextureUnits) {
        TextureUnitsOf(TextureUnit0 { _private: () }, TextureUnit1 { _private: () }, TextureUnit2 { _private: () }, TextureUnit3 { _private: () }, TextureUnit4 { _private: () }, TextureUnit5 { _private: () }, TextureUnit6 { _private: () }, TextureUnit7 { _private: () })
    }

    /// Texture units whose states are shared borrows of these units' states.
    pub fn borrowed<'a>(&'a self) -> (r: TextureUnitsOf<&'a T0, &'a T1, &'a T2, &'a T3, &'a T4, &'a T5, &'a T6, &'a T7>)
        ensures
            *r.0 == self.0,
            *r.1 == self.1,
            *r.2 == self.2,
            *r.3 == self.3,
            *r.4 == self.4,
            *r.5 == self.5,
            *r.6 == self.6,
            *r.7 == self.7,
    {
        TextureUnitsOf(&self.0, &self.1, &self.2, &self.3, &self.4, &self.5, &self.6, &self.7)
    }

    /// Texture units whose states are mutable borrows of these units' states:
    /// once they are done with, each unit's state is what its borrow last
    /// held.
    pub fn borrowed_mut<'a>(&'a mut self) -> (r: TextureUnitsOf<&'a mut T0, &'a mut T1, &'a mut T2, &'a mut T3, &'a mut T4, &'a mut T5, &'a mut T6, &'a mut T7>)
        ensures
            *r.0 == old(self).0,
            *r.1 == old(self).1,
            *r.2 == old(self).2,
            *r.3 == old(self).3,
            *r.4 == old(self).4,
            *r.5 == old(self).5,
            *r.6 == old(self).6,
            *r.7 == old(self).7,
            final(self).0 == *final(r.0),
            final(self).1 == *final(r.1),
            final(self).2 == *final(r.2),
            final(self).3 == *final(r.3),
            final(self).4 == *final(r.4),
            final(self).5 == *final(r.5),
            final(self).6 == *final(r.6),
            final(self).7 == *final(r.7),
    {
        TextureUnitsOf(&mut self.0, &mut self.1, &mut self.2, &mut self.3, &mut self.4, &mut self.5, &mut self.6, &mut self.7)
    }

    /// Replace the state of texture unit 0 with a new value, returning the
    /// old value and the new set of texture units.
    pub fn swap_0<N0>(self, new_unit: N0) -> (r: (T0, TextureUnitsOf<N0, T1, T2, T3, T4, T5, T6, T7>))
        ensures
            r.0 == self.0,
            r.1.0 == new_unit,
            r.1.1 == self.1,
            r.1.2 == self.2,
            r.1.3 == self.3,
            r.1.4 == self.4,
            r.1.5 == self.5,
            r.1.6 == self.6,
            r.1.7 == self.7,
    {
        (self.0, TextureUnitsOf(new_unit, self.1, self.2, self.3, self.4, self.5, self.6, self.7))
    }

    /// Replace the state of texture unit 1 with a new value, returning the
    /// old value and the new set of texture units.
    pub fn swap_1<N1>(self, new_unit: N1) -> (r: (T1, TextureUnitsOf<T0, N1, T2, T3, T4, T5, T6, T7>))
        ensures
            r.0 == self.1,
            r.1.1 == new_unit,
            r.1.0 == self.0,
            r.1.2 == self.2,
            r.1.3 == self.3,
            r.1.4 == self.4,
            r.1.5 == self.5,
            r.1.6 == self.6,
            r.1.7 == self.7,
    {
        (self.1, TextureUnitsOf(self.0, new_unit, self.2, self.3, self.4, self.5, self.6, self.7))
    }

    /// Replace the state of texture unit 2 with a new value, returning the
    /// old value and the new set of texture units.
    pub fn swap_2<N2>(self, new_unit: N2) -> (r: (T2, TextureUnitsOf<T0, T1, N2, T3, T4, T5, T6, T7>))
        ensures
            r.0 == self.2,
            r.1.2 == new_unit,
            r.1.0 == self.0,
            r.1.1 == self.1,
            r.1.3 == self.3,
            r.1.4 == self.4,
            r.1.5 == self.5,
            r.1.6 == self.6,
            r.1.7 == self.7,
    {
        (self.2, TextureUnitsOf(self.0, self.1, new_unit, self.3, self.4, self.5, self.6, self.7))
    }

    /// Replace the state of texture unit 3 with a new value, returning the
    /// old value and the new set of texture units.
    pub fn swap_3<N3>(self, new_unit: N3) -> (r: (T3, TextureUnitsOf<T0, T1, T2, N3, T4, T5, T6, T7>))
        ensures
            r.0 == self.3,
            r.1.3 == new_unit,
            r.1.0 == self.0,
            r.1.1 == self.1,
            r.1.2 == self.2,
            r.1.4 == self.4,
            r.1.5 == self.5,
            r.1.6 == self.6,
            r.1.7 == self.7,
    {
        (self.3, TextureUnitsOf(self.0, self.1, self.2, new_unit, self.4, self.5, self.6, self.7))
    }

    /// Replace the state of texture unit 4 with a new value, returning the
    /// old value and the new set of texture units.
    pub fn swap_4<N4>(self, new_unit: N4) -> (r: (T4, TextureUnitsOf<T0, T1, T2, T3, N4, T5, T6, T7>))
        ensures
            r.0 == self.4,
            r.1.4 == new_unit,
            r.1.0 == self.0,
            r.1.1 == self.1,
            r.1.2 == self.2,
            r.1.3 == self.3,
            r.1.5 == self.5,
            r.1.6 == self.6,
            r.1.7 == self.7,
    {
        (self.4, TextureUnitsOf(self.0, self.1, self.2, self.3, new_unit, self.5, self.6, self.7))
    }

    /// Replace the state of texture unit 5 with a new value, returning the
    /// old value and the new set of texture units.
    pub fn swap_5<N5>(self, new_unit: N5) -> (r: (T5, TextureUnitsOf<T0, T1, T2, T3, T4, N5, T6, T7>))
        ensures
            r.0 == self.5,
            r.1.5 == new_unit,
            r.1.0 == self.0,
            r.1.1 == self.1,
            r.1.2 == self.2,
            r.1.3 == self.3,
            r.1.4 == self.4,
            r.1.6 == self.6,
            r.1.7 == self.7,
    {
        (self.5, TextureUnitsOf(self.0, self.1, self.2, self.3, self.4, new_unit, self.6, self.7))
    }

    /// Replace the state of texture unit 6 with a new value, returning the
    /// old value and the new set of texture units.
    pub fn swap_6<N6>(self, new_unit: N6) -> (r: (T6, TextureUnitsOf<T0, T1, T2, T3, T4, T5, N6, T7>))
        ensures
            r.0 == self.6,
            r.1.6 == new_unit,
            r.1.0 == self.0,
            r.1.1 == self.1,
            r.1.2 == self.2,
            r.1.3 == self.3,
            r.1.4 == self.4,
            r.1.5 == self.5,
            r.1.7 == self.7,
    {
        (self.6, TextureUnitsOf(self.0, self.1, self.2, self.3, self.4, self.5, new_unit, self.7))
    }

    /// Replace the state of texture unit 7 with a new value, returning the
    /// old value and the new set of texture units.
    pub fn swap_7<N7>(self, new_unit: N7) -> (r: (T7, TextureUnitsOf<T0, T1, T2, T3, T4, T5, T6, N7>))
        ensures
            r.0 == self.7,
            r.1.7 == new_unit,
            r.1.0 == self.0,
            r.1.1 == self.1,
            r.1.2 == self.2,
            r.1.3 == self.3,
            r.1.4 == self.4,
            r.1.5 == self.5,
            r.1.6 == self.6,
    {
        (self.7, TextureUnitsOf(self.0, self.1, self.2, self.3, self.4, self.5, self.6, new_unit))
    }

    /// Make texture unit `idx` active, returning a binding for it and the
    /// `glActiveTexture` command. Nothing stops two such bindings from being
    /// live at once, though only one texture unit can be active: this is a
    /// fallback for when the per-unit interface is not enough.
    pub fn active_nth(&self, idx: u32) -> (r: (TextureUnitBinding, GlCommand))
        requires
            idx <= u32::MAX - 0x84C0,
        ensures
            r.0.spec_idx() == idx,
            r.1@ == (GlCommandView::ActiveTexture { texture: (0x84C0 + idx) as u32 }),
    {
        let command = active_texture_command(idx);
        (TextureUnitBinding::current_at_idx(idx), command)
    }
}

/// An OpenGL context with texture unit 0 free.
pub trait TextureUnit0Context: AContext + Sized {
    /// The texture unit that the context holds.
    type Unit;

    /// The OpenGL context that will be returned after making the texture unit
    /// active.
    type Rest: AContext;

    /// Split texture unit 0 from the context, returning the unit and the
    /// remaining context.
    fn split_tex_unit_0(self) -> (r: (Self::Unit, Self::Rest));

    /// Make texture unit 0 active, returning a binding for it, the remaining
    /// context and the `glActiveTexture` command.
    fn active_texture_0(self) -> (r: (TextureUnitBinding, Self::Rest, GlCommand))
        ensures
            r.0.spec_idx() == 0,
            r.2@ == (GlCommandView::ActiveTexture { texture: 0x84C0u32 }),
    {
        let (_unit, rest) = self.split_tex_unit_0();
        let command = active_texture_command(0);
        (TextureUnitBinding::current_at_idx(0), rest, command)
    }
}

impl<B, F, P, R, T0: BorrowBinder<TextureUnit0>, T1, T2, T3, T4, T5, T6, T7> TextureUnit0Context for ContextOf<B, F, P, R, TextureUnitsOf<T0, T1, T2, T3, T4, T5, T6, T7>> {
    type Unit = T0;
    type Rest = ContextOf<B, F, P, R, TextureUnitsOf<(), T1, T2, T3, T4, T5, T6, T7>>;

    fn split_tex_unit_0(self) -> (r: (T0, Self::Rest))
        ensures
            r.0 == self.spec_tex_units().0,
            r.1.spec_tex_units().1 == self.spec_tex_units().1,
            r.1.spec_tex_units().2 == self.spec_tex_units().2,
            r.1.spec_tex_units().3 == self.spec_tex_units().3,
            r.1.spec_tex_units().4 == self.spec_tex_units().4,
            r.1.spec_tex_units().5 == self.spec_tex_units().5,
            r.1.spec_tex_units().6 == self.spec_tex_units().6,
            r.1.spec_tex_units().7 == self.spec_tex_units().7,
            r.1.spec_buffers() == self.spec_buffers(),
            r.1.spec_framebuffer() == self.spec_framebuffer(),
            r.1.spec_program() == self.spec_program(),
            r.1.spec_renderbuffer() == self.spec_renderbuffer(),
    {
        let (tex_units, gl) = self.swap_tex_units(());
        let (unit, rest_tex_units) = tex_units.swap_0(());
        let (_, gl) = gl.swap_tex_units(rest_tex_units);
        (unit, gl)
    }
}

impl<'b, B, F, P, R, T0: BorrowBinder<TextureUnit0>, T1, T2, T3, T4, T5, T6, T7> TextureUnit0Context for &'b mut ContextOf<B, F, P, R, TextureUnitsOf<T0, T1, T2, T3, T4, T5, T6, T7>> {
    type Unit = &'b mut T0;
    type Rest = ContextOf<&'b mut B, &'b mut F, &'b mut P, &'b mut R, TextureUnitsOf<(), &'b mut T1, &'b mut T2, &'b mut T3, &'b mut T4, &'b mut T5, &'b mut T6, &'b mut T7>>;

    fn split_tex_unit_0(self) -> (r: (&'b mut T0, Self::Rest))
        ensures
            *r.0 == old(self).spec_tex_units().0,
            *r.1.spec_tex_units().1 == old(self).spec_tex_units().1,
            *r.1.spec_tex_units().2 == old(self).spec_tex_units().2,
            *r.1.spec_tex_units().3 == old(self).spec_tex_units().3,
            *r.1.spec_tex_units().4 == old(self).spec_tex_units().4,
            *r.1.spec_tex_units().5 == old(self).spec_tex_units().5,
            *r.1.spec_tex_units().6 == old(self).spec_tex_units().6,
            *r.1.spec_tex_units().7 == old(self).spec_tex_units().7,
            *r.1.spec_buffers() == old(self).spec_buffers(),
            *r.1.spec_framebuffer() == old(self).spec_framebuffer(),
            *r.1.spec_program() == old(self).spec_program(),
            *r.1.spec_renderbuffer() == old(self).spec_renderbuffer(),
            final(self).spec_tex_units().0 == *final(r.0),
            final(self).spec_tex_units().1 == *final(r.1.spec_tex_units().1),
            final(self).spec_tex_units().2 == *final(r.1.spec_tex_units().2),
            final(self).spec_tex_units().3 == *final(r.1.spec_tex_units().3),
            final(self).spec_tex_units().4 == *final(r.1.spec_tex_units().4),
            final(self).spec_tex_units().5 == *final(r.1.spec_tex_units().5),
            final(self).spec_tex_units().6 == *final(r.1.spec_tex_units().6),
            final(self).spec_tex_units().7 == *final(r.1.spec_tex_units().7),
            final(self).spec_buffers() == *final(r.1.spec_buffers()),
            final(self).spec_framebuffer() == *final(r.1.spec_framebuffer()),
            final(self).spec_program() == *final(r.1.spec_program()),
            final(self).spec_renderbuffer() == *final(r.1.spec_renderbuffer()),
    {
        (
            &mut self.tex_units.0,
            ContextOf {
                buffers: &mut self.buffers,
                framebuffer: &mut self.framebuffer,
                program: &mut self.program,
                renderbuffer: &mut self.renderbuffer,
                tex_units: TextureUnitsOf(
                    (),
                    &mut self.tex_units.1,
                    &mut self.tex_units.2,
                    &mut self.tex_units.3,
                    &mut self.tex_units.4,
                    &mut self.tex_units.5,
                    &mut self.tex_units.6,
                    &mut self.tex_units.7,
                ),
            },
        )
    }
}

/// An OpenGL context with texture unit 1 free.
pub trait TextureUnit1Context: AContext + Sized {
    /// The texture unit that the context holds.
    type Unit;

    /// The OpenGL context that will be returned after making the texture unit
    /// active.
    type Rest: AContext;

    /// Split texture unit 1 from the context, returning the unit and the
    /// remaining context.
    fn split_tex_unit_1(self) -> (r: (Self::Unit, Self::Rest));

    /// Make texture unit 1 active, returning a binding for it, the remaining
    /// context and the `glActiveTexture` command.
    fn active_texture_1(self) -> (r: (TextureUnitBinding, Self::Rest, GlCommand))
        ensures
            r.0.spec_idx() == 1,
            r.2@ == (GlCommandView::ActiveTexture { texture: 0x84C1u32 }),
    {
        let (_unit, rest) = self.split_tex_unit_1();
        let command = active_texture_command(1);
        (TextureUnitBinding::current_at_idx(1), rest, command)
    }
}

impl<B, F, P, R, T0, T1: BorrowBinder<TextureUnit1>, T2, T3, T4, T5, T6, T7> TextureUnit1Context for ContextOf<B, F, P, R, TextureUnitsOf<T0, T1, T2, T3, T4, T5, T6, T7>> {
    type Unit = T1;
    type Rest = ContextOf<B, F, P, R, TextureUnitsOf<T0, (), T2, T3, T4, T5, T6, T7>>;

    fn split_tex_unit_1(self) -> (r: (T1, Self::Rest))
        ensures
            r.0 == self.spec_tex_units().1,
            r.1.spec_tex_units().0 == self.spec_tex_units().0,
            r.1.spec_tex_units().2 == self.spec_tex_units().2,
            r.1.spec_tex_units().3 == self.spec_tex_units().3,
            r.1.spec_tex_units().4 == self.spec_tex_units().4,
            r.1.spec_tex_units().5 == self.spec_tex_units().5,
            r.1.spec_tex_units().6 == self.spec_tex_units().6,
            r.1.spec_tex_units().7 == self.spec_tex_units().7,
            r.1.spec_buffers() == self.spec_buffers(),
            r.1.spec_framebuffer() == self.spec_framebuffer(),
            r.1.spec_program() == self.spec_program(),
            r.1.spec_renderbuffer() == self.spec_renderbuffer(),
    {
        let (tex_units, gl) = self.swap_tex_units(());
        let (unit, rest_tex_units) = tex_units.swap_1(());
        let (_, gl) = gl.swap_tex_units(rest_tex_units);
        (unit, gl)
    }
}

impl<'b, B, F, P, R, T0, T1: BorrowBinder<TextureUnit1>, T2, T3, T4, T5, T6, T7> TextureUnit1Context for &'b mut ContextOf<B, F, P, R, TextureUnitsOf<T0, T1, T2, T3, T4, T5, T6, T7>> {
    type Unit = &'b mut T1;
    type Rest = ContextOf<&'b mut B, &'b mut F, &'b mut P, &'b mut R, TextureUnitsOf<&'b mut T0, (), &'b mut T2, &'b mut T3, &'b mut T4, &'b mut T5, &'b mut T6, &'b mut T7>>;

    fn split_tex_unit_1(self) -> (r: (&'b mut T1, Self::Rest))
        ensures
            *r.0 == old(self).spec_tex_units().1,
            *r.1.spec_tex_units().0 == old(self).spec_tex_units().0,
            *r.1.spec_tex_units().2 == old(self).spec_tex_units().2,
            *r.1.spec_tex_units().3 == old(self).spec_tex_units().3,
            *r.1.spec_tex_units().4 == old(self).spec_tex_units().4,
            *r.1.spec_tex_units().5 == old(self).spec_tex_units().5,
            *r.1.spec_tex_units().6 == old(self).spec_tex_units().6,
            *r.1.spec_tex_units().7 == old(self).spec_tex_units().7,
            *r.1.spec_buffers() == old(self).spec_buffers(),
            *r.1.spec_framebuffer() == old(self).spec_framebuffer(),
            *r.1.spec_program() == old(self).spec_program(),
            *r.1.spec_renderbuffer() == old(self).spec_renderbuffer(),
            final(self).spec_tex_units().1 == *final(r.0),
            final(self).spec_tex_units().0 == *final(r.1.spec_tex_units().0),
            final(self).spec_tex_units().2 == *final(r.1.spec_tex_units().2),
            final(self).spec_tex_units().3 == *final(r.1.spec_tex_units().3),
            final(self).spec_tex_units().4 == *final(r.1.spec_tex_units().4),
            final(self).spec_tex_units().5 == *final(r.1.spec_tex_units().5),
            final(self).spec_tex_units().6 == *final(r.1.spec_tex_units().6),
            final(self).spec_tex_units().7 == *final(r.1.spec_tex_units().7),
            final(self).spec_buffers() == *final(r.1.spec_buffers()),
            final(self).spec_framebuffer() == *final(r.1.spec_framebuffer()),
            final(self).spec_program() == *final(r.1.spec_program()),
            final(self).spec_renderbuffer() == *final(r.1.spec_renderbuffer()),
    {
        (
            &mut self.tex_units.1,
            ContextOf {
                buffers: &mut self.buffers,
                framebuffer: &mut self.framebuffer,
                program: &mut self.program,
                renderbuffer: &mut self.renderbuffer,
                tex_units: TextureUnitsOf(
                    &mut self.tex_units.0,
                    (),
                    &mut self.tex_units.2,
                    &mut self.tex_units.3,
                    &mut self.tex_units.4,
                    &mut self.tex_units.5,
                    &mut self.tex_units.6,
                    &mut self.tex_units.7,
                ),
            },
        )
    }
}

/// An OpenGL context with texture unit 2 free.
pub trait TextureUnit2Context: AContext + Sized {
    /// The texture unit that the context holds.
    type Unit;

    /// The OpenGL context that will be returned after making the texture unit
    /// active.
    type Rest: AContext;

    /// Split texture unit 2 from the context, returning the unit and the
    /// remaining context.
    fn split_tex_unit_2(self) -> (r: (Self::Unit, Self::Rest));

    /// Make texture unit 2 active, returning a binding for it, the remaining
    /// context and the `glActiveTexture` command.
    fn active_texture_2(self) -> (r: (TextureUnitBinding, Self::Rest, GlCommand))
        ensures
            r.0.spec_idx() == 2,
            r.2@ == (GlCommandView::ActiveTexture { texture: 0x84C2u32 }),
    {
        let (_unit, rest) = self.split_tex_unit_2();
        let command = active_texture_command(2);
        (TextureUnitBinding::current_at_idx(2), rest, command)
    }
}

impl<B, F, P, R, T0, T1, T2: BorrowBinder<TextureUnit2>, T3, T4, T5, T6, T7> TextureUnit2Context for ContextOf<B, F, P, R, TextureUnitsOf<T0, T1, T2, T3, T4, T5, T6, T7>> {
    type Unit = T2;
    type Rest = ContextOf<B, F, P, R, TextureUnitsOf<T0, T1, (), T3, T4, T5, T6, T7>>;

    fn split_tex_unit_2(self) -> (r: (T2, Self::Rest))
        ensures
            r.0 == self.spec_tex_units().2,
            r.1.spec_tex_units().0 == self.spec_tex_units().0,
            r.1.spec_tex_units().1 == self.spec_tex_units().1,
            r.1.spec_tex_units().3 == self.spec_tex_units().3,
            r.1.spec_tex_units().4 == self.spec_tex_units().4,
            r.1.spec_tex_units().5 == self.spec_tex_units().5,
            r.1.spec_tex_units().6 == self.spec_tex_units().6,
            r.1.spec_tex_units().7 == self.spec_tex_units().7,
            r.1.spec_buffers() == self.spec_buffers(),
            r.1.spec_framebuffer() == self.spec_framebuffer(),
            r.1.spec_program() == self.spec_program(),
            r.1.spec_renderbuffer() == self.spec_renderbuffer(),
    {
        let (tex_units, gl) = self.swap_tex_units(());
        let (unit, rest_tex_units) = tex_units.swap_2(());
        let (_, gl) = gl.swap_tex_units(rest_tex_units);
        (unit, gl)
    }
}

impl<'b, B, F, P, R, T0, T1, T2: BorrowBinder<TextureUnit2>, T3, T4, T5, T6, T7> TextureUnit2Context for &'b mut ContextOf<B, F, P, R, TextureUnitsOf<T0, T1, T2, T3, T4, T5, T6, T7>> {
    type Unit = &'b mut T2;
    type Rest = ContextOf<&'b mut B, &'b mut F, &'b mut P, &'b mut R, TextureUnitsOf<&'b mut T0, &'b mut T1, (), &'b mut T3, &'b mut T4, &'b mut T5, &'b mut T6, &'b mut T7>>;

    fn split_tex_unit_2(self) -> (r: (&'b mut T2, Self::Rest))
        ensures
            *r.0 == old(self).spec_tex_units().2,
            *r.1.spec_tex_units().0 == old(self).spec_tex_units().0,
            *r.1.spec_tex_units().1 == old(self).spec_tex_units().1,
            *r.1.spec_tex_units().3 == old(self).spec_tex_units().3,
            *r.1.spec_tex_units().4 == old(self).spec_tex_units().4,
            *r.1.spec_tex_units().5 == old(self).spec_tex_units().5,
            *r.1.spec_tex_units().6 == old(self).spec_tex_units().6,
            *r.1.spec_tex_units().7 == old(self).spec_tex_units().7,
            *r.1.spec_buffers() == old(self).spec_buffers(),
            *r.1.spec_framebuffer() == old(self).spec_framebuffer(),
            *r.1.spec_program() == old(self).spec_program(),
            *r.1.spec_renderbuffer() == old(self).spec_renderbuffer(),
            final(self).spec_tex_units().2 == *final(r.0),
            final(self).spec_tex_units().0 == *final(r.1.spec_tex_units().0),
            final(self).spec_tex_units().1 == *final(r.1.spec_tex_units().1),
            final(self).spec_tex_units().3 == *final(r.1.spec_tex_units().3),
            final(self).spec_tex_units().4 == *final(r.1.spec_tex_units().4),
            final(self).spec_tex_units().5 == *final(r.1.spec_tex_units().5),
            final(self).spec_tex_units().6 == *final(r.1.spec_tex_units().6),
            final(self).spec_tex_units().7 == *final(r.1.spec_tex_units().7),
            final(self).spec_buffers() == *final(r.1.spec_buffers()),
            final(self).spec_framebuffer() == *final(r.1.spec_framebuffer()),
            final(self).spec_program() == *final(r.1.spec_program()),
            final(self).spec_renderbuffer() == *final(r.1.spec_renderbuffer()),
    {
        (
            &mut self.tex_units.2,
            ContextOf {
                buffers: &mut self.buffers,
                framebuffer: &mut self.framebuffer,
                program: &mut self.program,
                renderbuffer: &mut self.renderbuffer,
                tex_units: TextureUnitsOf(
                    &mut self.tex_units.0,
                    &mut self.tex_units.1,
                    (),
                    &mut self.tex_units.3,
                    &mut self.tex_units.4,
                    &mut self.tex_units.5,
                    &mut self.tex_units.6,
                    &mut self.tex_units.7,
                ),
            },
        )
    }
}

/// An OpenGL context with texture unit 3 free.
pub trait TextureUnit3Context: AContext + Sized {
    /// The texture unit that the context holds.
    type Unit;

    /// The OpenGL context that will be returned after making the texture unit
    /// active.
    type Rest: AContext;

    /// Split texture unit 3 from the context, returning the unit and the
    /// remaining context.
    fn split_tex_unit_3(self) -> (r: (Self::Unit, Self::Rest));

    /// Make texture unit 3 active, returning a binding for it, the remaining
    /// context and the `glActiveTexture` command.
    fn active_texture_3(self) -> (r: (TextureUnitBinding, Self::Rest, GlCommand))
        ensures
            r.0.spec_idx() == 3,
            r.2@ == (GlCommandView::ActiveTexture { texture: 0x84C3u32 }),
    {
        let (_unit, rest) = self.split_tex_unit_3();
        let command = active_texture_command(3);
        (TextureUnitBinding::current_at_idx(3), rest, command)
    }
}

impl<B, F, P, R, T0, T1, T2, T3: BorrowBinder<TextureUnit3>, T4, T5, T6, T7> TextureUnit3Context for ContextOf<B, F, P, R, TextureUnitsOf<T0, T1, T2, T3, T4, T5, T6, T7>> {
    type Unit = T3;
    type Rest = ContextOf<B, F, P, R, TextureUnitsOf<T0, T1, T2, (), T4, T5, T6, T7>>;

    fn split_tex_unit_3(self) -> (r: (T3, Self::Rest))
        ensures
            r.0 == self.spec_tex_units().3,
            r.1.spec_tex_units().0 == self.spec_tex_units().0,
            r.1.spec_tex_units().1 == self.spec_tex_units().1,
            r.1.spec_tex_units().2 == self.spec_tex_units().2,
            r.1.spec_tex_units().4 == self.spec_tex_units().4,
            r.1.spec_tex_units().5 == self.spec_tex_units().5,
            r.1.spec_tex_units().6 == self.spec_tex_units().6,
            r.1.spec_tex_units().7 == self.spec_tex_units().7,
            r.1.spec_buffers() == self.spec_buffers(),
            r.1.spec_framebuffer() == self.spec_framebuffer(),
            r.1.spec_program() == self.spec_program(),
            r.1.spec_renderbuffer() == self.spec_renderbuffer(),
    {
        let (tex_units, gl) = self.swap_tex_units(());
        let (unit, rest_tex_units) = tex_units.swap_3(());
        let (_, gl) = gl.swap_tex_units(rest_tex_units);
        (unit, gl)
    }
}

impl<'b, B, F, P, R, T0, T1, T2, T3: BorrowBinder<TextureUnit3>, T4, T5, T6, T7> TextureUnit3Context for &'b mut ContextOf<B, F, P, R, TextureUnitsOf<T0, T1, T2, T3, T4, T5, T6, T7>> {
    type Unit = &'b mut T3;
    type Rest = ContextOf<&'b mut B, &'b mut F, &'b mut P, &'b mut R, TextureUnitsOf<&'b mut T0, &'b mut T1, &'b mut T2, (), &'b mut T4, &'b mut T5, &'b mut T6, &'b mut T7>>;

    fn split_tex_unit_3(self) -> (r: (&'b mut T3, Self::Rest))
        ensures
            *r.0 == old(self).spec_tex_units().3,
            *r.1.spec_tex_units().0 == old(self).spec_tex_units().0,
            *r.1.spec_tex_units().1 == old(self).spec_tex_units().1,
            *r.1.spec_tex_units().2 == old(self).spec_tex_units().2,
            *r.1.spec_tex_units().4 == old(self).spec_tex_units().4,
            *r.1.spec_tex_units().5 == old(self).spec_tex_units().5,
            *r.1.spec_tex_units().6 == old(self).spec_tex_units().6,
            *r.1.spec_tex_units().7 == old(self).spec_tex_units().7,
            *r.1.spec_buffers() == old(self).spec_buffers(),
            *r.1.spec_framebuffer() == old(self).spec_framebuffer(),
            *r.1.spec_program() == old(self).spec_program(),
            *r.1.spec_renderbuffer() == old(self).spec_renderbuffer(),
            final(self).spec_tex_units().3 == *final(r.0),
            final(self).spec_tex_units().0 == *final(r.1.spec_tex_units().0),
            final(self).spec_tex_units().1 == *final(r.1.spec_tex_units().1),
            final(self).spec_tex_units().2 == *final(r.1.spec_tex_units().2),
            final(self).spec_tex_units().4 == *final(r.1.spec_tex_units().4),
            final(self).spec_tex_units().5 == *final(r.1.spec_tex_units().5),
            final(self).spec_tex_units().6 == *final(r.1.spec_tex_units().6),
            final(self).spec_tex_units().7 == *final(r.1.spec_tex_units().7),
            final(self).spec_buffers() == *final(r.1.spec_buffers()),
            final(self).spec_framebuffer() == *final(r.1.spec_framebuffer()),
            final(self).spec_program() == *final(r.1.spec_program()),
            final(self).spec_renderbuffer() == *final(r.1.spec_renderbuffer()),
    {
        (
            &mut self.tex_units.3,
            ContextOf {
                buffers: &mut self.buffers,
                framebuffer: &mut self.framebuffer,
                program: &mut self.program,
                renderbuffer: &mut self.renderbuffer,
                tex_units: TextureUnitsOf(
                    &mut self.tex_units.0,
                    &mut self.tex_units.1,
                    &mut self.tex_units.2,
                    (),
                    &mut self.tex_units.4,
                    &mut self.tex_units.5,
                    &mut self.tex_units.6,
                    &mut self.tex_units.7,
                ),
            },
        )
    }
}

/// An OpenGL context with texture unit 4 free.
pub trait TextureUnit4Context: AContext + Sized {
    /// The texture unit that the context holds.
    type Unit;

    /// The OpenGL context that will be returned after making the texture unit
    /// active.
    type Rest: AContext;

    /// Split texture unit 4 from the context, returning the unit and the
    /// remaining context.
    fn split_tex_unit_4(self) -> (r: (Self::Unit, Self::Rest));

    /// Make texture unit 4 active, returning a binding for it, the remaining
    /// context and the `glActiveTexture` command.
    fn active_texture_4(self) -> (r: (TextureUnitBinding, Self::Rest, GlCommand))
        ensures
            r.0.spec_idx() == 4,
            r.2@ == (GlCommandView::ActiveTexture { texture: 0x84C4u32 }),
    {
        let (_unit, rest) = self.split_tex_unit_4();
        let command = active_texture_command(4);
        (TextureUnitBinding::current_at_idx(4), rest, command)
    }
}

impl<B, F, P, R, T0, T1, T2, T3, T4: BorrowBinder<TextureUnit4>, T5, T6, T7> TextureUnit4Context for ContextOf<B, F, P, R, TextureUnitsOf<T0, T1, T2, T3, T4, T5, T6, T7>> {
    type Unit = T4;
    type Rest = ContextOf<B, F, P, R, TextureUnitsOf<T0, T1, T2, T3, (), T5, T6, T7>>;

    fn split_tex_unit_4(self) -> (r: (T4, Self::Rest))
        ensures
            r.0 == self.spec_tex_units().4,
            r.1.spec_tex_units().0 == self.spec_tex_units().0,
            r.1.spec_tex_units().1 == self.spec_tex_units().1,
            r.1.spec_tex_units().2 == self.spec_tex_units().2,
            r.1.spec_tex_units().3 == self.spec_tex_units().3,
            r.1.spec_tex_units().5 == self.spec_tex_units().5,
            r.1.spec_tex_units().6 == self.spec_tex_units().6,
            r.1.spec_tex_units().7 == self.spec_tex_units().7,
            r.1.spec_buffers() == self.spec_buffers(),
            r.1.spec_framebuffer() == self.spec_framebuffer(),
            r.1.spec_program() == self.spec_program(),
            r.1.spec_renderbuffer() == self.spec_renderbuffer(),
    {
        let (tex_units, gl) = self.swap_tex_units(());
        let (unit, rest_tex_units) = tex_units.swap_4(());
        let (_, gl) = gl.swap_tex_units(rest_tex_units);
        (unit, gl)
    }
}

impl<'b, B, F, P, R, T0, T1, T2, T3, T4: BorrowBinder<TextureUnit4>, T5, T6, T7> TextureUnit4Context for &'b mut ContextOf<B, F, P, R, TextureUnitsOf<T0, T1, T2, T3, T4, T5, T6, T7>> {
    type Unit = &'b mut T4;
    type Rest = ContextOf<&'b mut B, &'b mut F, &'b mut P, &'b mut R, TextureUnitsOf<&'b mut T0, &'b mut T1, &'b mut T2, &'b mut T3, (), &'b mut T5, &'b mut T6, &'b mut T7>>;

    fn split_tex_unit_4(self) -> (r: (&'b mut T4, Self::Rest))
        ensures
            *r.0 == old(self).spec_tex_units().4,
            *r.1.spec_tex_units().0 == old(self).spec_tex_units().0,
            *r.1.spec_tex_units().1 == old(self).spec_tex_units().1,
            *r.1.spec_tex_units().2 == old(self).spec_tex_units().2,
            *r.1.spec_tex_units().3 == old(self).spec_tex_units().3,
            *r.1.spec_tex_units().5 == old(self).spec_tex_units().5,
            *r.1.spec_tex_units().6 == old(self).spec_tex_units().6,
            *r.1.spec_tex_units().7 == old(self).spec_tex_units().7,
            *r.1.spec_buffers() == old(self).spec_buffers(),
            *r.1.spec_framebuffer() == old(self).spec_framebuffer(),
            *r.1.spec_program() == old(self).spec_program(),
            *r.1.spec_renderbuffer() == old(self).spec_renderbuffer(),
            final(self).spec_tex_units().4 == *final(r.0),
            final(self).spec_tex_units().0 == *final(r.1.spec_tex_units().0),
            final(self).spec_tex_units().1 == *final(r.1.spec_tex_units().1),
            final(self).spec_tex_units().2 == *final(r.1.spec_tex_units().2),
            final(self).spec_tex_units().3 == *final(r.1.spec_tex_units().3),
            final(self).spec_tex_units().5 == *final(r.1.spec_tex_units().5),
            final(self).spec_tex_units().6 == *final(r.1.spec_tex_units().6),
            final(self).spec_tex_units().7 == *final(r.1.spec_tex_units().7),
            final(self).spec_buffers() == *final(r.1.spec_buffers()),
            final(self).spec_framebuffer() == *final(r.1.spec_framebuffer()),
            final(self).spec_program() == *final(r.1.spec_program()),
            final(self).spec_renderbuffer() == *final(r.1.spec_renderbuffer()),
    {
        (
            &mut self.tex_units.4,
            ContextOf {
                buffers: &mut self.buffers,
                framebuffer: &mut self.framebuffer,
                program: &mut self.program,
                renderbuffer: &mut self.renderbuffer,
                tex_units: TextureUnitsOf(
                    &mut self.tex_units.0,
                    &mut self.tex_units.1,
                    &mut self.tex_units.2,
                    &mut self.tex_units.3,
                    (),
                    &mut self.tex_units.5,
                    &mut self.tex_units.6,
                    &mut self.tex_units.7,
                ),
            },
        )
    }
}

/// An OpenGL context with texture unit 5 free.
pub trait TextureUnit5Context: AContext + Sized {
    /// The texture unit that the context holds.
    type Unit;

    /// The OpenGL context that will be returned after making the texture unit
    /// active.
    type Rest: AContext;

    /// Split texture unit 5 from the context, returning the unit and the
    /// remaining context.
    fn split_tex_unit_5(self) -> (r: (Self::Unit, Self::Rest));

    /// Make texture unit 5 active, returning a binding for it, the remaining
    /// context and the `glActiveTexture` command.
    fn active_texture_5(self) -> (r: (TextureUnitBinding, Self::Rest, GlCommand))
        ensures
            r.0.spec_idx() == 5,
            r.2@ == (GlCommandView::ActiveTexture { texture: 0x84C5u32 }),
    {
        let (_unit, rest) = self.split_tex_unit_5();
        let command = active_texture_command(5);
        (TextureUnitBinding::current_at_idx(5), rest, command)
    }
}

impl<B, F, P, R, T0, T1, T2, T3, T4, T5: BorrowBinder<TextureUnit5>, T6, T7> TextureUnit5Context for ContextOf<B, F, P, R, TextureUnitsOf<T0, T1, T2, T3, T4, T5, T6, T7>> {
    type Unit = T5;
    type Rest = ContextOf<B, F, P, R, TextureUnitsOf<T0, T1, T2, T3, T4, (), T6, T7>>;

    fn split_tex_unit_5(self) -> (r: (T5, Self::Rest))
        ensures
            r.0 == self.spec_tex_units().5,
            r.1.spec_tex_units().0 == self.spec_tex_units().0,
            r.1.spec_tex_units().1 == self.spec_tex_units().1,
            r.1.spec_tex_units().2 == self.spec_tex_units().2,
            r.1.spec_tex_units().3 == self.spec_tex_units().3,
            r.1.spec_tex_units().4 == self.spec_tex_units().4,
            r.1.spec_tex_units().6 == self.spec_tex_units().6,
            r.1.spec_tex_units().7 == self.spec_tex_units().7,
            r.1.spec_buffers() == self.spec_buffers(),
            r.1.spec_framebuffer() == self.spec_framebuffer(),
            r.1.spec_program() == self.spec_program(),
            r.1.spec_renderbuffer() == self.spec_renderbuffer(),
    {
        let (tex_units, gl) = self.swap_tex_units(());
        let (unit, rest_tex_units) = tex_units.swap_5(());
        let (_, gl) = gl.swap_tex_units(rest_tex_units);
        (unit, gl)
    }
}

impl<'b, B, F, P, R, T0, T1, T2, T3, T4, T5: BorrowBinder<TextureUnit5>, T6, T7> TextureUnit5Context for &'b mut ContextOf<B, F, P, R, TextureUnitsOf<T0, T1, T2, T3, T4, T5, T6, T7>> {
    type Unit = &'b mut T5;
    type Rest = ContextOf<&'b mut B, &'b mut F, &'b mut P, &'b mut R, TextureUnitsOf<&'b mut T0, &'b mut T1, &'b mut T2, &'b mut T3, &'b mut T4, (), &'b mut T6, &'b mut T7>>;

    fn split_tex_unit_5(self) -> (r: (&'b mut T5, Self::Rest))
        ensures
            *r.0 == old(self).spec_tex_units().5,
            *r.1.spec_tex_units().0 == old(self).spec_tex_units().0,
            *r.1.spec_tex_units().1 == old(self).spec_tex_units().1,
            *r.1.spec_tex_units().2 == old(self).spec_tex_units().2,
            *r.1.spec_tex_units().3 == old(self).spec_tex_units().3,
            *r.1.spec_tex_units().4 == old(self).spec_tex_units().4,
            *r.1.spec_tex_units().6 == old(self).spec_tex_units().6,
            *r.1.spec_tex_units().7 == old(self).spec_tex_units().7,
            *r.1.spec_buffers() == old(self).spec_buffers(),
            *r.1.spec_framebuffer() == old(self).spec_framebuffer(),
            *r.1.spec_program() == old(self).spec_program(),
            *r.1.spec_renderbuffer() == old(self).spec_renderbuffer(),
            final(self).spec_tex_units().5 == *final(r.0),
            final(self).spec_tex_units().0 == *final(r.1.spec_tex_units().0),
            final(self).spec_tex_units().1 == *final(r.1.spec_tex_units().1),
            final(self).spec_tex_units().2 == *final(r.1.spec_tex_units().2),
            final(self).spec_tex_units().3 == *final(r.1.spec_tex_units().3),
            final(self).spec_tex_units().4 == *final(r.1.spec_tex_units().4),
            final(self).spec_tex_units().6 == *final(r.1.spec_tex_units().6),
            final(self).spec_tex_units().7 == *final(r.1.spec_tex_units().7),
            final(self).spec_buffers() == *final(r.1.spec_buffers()),
            final(self).spec_framebuffer() == *final(r.1.spec_framebuffer()),
            final(self).spec_program() == *final(r.1.spec_program()),
            final(self).spec_renderbuffer() == *final(r.1.spec_renderbuffer()),
    {
        (
            &mut self.tex_units.5,
            ContextOf {
                buffers: &mut self.buffers,
                framebuffer: &mut self.framebuffer,
                program: &mut self.program,
                renderbuffer: &mut self.renderbuffer,
                tex_units: TextureUnitsOf(
                    &mut self.tex_units.0,
                    &mut self.tex_units.1,
                    &mut self.tex_units.2,
                    &mut self.tex_units.3,
                    &mut self.tex_units.4,
                    (),
                    &mut self.tex_units.6,
                    &mut self.tex_units.7,
                ),
            },
        )
    }
}

/// An OpenGL context with texture unit 6 free.
pub trait TextureUnit6Context: AContext + Sized {
    /// The texture unit that the context holds.
    type Unit;

    /// The OpenGL context that will be returned after making the texture unit
    /// active.
    type Rest: AContext;

    /// Split texture unit 6 from the context, returning the unit and the
    /// remaining context.
    fn split_tex_unit_6(self) -> (r: (Self::Unit, Self::Rest));

    /// Make texture unit 6 active, returning a binding for it, the remaining
    /// context and the `glActiveTexture` command.
    fn active_texture_6(self) -> (r: (TextureUnitBinding, Self::Rest, GlCommand))
        ensures
            r.0.spec_idx() == 6,
            r.2@ == (GlCommandView::ActiveTexture { texture: 0x84C6u32 }),
    {
        let (_unit, rest) = self.split_tex_unit_6();
        let command = active_texture_command(6);
        (TextureUnitBinding::current_at_idx(6), rest, command)
    }
}

impl<B, F, P, R, T0, T1, T2, T3, T4, T5, T6: BorrowBinder<TextureUnit6>, T7> TextureUnit6Context for ContextOf<B, F, P, R, TextureUnitsOf<T0, T1, T2, T3, T4, T5, T6, T7>> {
    type Unit = T6;
    type Rest = ContextOf<B, F, P, R, TextureUnitsOf<T0, T1, T2, T3, T4, T5, (), T7>>;

    fn split_tex_unit_6(self) -> (r: (T6, Self::Rest))
        ensures
            r.0 == self.spec_tex_units().6,
            r.1.spec_tex_units().0 == self.spec_tex_units().0,
            r.1.spec_tex_units().1 == self.spec_tex_units().1,
            r.1.spec_tex_units().2 == self.spec_tex_units().2,
            r.1.spec_tex_units().3 == self.spec_tex_units().3,
            r.1.spec_tex_units().4 == self.spec_tex_units().4,
            r.1.spec_tex_units().5 == self.spec_tex_units().5,
            r.1.spec_tex_units().7 == self.spec_tex_units().7,
            r.1.spec_buffers() == self.spec_buffers(),
            r.1.spec_framebuffer() == self.spec_framebuffer(),
            r.1.spec_program() == self.spec_program(),
            r.1.spec_renderbuffer() == self.spec_renderbuffer(),
    {
        let (tex_units, gl) = self.swap_tex_units(());
        let (unit, rest_tex_units) = tex_units.swap_6(());
        let (_, gl) = gl.swap_tex_units(rest_tex_units);
        (unit, gl)
    }
}

impl<'b, B, F, P, R, T0, T1, T2, T3, T4, T5, T6: BorrowBinder<TextureUnit6>, T7> TextureUnit6Context for &'b mut ContextOf<B, F, P, R, TextureUnitsOf<T0, T1, T2, T3, T4, T5, T6, T7>> {
    type Unit = &'b mut T6;
    type Rest = ContextOf<&'b mut B, &'b mut F, &'b mut P, &'b mut R, TextureUnitsOf<&'b mut T0, &'b mut T1, &'b mut T2, &'b mut T3, &'b mut T4, &'b mut T5, (), &'b mut T7>>;

    fn split_tex_unit_6(self) -> (r: (&'b mut T6, Self::Rest))
        ensures
            *r.0 == old(self).spec_tex_units().6,
            *r.1.spec_tex_units().0 == old(self).spec_tex_units().0,
            *r.1.spec_tex_units().1 == old(self).spec_tex_units().1,
            *r.1.spec_tex_units().2 == old(self).spec_tex_units().2,
            *r.1.spec_tex_units().3 == old(self).spec_tex_units().3,
            *r.1.spec_tex_units().4 == old(self).spec_tex_units().4,
            *r.1.spec_tex_units().5 == old(self).spec_tex_units().5,
            *r.1.spec_tex_units().7 == old(self).spec_tex_units().7,
            *r.1.spec_buffers() == old(self).spec_buffers(),
            *r.1.spec_framebuffer() == old(self).spec_framebuffer(),
            *r.1.spec_program() == old(self).spec_program(),
            *r.1.spec_renderbuffer() == old(self).spec_renderbuffer(),
            final(self).spec_tex_units().6 == *final(r.0),
            final(self).spec_tex_units().0 == *final(r.1.spec_tex_units().0),
            final(self).spec_tex_units().1 == *final(r.1.spec_tex_units().1),
            final(self).spec_tex_units().2 == *final(r.1.spec_tex_units().2),
            final(self).spec_tex_units().3 == *final(r.1.spec_tex_units().3),
            final(self).spec_tex_units().4 == *final(r.1.spec_tex_units().4),
            final(self).spec_tex_units().5 == *final(r.1.spec_tex_units().5),
            final(self).spec_tex_units().7 == *final(r.1.spec_tex_units().7),
            final(self).spec_buffers() == *final(r.1.spec_buffers()),
            final(self).spec_framebuffer() == *final(r.1.spec_framebuffer()),
            final(self).spec_program() == *final(r.1.spec_program()),
            final(self).spec_renderbuffer() == *final(r.1.spec_renderbuffer()),
    {
        (
            &mut self.tex_units.6,
            ContextOf {
                buffers: &mut self.buffers,
                framebuffer: &mut self.framebuffer,
                program: &mut self.program,
                renderbuffer: &mut self.renderbuffer,
                tex_units: TextureUnitsOf(
                    &mut self.tex_units.0,
                    &mut self.tex_units.1,
                    &mut self.tex_units.2,
                    &mut self.tex_units.3,
                    &mut self.tex_units.4,
                    &mut self.tex_units.5,
                    (),
                    &mut self.tex_units.7,
                ),
            },
        )
    }
}

/// An OpenGL context with texture unit 7 free.
pub trait TextureUnit7Context: AContext + Sized {
    /// The texture unit that the context holds.
    type Unit;

    /// The OpenGL context that will be returned after making the texture unit
    /// active.
    type Rest: AContext;

    /// Split texture unit 7 from the context, returning the unit and the
    /// remaining context.
    fn split_tex_unit_7(self) -> (r: (Self::Unit, Self::Rest));

    /// Make texture unit 7 active, returning a binding for it, the remaining
    /// context and the `glActiveTexture` command.
    fn active_texture_7(self) -> (r: (TextureUnitBinding, Self::Rest, GlCommand))
        ensures
            r.0.spec_idx() == 7,
            r.2@ == (GlCommandView::ActiveTexture { texture: 0x84C7u32 }),
    {
        let (_unit, rest) = self.split_tex_unit_7();
        let command = active_texture_command(7);
        (TextureUnitBinding::current_at_idx(7), rest, command)
    }
}

impl<B, F, P, R, T0, T1, T2, T3, T4, T5, T6, T7: BorrowBinder<TextureUnit7>> TextureUnit7Context for ContextOf<B, F, P, R, TextureUnitsOf<T0, T1, T2, T3, T4, T5, T6, T7>> {
    type Unit = T7;
    type Rest = ContextOf<B, F, P, R, TextureUnitsOf<T0, T1, T2, T3, T4, T5, T6, ()>>;

    fn split_tex_unit_7(self) -> (r: (T7, Self::Rest))
        ensures
            r.0 == self.spec_tex_units().7,
            r.1.spec_tex_units().0 == self.spec_tex_units().0,
            r.1.spec_tex_units().1 == self.spec_tex_units().1,
            r.1.spec_tex_units().2 == self.spec_tex_units().2,
            r.1.spec_tex_units().3 == self.spec_tex_units().3,
            r.1.spec_tex_units().4 == self.spec_tex_units().4,
            r.1.spec_tex_units().5 == self.spec_tex_units().5,
            r.1.spec_tex_units().6 == self.spec_tex_units().6,
            r.1.spec_buffers() == self.spec_buffers(),
            r.1.spec_framebuffer() == self.spec_framebuffer(),
            r.1.spec_program() == self.spec_program(),
            r.1.spec_renderbuffer() == self.spec_renderbuffer(),
    {
        let (tex_units, gl) = self.swap_tex_units(());
        let (unit, rest_tex_units) = tex_units.swap_7(());
        let (_, gl) = gl.swap_tex_units(rest_tex_units);
        (unit, gl)
    }
}

impl<'b, B, F, P, R, T0, T1, T2, T3, T4, T5, T6, T7: BorrowBinder<TextureUnit7>> TextureUnit7Context for &'b mut ContextOf<B, F, P, R, TextureUnitsOf<T0, T1, T2, T3, T4, T5, T6, T7>> {
    type Unit = &'b mut T7;
    type Rest = ContextOf<&'b mut B, &'b mut F, &'b mut P, &'b mut R, TextureUnitsOf<&'b mut T0, &'b mut T1, &'b mut T2, &'b mut T3, &'b mut T4, &'b mut T5, &'b mut T6, ()>>;

    fn split_tex_unit_7(self) -> (r: (&'b mut T7, Self::Rest))
        ensures
            *r.0 == old(self).spec_tex_units().7,
            *r.1.spec_tex_units().0 == old(self).spec_tex_units().0,
            *r.1.spec_tex_units().1 == old(self).spec_tex_units().1,
            *r.1.spec_tex_units().2 == old(self).spec_tex_units().2,
            *r.1.spec_tex_units().3 == old(self).spec_tex_units().3,
            *r.1.spec_tex_units().4 == old(self).spec_tex_units().4,
            *r.1.spec_tex_units().5 == old(self).spec_tex_units().5,
            *r.1.spec_tex_units().6 == old(self).spec_tex_units().6,
            *r.1.spec_buffers() == old(self).spec_buffers(),
            *r.1.spec_framebuffer() == old(self).spec_framebuffer(),
            *r.1.spec_program() == old(self).spec_program(),
            *r.1.spec_renderbuffer() == old(self).spec_renderbuffer(),
            final(self).spec_tex_units().7 == *final(r.0),
            final(self).spec_tex_units().0 == *final(r.1.spec_tex_units().0),
            final(self).spec_tex_units().1 == *final(r.1.spec_tex_units().1),
            final(self).spec_tex_units().2 == *final(r.1.spec_tex_units().2),
            final(self).spec_tex_units().3 == *final(r.1.spec_tex_units().3),
            final(self).spec_tex_units().4 == *final(r.1.spec_tex_units().4),
            final(self).spec_tex_units().5 == *final(r.1.spec_tex_units().5),
            final(self).spec_tex_units().6 == *final(r.1.spec_tex_units().6),
            final(self).spec_buffers() == *final(r.1.spec_buffers()),
            final(self).spec_framebuffer() == *final(r.1.spec_framebuffer()),
            final(self).spec_program() == *final(r.1.spec_program()),
            final(self).spec_renderbuffer() == *final(r.1.spec_renderbuffer()),
    {
        (
            &mut self.tex_units.7,
            ContextOf {
                buffers: &mut self.buffers,
                framebuffer: &mut self.framebuffer,
                program: &mut self.program,
                renderbuffer: &mut self.renderbuffer,
                tex_units: TextureUnitsOf(
                    &mut self.tex_units.0,
                    &mut self.tex_units.1,
                    &mut self.tex_units.2,
                    &mut self.tex_units.3,
                    &mut self.tex_units.4,
                    &mut self.tex_units.5,
                    &mut self.tex_units.6,
                    (),
                ),
            },
        )
    }
}

/// A texture unit that has been made active, and can have textures bound to
/// it. `T2` and `TC` are the states of its `GL_TEXTURE_2D` and
/// `GL_TEXTURE_CUBE_MAP` targets.
pub struct TextureUnitBindingOf<T2, TC> {
    idx: u32,
    texture_2d: T2,
    texture_cube_map: TC,
}

/// A fresh texture unit binding, with all texture targets free.
pub type TextureUnitBinding = TextureUnitBindingOf<Texture2dBinder, TextureCubeMapBinder>;

impl<T2, TC> TextureUnitBindingOf<T2, TC> {
    /// The index of the texture unit.
    pub closed spec fn spec_idx(&self) -> u32 {
        self.idx
    }

    /// The state of the unit's `GL_TEXTURE_2D` target.
    pub closed spec fn spec_texture_2d(&self) -> T2 {
        self.texture_2d
    }

    /// The state of the unit's `GL_TEXTURE_CUBE_MAP` target.
    pub closed spec fn spec_texture_cube_map(&self) -> TC {
        self.texture_cube_map
    }

    /// A binding whose target states are shared borrows of this binding's.
    pub fn borrowed<'a>(&'a self) -> (r: TextureUnitBindingOf<&'a T2, &'a TC>)
        ensures
            r.spec_idx() == self.spec_idx(),
            *r.spec_texture_2d() == self.spec_texture_2d(),
            *r.spec_texture_cube_map() == self.spec_texture_cube_map(),
    {
        TextureUnitBindingOf { idx: self.idx, texture_2d: &self.texture_2d, texture_cube_map: &self.texture_cube_map }
    }

    /// A binding whose target states are mutable borrows of this binding's:
    /// once it is done with, each target state of this binding is what its
    /// borrow last held.
    pub fn borrowed_mut<'a>(&'a mut self) -> (r: TextureUnitBindingOf<&'a mut T2, &'a mut TC>)
        ensures
            r.spec_idx() == old(self).spec_idx(),
            *r.spec_texture_2d() == old(self).spec_texture_2d(),
            *r.spec_texture_cube_map() == old(self).spec_texture_cube_map(),
            final(self).spec_idx() == old(self).spec_idx(),
            final(self).spec_texture_2d() == *final(r.spec_texture_2d()),
            final(self).spec_texture_cube_map() == *final(r.spec_texture_cube_map()),
    {
        let idx = self.idx;
        TextureUnitBindingOf { idx: idx, texture_2d: &mut self.texture_2d, texture_cube_map: &mut self.texture_cube_map }
    }

    /// A binding for texture unit `idx`, with its targets free.
    fn current_at_idx(idx: u32) -> (r: TextureUnitBinding)
        ensures
            r.spec_idx() == idx,
    {
        TextureUnitBindingOf {
            idx: idx,
            texture_2d: Texture2dBinder::current(),
            texture_cube_map: TextureCubeMapBinder::current(),
        }
    }

    /// Get the index of the texture unit.
    pub fn gl_idx(&self) -> (r: u32)
        ensures
            r == self.spec_idx(),
    {
        self.idx
    }

    /// Get the texture unit as a [`TextureSampler`](struct.TextureSampler.html),
    /// which can be used to set a uniform variable; the index is passed as
    /// OpenGL's signed integer type.
    pub fn sampler(&self) -> (r: TextureSampler)
        ensures
            r.spec_sampler_idx() == self.spec_idx() as i32,
    {
        TextureSampler { idx: self.idx as i32 }
    }

    /// Take the `GL_TEXTURE_2D` state out of the binding.
    fn take_texture_2d(self) -> (r: (T2, TextureUnitBindingOf<(), TC>))
        ensures
            r.0 == self.spec_texture_2d(),
            r.1.spec_texture_cube_map() == self.spec_texture_cube_map(),
            r.1.spec_idx() == self.spec_idx(),
    {
        (self.texture_2d, TextureUnitBindingOf { idx: self.idx, texture_2d: (), texture_cube_map: self.texture_cube_map })
    }

    /// Take the `GL_TEXTURE_CUBE_MAP` state out of the binding.
    fn take_texture_cube_map(self) -> (r: (TC, TextureUnitBindingOf<T2, ()>))
        ensures
            r.0 == self.spec_texture_cube_map(),
            r.1.spec_texture_2d() == self.spec_texture_2d(),
            r.1.spec_idx() == self.spec_idx(),
    {
        (self.texture_cube_map, TextureUnitBindingOf { idx: self.idx, texture_2d: self.texture_2d, texture_cube_map: () })
    }
}

/// A marker trait for types that represent an active texture unit binding.
pub trait ATextureUnitBinding {
}

impl<T2, TC> ATextureUnitBinding for TextureUnitBindingOf<T2, TC> {
}

impl<'b, T2, TC> ATextureUnitBinding for &'b mut TextureUnitBindingOf<T2, TC> {
}

/// A texture unit binding that has a free `GL_TEXTURE_2D` target.
pub trait TextureUnitBinding2d: ATextureUnitBinding + Sized {
    /// The `GL_TEXTURE_2D` binder that the binding holds.
    type Binder;

    /// The texture unit that will be returned after binding the texture.
    type Rest: ATextureUnitBinding;

    /// Split the texture unit into its `GL_TEXTURE_2D` binder and the
    /// remaining texture unit.
    fn split_texture_2d(self) -> (r: (Self::Binder, Self::Rest));

    /// Bind a 2D texture to this texture unit, returning a binding, the
    /// remaining texture unit and the `glBindTexture` command.
    fn bind_texture_2d<'a>(self, tex: &'a mut Texture2d) -> (r: (Texture2dBinding<'a>, Self::Rest, GlCommand))
        ensures
            r.2@ == (GlCommandView::BindTexture { target: 0x0DE1, texture: old(tex).spec_id() }),
            *final(tex) == *old(tex),
    {
        let (_binder, rest) = self.split_texture_2d();
        let (binding, command) = bind_texture_2d_target(tex);
        (binding, rest, command)
    }
}

/// A texture unit binding that has a free `GL_TEXTURE_CUBE_MAP` target.
pub trait TextureUnitBindingCubeMap: ATextureUnitBinding + Sized {
    /// The `GL_TEXTURE_CUBE_MAP` binder that the binding holds.
    type Binder;

    /// The texture unit that will be returned after binding the texture.
    type Rest: ATextureUnitBinding;

    /// Split the texture unit into its `GL_TEXTURE_CUBE_MAP` binder and the
    /// remaining texture unit.
    fn split_texture_cube_map(self) -> (r: (Self::Binder, Self::Rest));

    /// Bind a cubemap texture to this texture unit, returning a binding, the
    /// remaining texture unit and the `glBindTexture` command.
    fn bind_texture_cube_map<'a>(self, tex: &'a mut TextureCubeMap) -> (r: (TextureCubeMapBinding<'a>, Self::Rest, GlCommand))
        ensures
            r.2@ == (GlCommandView::BindTexture { target: 0x8513, texture: old(tex).spec_id() }),
            *final(tex) == *old(tex),
    {
        let (_binder, rest) = self.split_texture_cube_map();
        let (binding, command) = bind_texture_cube_map_target(tex);
        (binding, rest, command)
    }
}

impl<T2: BorrowBinder<Texture2dBinder>, TC> TextureUnitBinding2d for TextureUnitBindingOf<T2, TC> {
    type Binder = T2;
    type Rest = TextureUnitBindingOf<(), TC>;

    fn split_texture_2d(self) -> (r: (T2, Self::Rest))
        ensures
            r.0 == self.spec_texture_2d(),
            r.1.spec_texture_cube_map() == self.spec_texture_cube_map(),
            r.1.spec_idx() == self.spec_idx(),
    {
        self.take_texture_2d()
    }
}

impl<'b, T2: BorrowBinder<Texture2dBinder>, TC> TextureUnitBinding2d for &'b mut TextureUnitBindingOf<T2, TC> {
    type Binder = &'b mut T2;
    type Rest = TextureUnitBindingOf<(), &'b mut TC>;

    fn split_texture_2d(self) -> (r: (&'b mut T2, Self::Rest))
        ensures
            *r.0 == old(self).spec_texture_2d(),
            *r.1.spec_texture_cube_map() == old(self).spec_texture_cube_map(),
            r.1.spec_idx() == old(self).spec_idx(),
            final(self).spec_texture_2d() == *final(r.0),
            final(self).spec_texture_cube_map() == *final(r.1.spec_texture_cube_map()),
            final(self).spec_idx() == old(self).spec_idx(),
    {
        let idx = self.idx;
        (&mut self.texture_2d, TextureUnitBindingOf { idx: idx, texture_2d: (), texture_cube_map: &mut self.texture_cube_map })
    }
}

impl<T2, TC: BorrowBinder<TextureCubeMapBinder>> TextureUnitBindingCubeMap for TextureUnitBindingOf<T2, TC> {
    type Binder = TC;
    type Rest = TextureUnitBindingOf<T2, ()>;

    fn split_texture_cube_map(self) -> (r: (TC, Self::Rest))
        ensures
            r.0 == self.spec_texture_cube_map(),
            r.1.spec_texture_2d() == self.spec_texture_2d(),
            r.1.spec_idx() == self.spec_idx(),
    {
        self.take_texture_cube_map()
    }
}

impl<'b, T2, TC: BorrowBinder<TextureCubeMapBinder>> TextureUnitBindingCubeMap for &'b mut TextureUnitBindingOf<T2, TC> {
    type Binder = &'b mut TC;
    type Rest = TextureUnitBindingOf<&'b mut T2, ()>;

    fn split_texture_cube_map(self) -> (r: (&'b mut TC, Self::Rest))
        ensures
            *r.0 == old(self).spec_texture_cube_map(),
            *r.1.spec_texture_2d() == old(self).spec_texture_2d(),
            r.1.spec_idx() == old(self).spec_idx(),
            final(self).spec_texture_cube_map() == *final(r.0),
            final(self).spec_texture_2d() == *final(r.1.spec_texture_2d()),
            final(self).spec_idx() == old(self).spec_idx(),
    {
        let idx = self.idx;
        (&mut self.texture_cube_map, TextureUnitBindingOf { idx: idx, texture_2d: &mut self.texture_2d, texture_cube_map: () })
    }
}

/// A texture sampler: the index of a texture unit, which can be set as a
/// uniform variable.
#[derive(Debug, Clone, Copy, PartialEq, Eq, Structural)]
pub struct TextureSampler {
    idx: i32,
}

impl TextureSampler {
    /// The index of the texture unit that the sampler reads.
    pub closed spec fn spec_sampler_idx(&self) -> i32 {
        self.idx
    }
}

impl UniformDatum for TextureSampler {
    open spec fn spec_uniform_datum_type() -> UniformDatumType {
        UniformDatumType::Vec1(UniformPrimitiveType::Int)
    }

    open spec fn spec_encodes(&self, bytes: Seq<u8>) -> bool {
        is_native_encoding(bytes, le_bytes_u32(self.spec_sampler_idx() as u32))
    }

    open spec fn spec_datum_size() -> nat {
        4
    }

    fn uniform_datum_type() -> (r: UniformDatumType) {
        UniformDatumType::Vec1(UniformPrimitiveType::Int)
    }

    fn datum_bytes(&self) -> (r: Vec<u8>) {
        self.idx.primitive_bytes()
    }
}

} // verus!
