//! Conversions of a piece of OpenGL state into a borrowed form of itself.

use vstd::prelude::*;

verus! {

/// A type that can be borrowed as another type, `Ref`.
pub trait ToRef<'a> {
    /// The borrowed form of the type.
    type Ref: 'a;

    /// The borrowed form of `self`.
    spec fn spec_to_ref(&'a self) -> Self::Ref;

    /// Borrow `self`.
    fn to_ref(&'a self) -> (r: Self::Ref)
        ensures
            r == self.spec_to_ref(),
    ;
}

/// A type that can be mutably borrowed as another type, `Mut`.
pub trait ToMut<'a>: ToRef<'a> + Sized {
    /// The mutably borrowed form of the type.
    type Mut: 'a;

    /// Whether `r` is the mutably borrowed form of a value that was `pre`
    /// when it was borrowed and is `post` once the borrow is done with.
    spec fn spec_to_mut(pre: Self, post: Self, r: Self::Mut) -> bool;

    /// Mutably borrow `self`.
    fn to_mut(&'a mut self) -> (r: Self::Mut)
        ensures
            Self::spec_to_mut(*old(self), *final(self), r),
    ;
}

} // verus!
