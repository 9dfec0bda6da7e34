//! Conversions from a value, or a reference to one, into a reference.

use vstd::prelude::*;

verus! {

/// A value that can be viewed, through a shared borrow, as a `T`.
pub trait RefInto<'a, T>: MutInto<'a, T> {
    /// The `T` that a shared borrow of `self` gives.
    spec fn spec_ref_into(&'a self) -> T;

    /// View `self` as a `T`.
    fn ref_into(&'a self) -> (r: T)
        ensures
            r == self.spec_ref_into(),
    ;
}

/// A value that can be viewed, through a mutable borrow, as a `T`.
pub trait MutInto<'a, T>: Sized {
    /// Whether `r` is what a mutable borrow of a value gives, the value being
    /// `pre` when it was borrowed and `post` once the borrow is done with.
    spec fn spec_mut_into(pre: Self, post: Self, r: T) -> bool;

    /// View `self` as a `T`.
    fn mut_into(&'a mut self) -> (r: T)
        ensures
            Self::spec_mut_into(*old(self), *final(self), r),
    ;
}

impl<'a, U: 'a> RefInto<'a, &'a U> for U {
    open spec fn spec_ref_into(&'a self) -> &'a U {
        self
    }

    fn ref_into(&'a self) -> (r: &'a U) {
        self
    }
}

impl<'a, U: 'a> RefInto<'a, &'a U> for &'a U {
    open spec fn spec_ref_into(&'a self) -> &'a U {
        &**self
    }

    fn ref_into(&'a self) -> (r: &'a U) {
        &**self
    }
}

impl<'a, U: 'a> MutInto<'a, &'a U> for U {
    /// A shared view of the value, which it leaves unchanged.
    open spec fn spec_mut_into(pre: U, post: U, r: &'a U) -> bool {
        *r == pre && post == pre
    }

    fn mut_into(&'a mut self) -> (r: &'a U) {
        self
    }
}

impl<'a, U: 'a> MutInto<'a, &'a U> for &'a U {
    /// The reference itself, which stays unchanged.
    open spec fn spec_mut_into(pre: &'a U, post: &'a U, r: &'a U) -> bool {
        *r == *pre && post == pre
    }

    fn mut_into(&'a mut self) -> (r: &'a U) {
        &**self
    }
}

impl<'a, U: 'a> MutInto<'a, &'a U> for &'a mut U {
    /// A shared view of the referenced value, which it leaves unchanged.
    open spec fn spec_mut_into(pre: &'a mut U, post: &'a mut U, r: &'a U) -> bool {
        *r == *pre && *post == *pre
    }

    fn mut_into(&'a mut self) -> (r: &'a U) {
        &**self
    }
}

impl<'a, U: 'a> MutInto<'a, &'a mut U> for U {
    /// A mutable view of the value, holding the value as it was.
    open spec fn spec_mut_into(pre: U, post: U, r: &'a mut U) -> bool {
        *r == pre
    }

    fn mut_into(&'a mut self) -> (r: &'a mut U) {
        self
    }
}

impl<'a, U: 'a> MutInto<'a, &'a mut U> for &'a mut U {
    /// A mutable view of the referenced value, holding it as it was.
    open spec fn spec_mut_into(pre: &'a mut U, post: &'a mut U, r: &'a mut U) -> bool {
        *r == *pre
    }

    fn mut_into(&'a mut self) -> (r: &'a mut U) {
        &mut **self
    }
}

} // verus!
