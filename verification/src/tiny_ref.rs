//! The compact read-only borrowed view.

use crate::non_null::NonNull;
use crate::pointable::Pointable;
use vstd::prelude::*;

verus! {

/// A read-only borrowed view of a pointee: a non-null compact pointer
/// with a declared lifetime bound. The aliasing discipline is the
/// caller's: building one declares that the pointee stays valid and
/// unchanged for the lifetime.
pub struct Ref<'a, T: Pointable, const BASE: usize> {
    ptr: NonNull<T, BASE>,
    marker: core::marker::PhantomData<&'a T>,
}

impl<'a, T: Pointable, const BASE: usize> Ref<'a, T, BASE> {
    /// The offset portion of the view; never 0.
    pub closed spec fn spec_addr(self) -> u16 {
        self.ptr.spec_addr()
    }

    /// The compact pointee metadata.
    pub closed spec fn spec_meta(self) -> T::PointerMetaTiny {
        self.ptr.spec_meta()
    }

    /// Declares a read-only borrowed view of the pointee of `ptr`, on the
    /// caller's guarantee that the pointee is valid and unaliased by
    /// writers for `'a`.
    pub fn new(ptr: NonNull<T, BASE>) -> (r: Self)
        ensures
            r.spec_addr() == ptr.spec_addr(),
            r.spec_meta() == ptr.spec_meta(),
    {
        Ref { ptr, marker: core::marker::PhantomData }
    }

    /// The non-null pointer under the view.
    pub fn as_non_null(&self) -> (r: NonNull<T, BASE>)
        ensures
            r.spec_addr() == self.spec_addr(),
            r.spec_meta() == self.spec_meta(),
    {
        self.ptr
    }
}

impl<'a, T: Pointable, const BASE: usize> Clone for Ref<'a, T, BASE> {
    fn clone(&self) -> (r: Self)
        ensures
            r == *self,
    {
        *self
    }
}

impl<'a, T: Pointable, const BASE: usize> Copy for Ref<'a, T, BASE> {

}

} // verus!
