//! The compact owning pointer.

use crate::mut_ptr::MutPtr;
use crate::non_null::NonNull;
use crate::pointable::{NoMeta, Pointable};
use vstd::prelude::*;

verus! {

/// A compact non-null pointer that declares exclusive ownership: no other
/// live alias of the address exists while it is held. The declaration is
/// kept structurally: a value of this type cannot be duplicated, only
/// moved.
pub struct Unique<T: Pointable, const BASE: usize> {
    pointer: NonNull<T, BASE>,
}

impl<T: Pointable, const BASE: usize> Unique<T, BASE> {
    /// The offset portion of the pointer; never 0.
    pub closed spec fn spec_addr(self) -> u16 {
        self.pointer.spec_addr()
    }

    /// The compact pointee metadata.
    pub closed spec fn spec_meta(self) -> T::PointerMetaTiny {
        self.pointer.spec_meta()
    }

    /// Wraps a mutable pointer on the caller's guarantee that it is not
    /// null.
    pub fn new_unchecked(ptr: MutPtr<T, BASE>) -> (r: Self)
        requires
            ptr.ptr != 0,
        ensures
            r.spec_addr() == ptr.ptr,
            r.spec_meta() == ptr.meta,
    {
        Unique { pointer: NonNull::new_unchecked(ptr) }
    }

    /// Wraps a mutable pointer, refusing a null one.
    pub fn new(ptr: MutPtr<T, BASE>) -> (r: Option<Self>)
        ensures
            (ptr.ptr == 0) == (r is None),
            r matches Some(u) ==> u.spec_addr() == ptr.ptr && u.spec_meta() == ptr.meta,
    {
        match NonNull::new(ptr) {
            Some(v) => Some(Unique { pointer: v }),
            None => None,
        }
    }

    /// Takes ownership declared by a non-null pointer, on the caller's
    /// guarantee that no other live alias of the address exists.
    pub fn from_non_null(pointer: NonNull<T, BASE>) -> (r: Self)
        ensures
            r.spec_addr() == pointer.spec_addr(),
            r.spec_meta() == pointer.spec_meta(),
    {
        Unique { pointer }
    }

    /// The pointer as a nullable mutable pointer; its offset is not 0.
    pub fn as_ptr(&self) -> (r: MutPtr<T, BASE>)
        ensures
            r.ptr == self.spec_addr(),
            r.meta == self.spec_meta(),
            r.ptr != 0,
    {
        self.pointer.as_ptr()
    }
}

impl<T: Pointable<PointerMetaTiny = NoMeta>, const BASE: usize> Unique<T, BASE> {
    /// A dangling but well-aligned pointer: its offset is the pointee
    /// alignment, which is at least 1.
    pub fn dangling() -> (r: Self)
        ensures
            r.spec_addr() == T::align_spec(),
    {
        Unique { pointer: NonNull::dangling() }
    }

    /// Casts to an owning pointer of another fixed-size pointee, keeping
    /// the offset.
    pub fn cast<U: Pointable<PointerMetaTiny = NoMeta>>(self) -> (r: Unique<U, BASE>)
        ensures
            r.spec_addr() == self.spec_addr(),
    {
        Unique { pointer: self.pointer.cast() }
    }
}

} // verus!
