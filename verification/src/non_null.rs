//! The compact non-null pointer.

use crate::mut_ptr::MutPtr;
use crate::pointable::{NoMeta, Pointable, Sequence};
use vstd::prelude::*;

verus! {

/// A compact mutable pointer that is never null: its offset is never 0,
/// so no per-use null check is needed downstream. Same representation as
/// the nullable mutable pointer otherwise.
#[derive(Hash)]
pub struct NonNull<T: Pointable, const BASE: usize> {
    ptr: u16,
    meta: T::PointerMetaTiny,
}

impl<T: Pointable, const BASE: usize> NonNull<T, BASE> {
    /// The offset portion of the pointer; never 0.
    pub closed spec fn spec_addr(self) -> u16 {
        self.ptr
    }

    /// The compact pointee metadata.
    pub closed spec fn spec_meta(self) -> T::PointerMetaTiny {
        self.meta
    }

    #[verifier::type_invariant]
    spec fn inv(self) -> bool {
        self.ptr != 0
    }

    /// Wraps a mutable pointer on the caller's guarantee that it is not
    /// null.
    pub fn new_unchecked(ptr: MutPtr<T, BASE>) -> (r: Self)
        requires
            ptr.ptr != 0,
        ensures
            r.spec_addr() == ptr.ptr,
            r.spec_meta() == ptr.meta,
    {
        NonNull { ptr: ptr.ptr, meta: ptr.meta }
    }

    /// Wraps a mutable pointer, refusing a null one.
    pub fn new(ptr: MutPtr<T, BASE>) -> (r: Option<Self>)
        ensures
            (ptr.ptr == 0) == (r is None),
            r matches Some(nn) ==> nn.spec_addr() == ptr.ptr && nn.spec_meta() == ptr.meta,
    {
        if ptr.is_null() {
            None
        } else {
            Some(NonNull { ptr: ptr.ptr, meta: ptr.meta })
        }
    }

    /// Builds the pointer from an erased non-null address pointer and
    /// compact metadata.
    pub fn from_raw_parts(data_address: NonNull<(), BASE>, metadata: T::PointerMetaTiny) -> (r:
        Self)
        ensures
            r.spec_addr() == data_address.spec_addr(),
            r.spec_meta() == metadata,
    {
        proof {
            use_type_invariant(data_address);
        }
        NonNull { ptr: data_address.ptr, meta: metadata }
    }

    /// Splits the pointer into an erased non-null address pointer and the
    /// compact metadata.
    pub fn to_raw_parts(self) -> (r: (NonNull<(), BASE>, T::PointerMetaTiny))
        ensures
            r.0.spec_addr() == self.spec_addr(),
            r.1 == self.spec_meta(),
    {
        proof {
            use_type_invariant(self);
        }
        (NonNull { ptr: self.ptr, meta: NoMeta }, self.meta)
    }

    /// The offset portion of the pointer; never 0.
    pub fn addr(self) -> (r: u16)
        ensures
            r == self.spec_addr(),
            r != 0,
    {
        proof {
            use_type_invariant(self);
        }
        self.ptr
    }

    /// The same pointer as a nullable mutable pointer; its offset is not
    /// 0.
    pub fn as_ptr(self) -> (r: MutPtr<T, BASE>)
        ensures
            r.ptr == self.spec_addr(),
            r.meta == self.spec_meta(),
            r.ptr != 0,
    {
        proof {
            use_type_invariant(self);
        }
        MutPtr::from_raw_parts(self.ptr, self.meta)
    }

    /// Casts to a non-null pointer of a fixed-size pointee, dropping the
    /// metadata and keeping the offset.
    pub fn cast<U: Pointable<PointerMetaTiny = NoMeta>>(self) -> (r: NonNull<U, BASE>)
        ensures
            r.spec_addr() == self.spec_addr(),
    {
        proof {
            use_type_invariant(self);
        }
        NonNull { ptr: self.ptr, meta: NoMeta }
    }
}

impl<T: Pointable<PointerMetaTiny = NoMeta>, const BASE: usize> NonNull<T, BASE> {
    /// A dangling but well-aligned pointer: its offset is the pointee
    /// alignment, which is at least 1.
    pub fn dangling() -> (r: Self)
        ensures
            r.spec_addr() == T::align_spec(),
    {
        NonNull { ptr: T::align(), meta: NoMeta }
    }

    /// The pointer with its offset replaced by `addr`, which must not be
    /// 0.
    pub fn with_addr(self, addr: u16) -> (r: Self)
        requires
            addr != 0,
        ensures
            r.spec_addr() == addr,
            r.spec_meta() == self.spec_meta(),
    {
        NonNull { ptr: addr, meta: self.meta }
    }

    /// The pointer with its offset mapped through `f`, which must map a
    /// non-zero offset to a non-zero offset.
    pub fn map_addr<F: FnOnce(u16) -> u16>(self, f: F) -> (r: Self)
        requires
            call_requires(f, (self.spec_addr(),)),
            forall|y: u16| call_ensures(f, (self.spec_addr(),), y) ==> y != 0,
        ensures
            call_ensures(f, (self.spec_addr(),), r.spec_addr()),
            r.spec_meta() == self.spec_meta(),
    {
        let p: u16 = f(self.addr());
        NonNull { ptr: p, meta: self.meta }
    }
}

impl<T: Pointable<PointerMetaTiny = NoMeta>, const BASE: usize> NonNull<Sequence<T>, BASE> {
    /// Attaches a length to a non-null element pointer, giving a sequence
    /// pointer.
    pub fn slice_from_raw_parts(data: NonNull<T, BASE>, len: u16) -> (r: Self)
        ensures
            r.spec_addr() == data.spec_addr(),
            r.spec_meta() == len,
    {
        proof {
            use_type_invariant(data);
        }
        NonNull { ptr: data.ptr, meta: len }
    }

    /// The element count of the sequence pointee, read from the compact
    /// metadata alone.
    pub fn len(self) -> (r: u16)
        ensures
            r == self.spec_meta(),
    {
        self.meta
    }

    /// Drops the length metadata, giving a non-null pointer to the first
    /// element.
    pub fn as_non_null_ptr(self) -> (r: NonNull<T, BASE>)
        ensures
            r.spec_addr() == self.spec_addr(),
    {
        proof {
            use_type_invariant(self);
        }
        NonNull { ptr: self.ptr, meta: NoMeta }
    }

    /// Drops the length metadata, giving a nullable mutable pointer to the
    /// first element; its offset is not 0.
    pub fn as_mut_ptr(self) -> (r: MutPtr<T, BASE>)
        ensures
            r.ptr == self.spec_addr(),
            r.ptr != 0,
    {
        self.as_non_null_ptr().as_ptr()
    }
}

impl<T: Pointable, const BASE: usize> Clone for NonNull<T, BASE> {
    fn clone(&self) -> (r: Self)
        ensures
            r == *self,
    {
        *self
    }
}

impl<T: Pointable, const BASE: usize> Copy for NonNull<T, BASE> {

}

impl<T: Pointable, const BASE: usize> PartialEq for NonNull<T, BASE> {
    fn eq(&self, other: &Self) -> (r: bool) {
        self.ptr == other.ptr && T::meta_eq(self.meta, other.meta)
    }
}

impl<T: Pointable, const BASE: usize> Eq for NonNull<T, BASE> {

}

impl<T: Pointable, const BASE: usize> vstd::std_specs::cmp::PartialEqSpecImpl for NonNull<T, BASE> {
    open spec fn obeys_eq_spec() -> bool {
        true
    }

    open spec fn eq_spec(&self, other: &Self) -> bool {
        self.spec_addr() == other.spec_addr() && self.spec_meta() == other.spec_meta()
    }
}

impl<T: Pointable, const BASE: usize> PartialOrd for NonNull<T, BASE> {
    fn partial_cmp(&self, other: &Self) -> (r: Option<core::cmp::Ordering>) {
        if self.ptr < other.ptr {
            Some(core::cmp::Ordering::Less)
        } else if self.ptr > other.ptr {
            Some(core::cmp::Ordering::Greater)
        } else {
            Some(core::cmp::Ordering::Equal)
        }
    }
}

impl<T: Pointable, const BASE: usize> vstd::std_specs::cmp::PartialOrdSpecImpl for NonNull<T, BASE> {
    open spec fn obeys_partial_cmp_spec() -> bool {
        true
    }

    open spec fn partial_cmp_spec(&self, other: &Self) -> Option<core::cmp::Ordering> {
        if self.spec_addr() < other.spec_addr() {
            Some(core::cmp::Ordering::Less)
        } else if self.spec_addr() > other.spec_addr() {
            Some(core::cmp::Ordering::Greater)
        } else {
            Some(core::cmp::Ordering::Equal)
        }
    }
}

} // verus!
