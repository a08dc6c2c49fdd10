//! The compact read-only pointer.

use crate::arith::{
    align_off, align_offset_val, gap_elements, gap_in_elements, is_pow2, move_back, move_by,
    move_fwd, narrowed_offset, offset_moved, offset_moved_back, offset_moved_fwd, widened_addr,
};
use crate::pointable::{NoMeta, Pointable, PointerConversionError, Sequence, WidePtr};
use vstd::prelude::*;

verus! {

/// A compact read-only pointer into the pool based at `BASE`: a 16-bit
/// byte offset from the base and the pointee's compact metadata. Offset 0
/// means null.
#[verifier::ext_equal]
#[derive(Hash)]
pub struct ConstPtr<T: Pointable, const BASE: usize> {
    /// The byte offset from the pool base; 0 for null.
    pub ptr: u16,
    /// The compact pointee metadata.
    pub meta: T::PointerMetaTiny,
}

impl<T: Pointable, const BASE: usize> ConstPtr<T, BASE> {
    /// Builds the pointer with the given offset and compact metadata.
    pub fn from_raw_parts(ptr: u16, meta: T::PointerMetaTiny) -> (r: Self)
        ensures
            r.ptr == ptr,
            r.meta == meta,
    {
        ConstPtr { ptr, meta }
    }

    /// Narrows a full pointer. The address must lie within 16 bits of the
    /// pool base (a null address narrows to offset 0 regardless), and the
    /// metadata must fit its compact form; each failure reports which
    /// check refused the pointer.
    pub fn new(ptr: WidePtr<T>) -> (r: Result<Self, PointerConversionError>)
        ensures
            narrowed_offset(ptr.addr, BASE) > 0xFFFF ==> r == Err::<Self, _>(
                PointerConversionError::NotInAddressSpace,
            ),
            narrowed_offset(ptr.addr, BASE) <= 0xFFFF && !T::meta_fits(ptr.meta) ==> r == Err::<
                Self,
                _,
            >(PointerConversionError::CannotReduceMeta),
            narrowed_offset(ptr.addr, BASE) <= 0xFFFF && T::meta_fits(ptr.meta) ==> (r matches Ok(p)
                && p.ptr == narrowed_offset(ptr.addr, BASE) as u16 && p.meta == T::tiny_of(
                ptr.meta,
            )),
    {
        let (addr, meta) = T::extract_parts(&ptr);
        let off: usize = if addr == 0 {
            0
        } else {
            addr.wrapping_sub(BASE)
        };
        if off > 0xFFFF {
            return Err(PointerConversionError::NotInAddressSpace);
        }
        match T::try_tiny(meta) {
            Ok(t) => Ok(ConstPtr { ptr: off as u16, meta: t }),
            Err(e) => Err(e),
        }
    }

    /// Narrows a full pointer on the caller's guarantee that the address
    /// is within 16 bits of the pool base and the metadata fits.
    pub fn new_unchecked(ptr: WidePtr<T>) -> (r: Self)
        requires
            narrowed_offset(ptr.addr, BASE) <= 0xFFFF,
            T::meta_fits(ptr.meta),
        ensures
            r.ptr == narrowed_offset(ptr.addr, BASE) as u16,
            r.meta == T::tiny_of(ptr.meta),
    {
        let (addr, meta) = T::extract_parts(&ptr);
        let off: usize = if addr == 0 {
            0
        } else {
            addr.wrapping_sub(BASE)
        };
        ConstPtr { ptr: off as u16, meta: T::tiny_unchecked(meta) }
    }

    /// Widens the pointer back to a full address and full metadata.
    /// Offset 0 widens to the null address.
    pub fn wide(self) -> (r: WidePtr<T>)
        ensures
            r.addr == widened_addr(self.ptr, BASE),
            r.meta == T::huge_of(self.meta),
    {
        let addr: usize = if self.ptr == 0 {
            0
        } else {
            (self.ptr as usize).wrapping_add(BASE)
        };
        T::create_ptr(addr, T::huge(self.meta))
    }

    /// Whether the pointer is null, that is, its offset is 0.
    pub fn is_null(self) -> (r: bool)
        ensures
            r == (self.ptr == 0),
    {
        self.ptr == 0
    }

    /// Keeps the offset and takes the metadata of `val`, giving a pointer
    /// to `val`'s pointee shape.
    pub fn with_metadata_of<U: Pointable>(self, val: ConstPtr<U, BASE>) -> (r: ConstPtr<U, BASE>)
        ensures
            r.ptr == self.ptr,
            r.meta == val.meta,
    {
        ConstPtr { ptr: self.ptr, meta: val.meta }
    }

    /// Splits the pointer into an erased address pointer and the compact
    /// metadata.
    pub fn to_raw_parts(self) -> (r: (ConstPtr<(), BASE>, T::PointerMetaTiny))
        ensures
            r.0.ptr == self.ptr,
            r.1 == self.meta,
    {
        (ConstPtr { ptr: self.ptr, meta: NoMeta }, self.meta)
    }
}

impl<T: Pointable<PointerMetaTiny = NoMeta>, const BASE: usize> ConstPtr<T, BASE> {
    /// Casts to a pointer of another fixed-size pointee, keeping the
    /// offset.
    pub fn cast<U: Pointable<PointerMetaTiny = NoMeta>>(self) -> (r: ConstPtr<U, BASE>)
        ensures
            r.ptr == self.ptr,
    {
        ConstPtr { ptr: self.ptr, meta: NoMeta }
    }

    /// The offset portion of the pointer.
    pub fn addr(self) -> (r: u16)
        ensures
            r == self.ptr,
    {
        self.ptr
    }

    /// The offset portion of the pointer, exposed for later
    /// reconstruction.
    pub fn expose_addr(self) -> (r: u16)
        ensures
            r == self.ptr,
    {
        self.ptr
    }

    /// The pointer with its offset replaced by `addr`.
    pub fn with_addr(self, addr: u16) -> (r: Self)
        ensures
            r.ptr == addr,
            r.meta == self.meta,
    {
        ConstPtr { ptr: addr, meta: self.meta }
    }

    /// The pointer with its offset mapped through `f`.
    pub fn map_addr<F: FnOnce(u16) -> u16>(self, f: F) -> (r: Self)
        requires
            call_requires(f, (self.ptr,)),
        ensures
            call_ensures(f, (self.ptr,), r.ptr),
            r.meta == self.meta,
    {
        let p: u16 = f(self.ptr);
        ConstPtr { ptr: p, meta: self.meta }
    }

    /// Moves the pointer by `count` elements on the caller's guarantee
    /// that the move stays within the 16-bit offset range.
    pub fn offset(self, count: i16) -> (r: Self)
        requires
            0 <= self.ptr + count * T::size_spec() <= 0xFFFF,
        ensures
            r.ptr == self.ptr + count * T::size_spec(),
            r.meta == self.meta,
    {
        let r = self.wrapping_offset(count);
        proof {
            let x: int = self.ptr + count * T::size_spec();
            assert(x % 0x10000 == x);
        }
        r
    }

    /// Moves the pointer by `count` elements of `size_spec()` bytes, with
    /// 16-bit wrapping.
    pub fn wrapping_offset(self, count: i16) -> (r: Self)
        ensures
            r.ptr == offset_moved(self.ptr, count, T::size_spec()),
            r.meta == self.meta,
    {
        ConstPtr { ptr: move_by(self.ptr, count, T::size()), meta: self.meta }
    }

    /// The element distance from `self` to `origin`: the wrapping signed
    /// 16-bit difference of the offsets divided by the element size,
    /// truncating towards zero.
    pub fn offset_from(self, origin: Self) -> (r: i16)
        requires
            1 <= T::size_spec() <= 0x7FFF,
        ensures
            r == gap_in_elements(self.ptr, origin.ptr, T::size_spec()),
    {
        self.wrapping_offset_from(origin)
    }

    /// The element distance from `self` to `origin`, with wrapping signed
    /// 16-bit arithmetic.
    pub fn wrapping_offset_from(self, origin: Self) -> (r: i16)
        requires
            1 <= T::size_spec() <= 0x7FFF,
        ensures
            r == gap_in_elements(self.ptr, origin.ptr, T::size_spec()),
    {
        gap_elements(self.ptr, origin.ptr, T::size())
    }

    /// The element distance from `self` to `origin` as an unsigned count,
    /// on the caller's guarantee that it is not negative.
    pub fn sub_ptr(self, origin: Self) -> (r: u16)
        requires
            1 <= T::size_spec() <= 0x7FFF,
            gap_in_elements(self.ptr, origin.ptr, T::size_spec()) >= 0,
        ensures
            r == gap_in_elements(self.ptr, origin.ptr, T::size_spec()),
    {
        let g: i16 = gap_elements(self.ptr, origin.ptr, T::size());
        g as u16
    }

    /// Moves the pointer forward by `count` elements on the caller's
    /// guarantee that the move stays within the 16-bit offset range.
    pub fn add(self, count: u16) -> (r: Self)
        requires
            self.ptr + count * T::size_spec() <= 0xFFFF,
        ensures
            r.ptr == self.ptr + count * T::size_spec(),
            r.meta == self.meta,
    {
        let r = self.wrapping_add(count);
        proof {
            let x: int = self.ptr + count * T::size_spec();
            assert(x % 0x10000 == x);
        }
        r
    }

    /// Moves the pointer backwards by `count` elements on the caller's
    /// guarantee that the move does not pass offset 0.
    pub fn sub(self, count: u16) -> (r: Self)
        requires
            0 <= self.ptr - count * T::size_spec(),
        ensures
            r.ptr == self.ptr - count * T::size_spec(),
            r.meta == self.meta,
    {
        let r = self.wrapping_sub(count);
        proof {
            let x: int = self.ptr - count * T::size_spec();
            assert(x % 0x10000 == x);
        }
        r
    }

    /// Moves the pointer forward by `count` elements, with 16-bit
    /// wrapping.
    pub fn wrapping_add(self, count: u16) -> (r: Self)
        ensures
            r.ptr == offset_moved_fwd(self.ptr, count, T::size_spec()),
            r.meta == self.meta,
    {
        ConstPtr { ptr: move_fwd(self.ptr, count, T::size()), meta: self.meta }
    }

    /// Moves the pointer backwards by `count` elements, with 16-bit
    /// wrapping.
    pub fn wrapping_sub(self, count: u16) -> (r: Self)
        ensures
            r.ptr == offset_moved_back(self.ptr, count, T::size_spec()),
            r.meta == self.meta,
    {
        ConstPtr { ptr: move_back(self.ptr, count, T::size()), meta: self.meta }
    }

    /// The element count that advances the pointer to the next offset
    /// divisible by `align`, a power of two.
    pub fn align_offset(self, align: u16) -> (r: u16)
        requires
            is_pow2(align),
            T::size_spec() >= 1,
        ensures
            r == align_offset_val(self.ptr, align, T::size_spec()),
    {
        align_off(self.ptr, align, T::size())
    }
}

impl<T: Pointable<PointerMetaTiny = NoMeta>, const BASE: usize> ConstPtr<Sequence<T>, BASE> {
    /// The element count of the sequence pointee, read from the compact
    /// metadata alone.
    pub fn len(self) -> (r: u16)
        ensures
            r == self.meta,
    {
        self.meta
    }

    /// Drops the length metadata, giving a pointer to the first element.
    pub fn as_ptr(self) -> (r: ConstPtr<T, BASE>)
        ensures
            r.ptr == self.ptr,
    {
        ConstPtr { ptr: self.ptr, meta: NoMeta }
    }
}

impl<T: Pointable, const BASE: usize> Clone for ConstPtr<T, BASE> {
    fn clone(&self) -> (r: Self)
        ensures
            r == *self,
    {
        *self
    }
}

impl<T: Pointable, const BASE: usize> Copy for ConstPtr<T, BASE> {

}

impl<T: Pointable, const BASE: usize> PartialEq for ConstPtr<T, BASE> {
    fn eq(&self, other: &Self) -> (r: bool) {
        self.ptr == other.ptr && T::meta_eq(self.meta, other.meta)
    }
}

impl<T: Pointable, const BASE: usize> Eq for ConstPtr<T, BASE> {

}

impl<T: Pointable, const BASE: usize> vstd::std_specs::cmp::PartialEqSpecImpl for ConstPtr<T, BASE> {
    open spec fn obeys_eq_spec() -> bool {
        true
    }

    open spec fn eq_spec(&self, other: &Self) -> bool {
        self.ptr == other.ptr && self.meta == other.meta
    }
}

impl<T: Pointable, const BASE: usize> PartialOrd for ConstPtr<T, BASE> {
    fn partial_cmp(&self, other: &Self) -> (r: Option<core::cmp::Ordering>) {
        if self.ptr < other.ptr {
            Some(core::cmp::Ordering::Less)
        } else if self.ptr > other.ptr {
            Some(core::cmp::Ordering::Greater)
        } else {
            Some(core::cmp::Ordering::Equal)
        }
    }
}

impl<T: Pointable, const BASE: usize> vstd::std_specs::cmp::PartialOrdSpecImpl for ConstPtr<T, BASE> {
    open spec fn obeys_partial_cmp_spec() -> bool {
        true
    }

    open spec fn partial_cmp_spec(&self, other: &Self) -> Option<core::cmp::Ordering> {
        if self.ptr < other.ptr {
            Some(core::cmp::Ordering::Less)
        } else if self.ptr > other.ptr {
            Some(core::cmp::Ordering::Greater)
        } else {
            Some(core::cmp::Ordering::Equal)
        }
    }
}

} // verus!
