//! Pointee shapes and their metadata.
//!
//! A pointee shape describes what a pointer of this library can point at:
//! a fixed-size value (no metadata) or a sequence of fixed-size elements
//! (the element count is the metadata). The shape says how to narrow the
//! full metadata to its compact 16-bit form and how to widen it back.

use vstd::prelude::*;

verus! {

/// Why a full pointer could not be narrowed to its compact form.
#[derive(Clone, Copy, Debug, PartialEq, Eq, Structural)]
pub enum PointerConversionError {
    /// The pointer's address is not within 16 bits of the pool base.
    NotInAddressSpace,
    /// The pointer metadata does not fit into its compact form.
    CannotReduceMeta,
}

/// A full pointer, decomposed into plain values: an address and the
/// pointee's metadata. This is what a compact pointer is narrowed from and
/// widened back to; the library itself never dereferences one.
pub struct WidePtr<T: Pointable> {
    /// The address the pointer denotes; 0 for a null pointer.
    pub addr: usize,
    /// The pointee metadata (for a sequence, its element count).
    pub meta: T::PointerMeta,
}

/// A shape of pointer destination: fixed-size value or sequence.
///
/// An implementation fixes the metadata types, the element size used by
/// pointer arithmetic, and the narrowing of metadata to 16 bits.
pub trait Pointable: Sized {
    /// The full pointer metadata.
    type PointerMeta: Copy;
    /// The compact form of the pointer metadata.
    type PointerMetaTiny: Copy + Eq + core::hash::Hash;

    /// The pointee size in bytes that pointer arithmetic moves by.
    spec fn size_spec() -> u16;

    /// The pointee alignment in bytes; at least 1.
    spec fn align_spec() -> u16;

    /// Whether the metadata fits into its compact form.
    spec fn meta_fits(meta: Self::PointerMeta) -> bool;

    /// The compact form of metadata that fits.
    spec fn tiny_of(meta: Self::PointerMeta) -> Self::PointerMetaTiny;

    /// The full metadata denoted by a compact form.
    spec fn huge_of(tiny: Self::PointerMetaTiny) -> Self::PointerMeta;

    /// The pointee size in bytes.
    fn size() -> (r: u16)
        ensures
            r == Self::size_spec(),
    ;

    /// The pointee alignment in bytes.
    fn align() -> (r: u16)
        ensures
            r == Self::align_spec(),
            r >= 1,
    ;

    /// Tries to reduce the pointer metadata to its compact form.
    fn try_tiny(meta: Self::PointerMeta) -> (r: Result<
        Self::PointerMetaTiny,
        PointerConversionError,
    >)
        ensures
            Self::meta_fits(meta) ==> r == Ok::<_, PointerConversionError>(Self::tiny_of(meta)),
            !Self::meta_fits(meta) ==> r == Err::<Self::PointerMetaTiny, _>(
                PointerConversionError::CannotReduceMeta,
            ),
    ;

    /// Reduces metadata known to fit to its compact form.
    fn tiny(meta: Self::PointerMeta) -> (r: Self::PointerMetaTiny)
        requires
            Self::meta_fits(meta),
        ensures
            r == Self::tiny_of(meta),
    ;

    /// Reduces metadata to its compact form on the caller's guarantee that
    /// it fits.
    fn tiny_unchecked(meta: Self::PointerMeta) -> (r: Self::PointerMetaTiny)
        requires
            Self::meta_fits(meta),
        ensures
            r == Self::tiny_of(meta),
    ;

    /// Widens compact metadata to the full metadata; always succeeds.
    fn huge(meta: Self::PointerMetaTiny) -> (r: Self::PointerMeta)
        ensures
            r == Self::huge_of(meta),
    ;

    /// Decomposes a full pointer into its address and its metadata.
    fn extract_parts(ptr: &WidePtr<Self>) -> (r: (usize, Self::PointerMeta))
        ensures
            r.0 == ptr.addr,
            r.1 == ptr.meta,
    {
        (ptr.addr, ptr.meta)
    }

    /// Builds the full pointer that denotes `addr` with metadata `meta`.
    fn create_ptr(addr: usize, meta: Self::PointerMeta) -> (r: WidePtr<Self>)
        ensures
            r.addr == addr,
            r.meta == meta,
    {
        WidePtr { addr, meta }
    }

    /// Decides equality of two compact metadata values.
    fn meta_eq(a: Self::PointerMetaTiny, b: Self::PointerMetaTiny) -> (r: bool)
        ensures
            r == (a == b),
    ;

    /// Narrowing then widening restores metadata that fits.
    proof fn lemma_meta_roundtrip(meta: Self::PointerMeta)
        ensures
            Self::meta_fits(meta) ==> Self::huge_of(Self::tiny_of(meta)) == meta,
    ;
}

/// The absent metadata of a fixed-size pointee: a zero-width value.
#[derive(Clone, Copy, Debug, PartialEq, Eq, Hash, Structural)]
pub struct NoMeta;

/// The unit pointee: the shape of an address with no size and no metadata.
impl Pointable for () {
    type PointerMeta = NoMeta;

    type PointerMetaTiny = NoMeta;

    open spec fn size_spec() -> u16 {
        0
    }

    open spec fn align_spec() -> u16 {
        1
    }

    open spec fn meta_fits(meta: NoMeta) -> bool {
        true
    }

    open spec fn tiny_of(meta: NoMeta) -> NoMeta {
        NoMeta
    }

    open spec fn huge_of(tiny: NoMeta) -> NoMeta {
        NoMeta
    }

    fn size() -> u16 {
        0
    }

    fn align() -> u16 {
        1
    }

    fn try_tiny(meta: NoMeta) -> Result<NoMeta, PointerConversionError> {
        Ok(NoMeta)
    }

    fn tiny(meta: NoMeta) -> NoMeta {
        NoMeta
    }

    fn tiny_unchecked(meta: NoMeta) -> NoMeta {
        NoMeta
    }

    fn huge(meta: NoMeta) -> NoMeta {
        NoMeta
    }

    fn meta_eq(a: NoMeta, b: NoMeta) -> bool {
        true
    }

    proof fn lemma_meta_roundtrip(meta: NoMeta) {
    }
}


/// A `1`-byte scalar as a fixed-size pointee shape.
impl Pointable for u8 {
    type PointerMeta = NoMeta;

    type PointerMetaTiny = NoMeta;

    open spec fn size_spec() -> u16 {
        1
    }

    open spec fn align_spec() -> u16 {
        1
    }

    open spec fn meta_fits(meta: NoMeta) -> bool {
        true
    }

    open spec fn tiny_of(meta: NoMeta) -> NoMeta {
        NoMeta
    }

    open spec fn huge_of(tiny: NoMeta) -> NoMeta {
        NoMeta
    }

    fn size() -> u16 {
        1
    }

    fn align() -> u16 {
        1
    }

    fn try_tiny(meta: NoMeta) -> Result<NoMeta, PointerConversionError> {
        Ok(NoMeta)
    }

    fn tiny(meta: NoMeta) -> NoMeta {
        NoMeta
    }

    fn tiny_unchecked(meta: NoMeta) -> NoMeta {
        NoMeta
    }

    fn huge(meta: NoMeta) -> NoMeta {
        NoMeta
    }

    fn meta_eq(a: NoMeta, b: NoMeta) -> bool {
        true
    }

    proof fn lemma_meta_roundtrip(meta: NoMeta) {
    }
}

/// A `2`-byte scalar as a fixed-size pointee shape.
impl Pointable for u16 {
    type PointerMeta = NoMeta;

    type PointerMetaTiny = NoMeta;

    open spec fn size_spec() -> u16 {
        2
    }

    open spec fn align_spec() -> u16 {
        2
    }

    open spec fn meta_fits(meta: NoMeta) -> bool {
        true
    }

    open spec fn tiny_of(meta: NoMeta) -> NoMeta {
        NoMeta
    }

    open spec fn huge_of(tiny: NoMeta) -> NoMeta {
        NoMeta
    }

    fn size() -> u16 {
        2
    }

    fn align() -> u16 {
        2
    }

    fn try_tiny(meta: NoMeta) -> Result<NoMeta, PointerConversionError> {
        Ok(NoMeta)
    }

    fn tiny(meta: NoMeta) -> NoMeta {
        NoMeta
    }

    fn tiny_unchecked(meta: NoMeta) -> NoMeta {
        NoMeta
    }

    fn huge(meta: NoMeta) -> NoMeta {
        NoMeta
    }

    fn meta_eq(a: NoMeta, b: NoMeta) -> bool {
        true
    }

    proof fn lemma_meta_roundtrip(meta: NoMeta) {
    }
}

/// A `4`-byte scalar as a fixed-size pointee shape.
impl Pointable for u32 {
    type PointerMeta = NoMeta;

    type PointerMetaTiny = NoMeta;

    open spec fn size_spec() -> u16 {
        4
    }

    open spec fn align_spec() -> u16 {
        4
    }

    open spec fn meta_fits(meta: NoMeta) -> bool {
        true
    }

    open spec fn tiny_of(meta: NoMeta) -> NoMeta {
        NoMeta
    }

    open spec fn huge_of(tiny: NoMeta) -> NoMeta {
        NoMeta
    }

    fn size() -> u16 {
        4
    }

    fn align() -> u16 {
        4
    }

    fn try_tiny(meta: NoMeta) -> Result<NoMeta, PointerConversionError> {
        Ok(NoMeta)
    }

    fn tiny(meta: NoMeta) -> NoMeta {
        NoMeta
    }

    fn tiny_unchecked(meta: NoMeta) -> NoMeta {
        NoMeta
    }

    fn huge(meta: NoMeta) -> NoMeta {
        NoMeta
    }

    fn meta_eq(a: NoMeta, b: NoMeta) -> bool {
        true
    }

    proof fn lemma_meta_roundtrip(meta: NoMeta) {
    }
}
/// The shape of a sequence of `T` values: the metadata is the element
/// count, compacted to 16 bits. The type is a marker; a value of it is
/// never made.
pub struct Sequence<T> {
    marker: core::marker::PhantomData<T>,
}

impl<T> Clone for Sequence<T> {
    fn clone(&self) -> (r: Self) {
        Sequence { marker: core::marker::PhantomData }
    }
}

impl<T> Copy for Sequence<T> {

}

/// The sequence shape: the metadata is the element count. Pointer
/// arithmetic is not offered on sequence pointers (their compact
/// metadata is not absent), so the shape declares no element size of its
/// own.
impl<T: Pointable<PointerMetaTiny = NoMeta>> Pointable for Sequence<T> {
    type PointerMeta = usize;

    type PointerMetaTiny = u16;

    open spec fn size_spec() -> u16 {
        0
    }

    open spec fn align_spec() -> u16 {
        T::align_spec()
    }

    open spec fn meta_fits(meta: usize) -> bool {
        meta <= 0xFFFF
    }

    open spec fn tiny_of(meta: usize) -> u16 {
        meta as u16
    }

    open spec fn huge_of(tiny: u16) -> usize {
        tiny as usize
    }

    fn size() -> u16 {
        0
    }

    fn align() -> u16 {
        T::align()
    }

    fn try_tiny(meta: usize) -> Result<u16, PointerConversionError> {
        if meta <= 0xFFFF {
            Ok(meta as u16)
        } else {
            Err(PointerConversionError::CannotReduceMeta)
        }
    }

    fn tiny(meta: usize) -> u16 {
        meta as u16
    }

    fn tiny_unchecked(meta: usize) -> u16 {
        #[verifier::truncate] (meta as u16)
    }

    fn huge(meta: u16) -> usize {
        meta as usize
    }

    fn meta_eq(a: u16, b: u16) -> bool {
        a == b
    }

    proof fn lemma_meta_roundtrip(meta: usize) {
    }
}

} // verus!
