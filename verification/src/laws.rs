//! The laws of the pointer representation.
//!
//! Public proof functions stating what holds of narrowing, widening,
//! wrapping arithmetic, alignment, pointer equality and the free-list
//! operations, proved from the same specifications that the executable
//! functions are verified against.

use crate::arith::{
    align_offset_val, is_pow2, narrowed_offset, neg16, offset_moved, widened_addr, wrap16,
};
use crate::const_ptr::ConstPtr;
use crate::list_node::ListNode;
use crate::mut_ptr::MutPtr;
use crate::non_null::NonNull;
use crate::pointable::Pointable;
use vstd::prelude::*;

verus! {

/// Narrowing an address to a compact offset and widening it back
/// restores the address: for the null address through offset 0, and for
/// any address whose wrapping distance from the base lies in 1..=65535.
/// (An address equal to the base itself narrows to offset 0 and so
/// widens to null instead.)
pub proof fn lemma_narrow_widen_round_trip(addr: usize, base: usize)
    requires
        addr == 0 || 1 <= narrowed_offset(addr, base) <= 0xFFFF,
    ensures
        widened_addr(narrowed_offset(addr, base) as u16, base) == addr,
{
}

/// The full round trip of fallible construction and decoding: both the
/// address and any metadata that fits its compact form are restored.
pub proof fn lemma_pointer_round_trip<T: Pointable>(addr: usize, base: usize, meta: T::PointerMeta)
    requires
        addr == 0 || 1 <= narrowed_offset(addr, base) <= 0xFFFF,
        T::meta_fits(meta),
    ensures
        widened_addr(narrowed_offset(addr, base) as u16, base) == addr,
        T::huge_of(T::tiny_of(meta)) == meta,
{
    lemma_narrow_widen_round_trip(addr, base);
    T::lemma_meta_roundtrip(meta);
}

/// Wrapping pointer arithmetic is reversible: moving an offset by
/// `count` elements and then by the 16-bit negation of `count` restores
/// the offset, for every count and element size.
pub proof fn lemma_wrapping_offset_round_trip(p: u16, count: i16, size: u16)
    ensures
        offset_moved(offset_moved(p, count, size), neg16(count), size) == p,
{
    let c: int = count as int;
    let n: int = neg16(count) as int;
    let s: int = size as int;
    let m: int = 0x10000;
    assert((count + neg16(count)) % 0x10000 == 0) by (bit_vector);
    let k: int = (c + n) / m;
    vstd::arithmetic::div_mod::lemma_fundamental_div_mod(c + n, m);
    assert(c + n == m * k);
    vstd::arithmetic::mul::lemma_mul_is_distributive_add_other_way(s, c, n);
    assert(c * s + n * s == (c + n) * s);
    vstd::arithmetic::mul::lemma_mul_is_associative(m, k, s);
    assert((c + n) * s == m * (k * s));
    vstd::arithmetic::div_mod::lemma_mod_multiples_vanish(k * s, 0, m);
    assert((count * size + neg16(count) * size) % 0x10000 == 0);
    let q: u16 = offset_moved(p, count, size);
    assert(q == (p + c * s) % 0x10000);
    vstd::arithmetic::div_mod::lemma_add_mod_noop(p + c * s, n * s, 0x10000);
    vstd::arithmetic::div_mod::lemma_small_mod(q as nat, 0x10000);
    assert((q + n * s) % 0x10000 == ((p + c * s) + n * s) % 0x10000);
    vstd::arithmetic::div_mod::lemma_add_mod_noop(p as int, c * s + n * s, 0x10000);
    assert((p + (c * s + n * s)) % 0x10000 == (p as int) % 0x10000);
    vstd::arithmetic::div_mod::lemma_small_mod(p as nat, 0x10000);
}

/// What the alignment offset achieves: for a power-of-two alignment that
/// the element size divides, and an offset that is a multiple of the
/// element size, the returned element count advances the offset to a
/// multiple of the alignment, and moves it by less than one whole
/// alignment span.
pub proof fn lemma_align_offset_aligns(p: u16, align: u16, size: u16)
    by (bit_vector)
    requires
        is_pow2(align),
        size >= 1,
        align % size == 0,
        p % size == 0,
    ensures
        align_offset_val(p, align, size) * size < align,
        wrap16(p + align_offset_val(p, align, size) * size) % align == 0,
{
}

/// Two read-only pointers of one pool built from the same offset and the
/// same compact metadata are the same pointer.
pub proof fn lemma_equal_parts_equal_const<T: Pointable, const BASE: usize>(
    p: ConstPtr<T, BASE>,
    q: ConstPtr<T, BASE>,
)
    requires
        p.ptr == q.ptr,
        p.meta == q.meta,
    ensures
        p == q,
{
    assert(p =~= q);
}

/// Two mutable pointers of one pool built from the same offset and the
/// same compact metadata are the same pointer.
pub proof fn lemma_equal_parts_equal_mut<T: Pointable, const BASE: usize>(
    p: MutPtr<T, BASE>,
    q: MutPtr<T, BASE>,
)
    requires
        p.ptr == q.ptr,
        p.meta == q.meta,
    ensures
        p == q,
{
    assert(p =~= q);
}

/// Linking a block behind a node and then unlinking the node's successor
/// restores the node exactly, and leaves the block's own `next` stale:
/// still aimed at the node's former successor. The hypotheses are what
/// `link_next` guarantees of the two nodes it writes and what
/// `unlink_next` then guarantees of the relinked node.
pub proof fn lemma_link_then_unlink_restores<const BASE: usize>(
    n1: ListNode<BASE>,
    x: ListNode<BASE>,
    xp: NonNull<ListNode<BASE>, BASE>,
    n1_linked: ListNode<BASE>,
    x_linked: ListNode<BASE>,
    n1_unlinked: ListNode<BASE>,
)
    requires
        xp.spec_addr() != 0,
        n1_linked.next.ptr == xp.spec_addr(),
        n1_linked.size == n1.size,
        x_linked.next == n1.next,
        x_linked.size == x.size,
        n1_unlinked.next == x_linked.next,
        n1_unlinked.size == n1_linked.size,
    ensures
        n1_unlinked == n1,
        x_linked.next == n1.next,
{
    assert(n1_unlinked =~= n1);
}

} // verus!
