//! The intrusive free-list node.
//!
//! An allocator writes such a node at the start of every free block and
//! chains the blocks into a singly linked list. The node is two fields: a
//! nullable pointer to the next free block (null exactly at the end of
//! the list) and the usable payload size behind the node header.
//!
//! The operations here are the pure value transformations of the list
//! head fields. Reading the node that a pointer refers to out of pool
//! memory, and writing it back, is the caller's part; the caller hands
//! the pointed-at node in and out as a plain value.

use crate::mut_ptr::MutPtr;
use crate::non_null::NonNull;
use crate::pointable::{NoMeta, Pointable, PointerConversionError};
use vstd::prelude::*;

verus! {

/// An intrusive free-list node: the header of a free memory block. The
/// `next` pointer is stored with its pointee type erased, and points at
/// the node written into the next free block.
#[verifier::ext_equal]
pub struct ListNode<const BASE: usize> {
    /// The next free block, or null at the end of the list.
    pub next: MutPtr<(), BASE>,
    /// The usable payload capacity behind this header, in bytes.
    pub size: u16,
}

/// The node as a pointee shape: a fixed-size value of 4 bytes (a 2-byte
/// compact pointer and a 2-byte size), aligned to 2 bytes, with no
/// pointer metadata.
impl<const BASE: usize> Pointable for ListNode<BASE> {
    type PointerMeta = NoMeta;

    type PointerMetaTiny = NoMeta;

    open spec fn size_spec() -> u16 {
        4
    }

    open spec fn align_spec() -> u16 {
        2
    }

    open spec fn meta_fits(meta: NoMeta) -> bool {
        true
    }

    open spec fn tiny_of(meta: NoMeta) -> NoMeta {
        NoMeta
    }

    open spec fn huge_of(tiny: NoMeta) -> NoMeta {
        NoMeta
    }

    fn size() -> u16 {
        4
    }

    fn align() -> u16 {
        2
    }

    fn try_tiny(meta: NoMeta) -> Result<NoMeta, PointerConversionError> {
        Ok(NoMeta)
    }

    fn tiny(meta: NoMeta) -> NoMeta {
        NoMeta
    }

    fn tiny_unchecked(meta: NoMeta) -> NoMeta {
        NoMeta
    }

    fn huge(meta: NoMeta) -> NoMeta {
        NoMeta
    }

    fn meta_eq(a: NoMeta, b: NoMeta) -> bool {
        true
    }

    proof fn lemma_meta_roundtrip(meta: NoMeta) {
    }
}

impl<const BASE: usize> ListNode<BASE> {
    /// The linked successor, or `None` at the end of the list.
    pub fn next(&self) -> (r: Option<NonNull<ListNode<BASE>, BASE>>)
        ensures
            (self.next.ptr == 0) == (r is None),
            r matches Some(nn) ==> nn.spec_addr() == self.next.ptr,
    {
        match NonNull::new(self.next) {
            Some(nn) => Some(nn.cast()),
            None => None,
        }
    }

    /// Links the block at `block` right behind this node: the block's
    /// node takes this node's successor, and this node's `next` is aimed
    /// at the block. Correct also at the end of the list, where the block
    /// becomes the new tail. The caller guarantees that the block is not
    /// linked anywhere else and passes the node it holds in
    /// `block_node`.
    pub fn link_next(&mut self, block: NonNull<ListNode<BASE>, BASE>, block_node: &mut ListNode<
        BASE,
    >)
        ensures
            final(self).next.ptr == block.spec_addr(),
            final(self).size == old(self).size,
            final(block_node).next == old(self).next,
            final(block_node).size == old(block_node).size,
    {
        block_node.next = self.next;
        self.next = block.cast::<()>().as_ptr();
    }

    /// Unlinks this node's successor: a no-op when `next` is null, else
    /// `next` skips to the successor's successor. The caller passes the
    /// successor node it holds in `next_node` (or `None` at the end of
    /// the list); the unlinked node's own `next` is left stale, to be
    /// overwritten before reuse.
    pub fn unlink_next(&mut self, next_node: Option<&ListNode<BASE>>)
        requires
            old(self).next.ptr != 0 ==> next_node is Some,
        ensures
            old(self).next.ptr == 0 ==> *final(self) == *old(self),
            old(self).next.ptr != 0 ==> (next_node matches Some(n) ==> final(self).next == n.next
                && final(self).size == old(self).size),
    {
        if self.next.is_null() {
            return ;
        }
        if let Some(n) = next_node {
            self.next = n.next;
        }
    }
}

impl<const BASE: usize> Clone for ListNode<BASE> {
    fn clone(&self) -> (r: Self)
        ensures
            r == *self,
    {
        *self
    }
}

impl<const BASE: usize> Copy for ListNode<BASE> {

}

impl<const BASE: usize> PartialEq for ListNode<BASE> {
    fn eq(&self, other: &Self) -> (r: bool) {
        let same_next: bool = self.next == other.next;
        proof {
            if self.next.ptr == other.next.ptr && self.next.meta == other.next.meta {
                assert(self.next =~= other.next);
            }
        }
        same_next && self.size == other.size
    }
}

impl<const BASE: usize> Eq for ListNode<BASE> {

}

impl<const BASE: usize> vstd::std_specs::cmp::PartialEqSpecImpl for ListNode<BASE> {
    open spec fn obeys_eq_spec() -> bool {
        true
    }

    open spec fn eq_spec(&self, other: &Self) -> bool {
        self.next == other.next && self.size == other.size
    }
}

} // verus!
