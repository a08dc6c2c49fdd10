//! Compact 16-bit pointers for bounded memory pools.
//!
//! A pointer into a pool of at most 64 KiB is stored as a 16-bit byte offset
//! from the pool's base address, plus compact metadata for pointee shapes
//! that need more than an address (a sequence carries its element count).
//! Offset 0 is reserved to mean null wherever nullability is allowed.
//!
//! The pool identity is a const generic base address, so pointers of
//! different pools have different types and never mix.

mod arith;
mod const_ptr;
mod laws;
mod list_node;
mod mut_ptr;
mod non_null;
mod pointable;
mod tiny_ref;
mod unique;

pub use arith::{
    align_distance, align_offset_val, gap_in_elements, is_pow2, narrowed_offset, neg16,
    offset_moved, offset_moved_back, offset_moved_fwd, round_up16, sig16, signed_gap, trunc_div,
    widened_addr, wrap16,
};
pub use const_ptr::ConstPtr;
pub use laws::{
    lemma_align_offset_aligns, lemma_equal_parts_equal_const, lemma_equal_parts_equal_mut,
    lemma_link_then_unlink_restores, lemma_narrow_widen_round_trip, lemma_pointer_round_trip,
    lemma_wrapping_offset_round_trip,
};
pub use list_node::ListNode;
pub use mut_ptr::MutPtr;
pub use non_null::NonNull;
pub use pointable::{NoMeta, Pointable, PointerConversionError, Sequence, WidePtr};
pub use tiny_ref::Ref;
pub use unique::Unique;
