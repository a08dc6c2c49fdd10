//! The arithmetic model of compact offsets.
//!
//! A compact offset is a `u16` byte offset from a pool base. All pointer
//! arithmetic moves such an offset with 16-bit wrapping semantics,
//! mirroring native pointer arithmetic. This module states that arithmetic
//! over mathematical integers, and proves the executable wrapping
//! operations against those statements.

use vstd::prelude::*;

verus! {

/// `x` reduced to the 16-bit range, as the stored `u16`.
pub open spec fn wrap16(x: int) -> u16 {
    (x % 0x10000) as u16
}

/// The signed value that the bits of `x` denote in two's complement.
pub open spec fn sig16(x: u16) -> int {
    if x < 0x8000 {
        x as int
    } else {
        x - 0x10000
    }
}

/// Offset `p` moved by `count` elements of `size` bytes, wrapping.
pub open spec fn offset_moved(p: u16, count: i16, size: u16) -> u16 {
    wrap16(p + count * size)
}

/// The 16-bit wrapping negation of `count`.
pub open spec fn neg16(count: i16) -> i16 {
    if count == i16::MIN {
        i16::MIN
    } else {
        (-count) as i16
    }
}

/// Offset `p` moved forward by `count` elements of `size` bytes, wrapping.
pub open spec fn offset_moved_fwd(p: u16, count: u16, size: u16) -> u16 {
    wrap16(p + count * size)
}

/// Offset `p` moved backwards by `count` elements of `size` bytes, wrapping.
pub open spec fn offset_moved_back(p: u16, count: u16, size: u16) -> u16 {
    wrap16(p - count * size)
}

/// The signed 16-bit gap from offset `from` to offset `to`, in bytes.
pub open spec fn signed_gap(from: u16, to: u16) -> int {
    sig16(wrap16(to - from))
}

/// Division truncating towards zero, for a positive divisor.
pub open spec fn trunc_div(d: int, s: int) -> int {
    if d >= 0 {
        d / s
    } else {
        -((-d) / s)
    }
}

/// The element distance from offset `p` to offset `origin`: the signed
/// 16-bit byte gap divided by the element size, truncating towards zero.
pub open spec fn gap_in_elements(p: u16, origin: u16, size: u16) -> int {
    trunc_div(signed_gap(p, origin), size as int)
}

/// Whether `a` is a power of two (and so a valid alignment).
pub open spec fn is_pow2(a: u16) -> bool {
    a != 0 && a & ((a - 1) as u16) == 0
}

/// Offset `p` rounded up to the next multiple of `align` (a power of two),
/// wrapping.
pub open spec fn round_up16(p: u16, align: u16) -> u16 {
    wrap16(p + align - 1) & !((align - 1) as u16)
}

/// The byte distance from offset `p` up to the next multiple of `align`.
pub open spec fn align_distance(p: u16, align: u16) -> u16 {
    wrap16(round_up16(p, align) - p)
}

/// The element count that advances offset `p` to the next multiple of
/// `align`: the byte distance divided by the element size.
pub open spec fn align_offset_val(p: u16, align: u16, size: u16) -> u16 {
    align_distance(p, align) / size
}

/// The compact offset that a full address narrows to: the wrapping
/// difference from the pool base, with a null address forced to offset 0.
pub open spec fn narrowed_offset(addr: usize, base: usize) -> usize {
    if addr == 0 {
        0
    } else {
        vstd::wrapping::usize_specs::wrapping_sub(addr, base)
    }
}

/// The full address that a compact offset widens to: the wrapping sum with
/// the pool base, with offset 0 widened to the null address.
pub open spec fn widened_addr(p: u16, base: usize) -> usize {
    if p == 0 {
        0
    } else {
        vstd::wrapping::usize_specs::wrapping_add(p as usize, base)
    }
}

/// Exec: `p` moved by `count` elements of `size` bytes, with 16-bit wrapping.
pub(crate) fn move_by(p: u16, count: i16, size: u16) -> (r: u16)
    ensures
        r == offset_moved(p, count, size),
{
    let cu: u32 = #[verifier::truncate] (count as u32) & 0xFFFF;
    proof {
        assert((count as u32) & 0xFFFF < 0x10000) by (bit_vector);
        assert(cu * (size as u32) < 0x100000000) by (nonlinear_arith)
            requires
                cu < 0x10000,
                (size as u32) < 0x10000,
        ;
    }
    let prod: u32 = cu * (size as u32);
    let d: u32 = prod & 0xFFFF;
    proof {
        assert(prod & 0xFFFF < 0x10000) by (bit_vector);
    }
    let r: u16 = #[verifier::truncate] ((((p as u32) + d) & 0xFFFF) as u16);
    proof {
        assert(((((p as u32) + ((((count as u32) & 0xFFFF) * (size as u32)) as u32 & 0xFFFF))
            as u32) & 0xFFFF) as u16 == ((p + count * size) % 0x10000) as u16) by (bit_vector);
    }
    r
}

/// Exec: `p` moved forward by `count` elements of `size` bytes, wrapping.
pub(crate) fn move_fwd(p: u16, count: u16, size: u16) -> (r: u16)
    ensures
        r == offset_moved_fwd(p, count, size),
{
    proof {
        assert((count as u32) * (size as u32) < 0x100000000) by (nonlinear_arith)
            requires
                (count as u32) < 0x10000,
                (size as u32) < 0x10000,
        ;
    }
    let prod: u32 = (count as u32) * (size as u32);
    let d: u32 = prod & 0xFFFF;
    proof {
        assert(prod & 0xFFFF < 0x10000) by (bit_vector);
    }
    let r: u16 = #[verifier::truncate] ((((p as u32) + d) & 0xFFFF) as u16);
    proof {
        assert(((((p as u32) + (((count as u32) * (size as u32)) as u32 & 0xFFFF)) as u32)
            & 0xFFFF) as u16 == ((p + count * size) % 0x10000) as u16) by (bit_vector);
    }
    r
}

/// Exec: `p` moved backwards by `count` elements of `size` bytes, wrapping.
pub(crate) fn move_back(p: u16, count: u16, size: u16) -> (r: u16)
    ensures
        r == offset_moved_back(p, count, size),
{
    proof {
        assert((count as u32) * (size as u32) < 0x100000000) by (nonlinear_arith)
            requires
                (count as u32) < 0x10000,
                (size as u32) < 0x10000,
        ;
    }
    let prod: u32 = (count as u32) * (size as u32);
    let d: u32 = prod & 0xFFFF;
    proof {
        assert(prod & 0xFFFF < 0x10000) by (bit_vector);
    }
    let r: u16 = #[verifier::truncate] (((((p as u32) + 0x10000) - d) & 0xFFFF) as u16);
    proof {
        assert((((((p as u32) + 0x10000) - (((count as u32) * (size as u32)) as u32 & 0xFFFF))
            as u32) & 0xFFFF) as u16 == ((p - count * size) % 0x10000) as u16) by (bit_vector);
    }
    r
}

/// Exec: the element distance from offset `p` to offset `origin`.
pub(crate) fn gap_elements(p: u16, origin: u16, size: u16) -> (r: i16)
    requires
        1 <= size <= 0x7FFF,
    ensures
        r == gap_in_elements(p, origin, size),
{
    let diff: u16 = origin.wrapping_sub(p);
    proof {
        assert(vstd::wrapping::u16_specs::wrapping_sub(origin, p) == ((origin - p)
            % 0x10000) as u16);
    }
    if diff < 0x8000 {
        let q: u16 = diff / size;
        q as i16
    } else {
        let mag: u32 = 0x10000u32 - (diff as u32);
        let q: u32 = mag / (size as u32);
        let r32: i32 = 0i32 - (q as i32);
        r32 as i16
    }
}

/// Exec: the element count that advances offset `p` to the next multiple
/// of `align`, a power of two.
pub(crate) fn align_off(p: u16, align: u16, size: u16) -> (r: u16)
    requires
        is_pow2(align),
        size >= 1,
    ensures
        r == align_offset_val(p, align, size),
{
    let mask: u16 = !(align - 1);
    let up: u16 = #[verifier::truncate] (((((p as u32) + (align as u32)) - 1) & 0xFFFF) as u16)
        & mask;
    proof {
        assert((((((p as u32) + (align as u32)) - 1) as u32 & 0xFFFF) as u16) & !((align
            - 1) as u16) == (((p + align - 1) % 0x10000) as u16) & !((align - 1) as u16)) by (bit_vector)
            requires
                align >= 1,
        ;
    }
    let d: u16 = #[verifier::truncate] (((((up as u32) + 0x10000) - (p as u32)) & 0xFFFF) as u16);
    proof {
        assert(((((up as u32) + 0x10000) - (p as u32)) as u32 & 0xFFFF) as u16 == ((up - p)
            % 0x10000) as u16) by (bit_vector);
    }
    d / size
}

} // verus!
