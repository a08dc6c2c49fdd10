use std::collections::hash_map::DefaultHasher;
use std::hash::Hash;
use std::hash::Hasher;
use tinyptr::ConstPtr;
use tinyptr::MutPtr;
use tinyptr::NoMeta;
use tinyptr::Pointable;
use tinyptr::PointerConversionError;
use tinyptr::Sequence;
use tinyptr::WidePtr;

const BASE: usize = 0x1000;

#[test]
fn round_trip_fixed_size() {
    let p = ConstPtr::<u8, BASE>::new(WidePtr { addr: 0x1234, meta: NoMeta }).unwrap();
    assert_eq!(p.addr(), 0x234);
    assert!(!p.is_null());
    let w = p.wide();
    assert_eq!(w.addr, 0x1234);
}

#[test]
fn round_trip_top_of_range() {
    let p = ConstPtr::<u8, BASE>::new(WidePtr { addr: BASE + 0xFFFF, meta: NoMeta }).unwrap();
    assert_eq!(p.addr(), 0xFFFF);
    assert_eq!(p.wide().addr, BASE + 0xFFFF);
}

#[test]
fn null_round_trips_through_offset_zero() {
    let p = ConstPtr::<u8, BASE>::new(WidePtr { addr: 0, meta: NoMeta }).unwrap();
    assert!(p.is_null());
    assert_eq!(p.addr(), 0);
    assert_eq!(p.wide().addr, 0);
}

#[test]
fn base_address_narrows_to_null() {
    let p = ConstPtr::<u8, BASE>::new(WidePtr { addr: BASE, meta: NoMeta }).unwrap();
    assert!(p.is_null());
    assert_eq!(p.wide().addr, 0);
}

#[test]
fn address_out_of_range_above() {
    let r = ConstPtr::<u8, BASE>::new(WidePtr { addr: BASE + 0x10000, meta: NoMeta });
    assert!(r == Err(PointerConversionError::NotInAddressSpace));
}

#[test]
fn address_out_of_range_below() {
    let r = ConstPtr::<u8, BASE>::new(WidePtr { addr: 0x10, meta: NoMeta });
    assert!(r == Err(PointerConversionError::NotInAddressSpace));
}

#[test]
fn sequence_metadata_too_large() {
    let r = ConstPtr::<Sequence<u16>, BASE>::new(WidePtr { addr: BASE + 8, meta: 0x10000 });
    assert!(r == Err(PointerConversionError::CannotReduceMeta));
}

#[test]
fn sequence_round_trip_with_length() {
    let p = ConstPtr::<Sequence<u16>, BASE>::new(WidePtr { addr: BASE + 8, meta: 0xFFFF }).unwrap();
    assert_eq!(p.len(), 0xFFFF);
    let w = p.wide();
    assert_eq!(w.addr, BASE + 8);
    assert_eq!(w.meta, 0xFFFF);
}

#[test]
fn address_checked_before_metadata() {
    let r = ConstPtr::<Sequence<u16>, BASE>::new(WidePtr { addr: BASE + 0x10000, meta: 0x10000 });
    assert!(r == Err(PointerConversionError::NotInAddressSpace));
}

#[test]
fn new_unchecked_matches_new() {
    let a = ConstPtr::<u16, BASE>::new_unchecked(WidePtr { addr: BASE + 0x42, meta: NoMeta });
    let b = ConstPtr::<u16, BASE>::new(WidePtr { addr: BASE + 0x42, meta: NoMeta }).unwrap();
    assert!(a == b);
}

#[test]
fn from_raw_parts_and_accessors() {
    let p = ConstPtr::<u16, BASE>::from_raw_parts(0x20, NoMeta);
    assert_eq!(p.addr(), 0x20);
    assert_eq!(p.expose_addr(), 0x20);
    assert_eq!(p.with_addr(0x30).addr(), 0x30);
    assert_eq!(p.map_addr(|a| a + 2).addr(), 0x22);
}

#[test]
fn to_raw_parts_splits_offset_and_meta() {
    let p = ConstPtr::<Sequence<u16>, BASE>::from_raw_parts(0x40, 7);
    let (erased, meta) = p.to_raw_parts();
    assert_eq!(erased.ptr, 0x40);
    assert_eq!(meta, 7);
}

#[test]
fn cast_keeps_offset() {
    let p = ConstPtr::<u8, BASE>::from_raw_parts(0x33, NoMeta);
    let q: ConstPtr<u32, BASE> = p.cast();
    assert_eq!(q.addr(), 0x33);
}

#[test]
fn with_metadata_of_takes_target_meta() {
    let p = ConstPtr::<u8, BASE>::from_raw_parts(0x33, NoMeta);
    let s = ConstPtr::<Sequence<u16>, BASE>::from_raw_parts(0x50, 9);
    let q = p.with_metadata_of(s);
    assert_eq!(q.ptr, 0x33);
    assert_eq!(q.len(), 9);
}

#[test]
fn wrapping_add_moves_by_element_size() {
    let p = ConstPtr::<u16, BASE>::from_raw_parts(0x10, NoMeta);
    assert_eq!(p.wrapping_add(3).addr(), 0x16);
    assert_eq!(p.wrapping_sub(3).addr(), 0x0A);
}

#[test]
fn wrapping_add_wraps_around() {
    let p = ConstPtr::<u16, BASE>::from_raw_parts(0xFFFE, NoMeta);
    assert_eq!(p.wrapping_add(2).addr(), 0x0002);
    let q = ConstPtr::<u16, BASE>::from_raw_parts(0x0002, NoMeta);
    assert_eq!(q.wrapping_sub(2).addr(), 0xFFFE);
}

#[test]
fn checked_add_sub_and_offset() {
    let p = ConstPtr::<u32, BASE>::from_raw_parts(0x100, NoMeta);
    assert_eq!(p.add(4).addr(), 0x110);
    assert_eq!(p.sub(4).addr(), 0xF0);
    assert_eq!(p.offset(-2).addr(), 0xF8);
    assert_eq!(p.offset(2).addr(), 0x108);
}

#[test]
fn wrapping_offset_round_trip() {
    let p = ConstPtr::<u16, BASE>::from_raw_parts(0x8123, NoMeta);
    let moved = p.wrapping_offset(0x7001);
    assert!(moved.wrapping_offset(-0x7001) == p);
    let extreme = p.wrapping_offset(i16::MIN);
    assert!(extreme.wrapping_offset(i16::MIN) == p);
}

#[test]
fn offset_from_measures_element_distance() {
    let p = ConstPtr::<u16, BASE>::from_raw_parts(10, NoMeta);
    let origin = ConstPtr::<u16, BASE>::from_raw_parts(20, NoMeta);
    assert_eq!(p.offset_from(origin), 5);
    assert_eq!(origin.offset_from(p), -5);
    assert_eq!(p.wrapping_offset_from(origin), 5);
    assert_eq!(p.sub_ptr(origin), 5);
}

#[test]
fn offset_from_truncates_towards_zero() {
    let p = ConstPtr::<u16, BASE>::from_raw_parts(0, NoMeta);
    let origin = ConstPtr::<u16, BASE>::from_raw_parts(5, NoMeta);
    assert_eq!(p.offset_from(origin), 2);
    assert_eq!(origin.offset_from(p), -2);
}

#[test]
fn align_offset_reaches_aligned_offset() {
    let p = ConstPtr::<u16, BASE>::from_raw_parts(6, NoMeta);
    let k = p.align_offset(8);
    assert_eq!(k, 1);
    let moved = p.wrapping_add(k);
    assert_eq!(moved.addr() % 8, 0);
    assert!(u32::from(k) * 2 < 8);
}

#[test]
fn align_offset_zero_when_aligned() {
    let p = ConstPtr::<u16, BASE>::from_raw_parts(0x40, NoMeta);
    assert_eq!(p.align_offset(8), 0);
    assert_eq!(p.align_offset(1), 0);
}

#[test]
fn align_offset_with_byte_elements() {
    let p = ConstPtr::<u8, BASE>::from_raw_parts(0x41, NoMeta);
    assert_eq!(p.align_offset(0x20), 0x1F);
}

#[test]
fn equal_parts_compare_equal_and_hash_identically() {
    let a = ConstPtr::<u16, BASE>::from_raw_parts(0x77, NoMeta);
    let b = ConstPtr::<u16, BASE>::from_raw_parts(0x77, NoMeta);
    assert!(a == b);
    let mut ha = DefaultHasher::new();
    a.hash(&mut ha);
    let mut hb = DefaultHasher::new();
    b.hash(&mut hb);
    assert_eq!(ha.finish(), hb.finish());
    let c = ConstPtr::<u16, BASE>::from_raw_parts(0x78, NoMeta);
    assert!(a != c);
}

#[test]
fn sequence_pointers_compare_by_offset_and_length() {
    let a = ConstPtr::<Sequence<u16>, BASE>::from_raw_parts(0x10, 4);
    let b = ConstPtr::<Sequence<u16>, BASE>::from_raw_parts(0x10, 4);
    let c = ConstPtr::<Sequence<u16>, BASE>::from_raw_parts(0x10, 5);
    assert!(a == b);
    assert!(a != c);
}

#[test]
fn pointers_order_by_offset() {
    let a = ConstPtr::<u16, BASE>::from_raw_parts(0x10, NoMeta);
    let b = ConstPtr::<u16, BASE>::from_raw_parts(0x20, NoMeta);
    assert!(a < b);
    assert!(b > a);
    assert!(a <= a);
}

#[test]
fn mut_pointer_mirrors_const_pointer() {
    let p = MutPtr::<u16, BASE>::new(WidePtr { addr: BASE + 0x24, meta: NoMeta }).unwrap();
    assert_eq!(p.addr(), 0x24);
    let c = p.as_const();
    assert_eq!(c.addr(), 0x24);
    assert_eq!(p.wide().addr, BASE + 0x24);
    assert_eq!(p.wrapping_add(1).addr(), 0x26);
}

#[test]
fn mut_sequence_as_mut_ptr() {
    let p = MutPtr::<Sequence<u8>, BASE>::from_raw_parts(0x60, 12);
    assert_eq!(p.len(), 12);
    assert_eq!(p.as_mut_ptr().addr(), 0x60);
}

#[test]
fn pointee_shape_sizes() {
    assert_eq!(<u8 as Pointable>::size(), 1);
    assert_eq!(<u16 as Pointable>::size(), 2);
    assert_eq!(<u32 as Pointable>::size(), 4);
    assert_eq!(<u32 as Pointable>::align(), 4);
}

#[test]
fn extract_and_create_are_inverse() {
    let w = <Sequence<u16> as Pointable>::create_ptr(0x2000, 33);
    let (addr, meta) = <Sequence<u16> as Pointable>::extract_parts(&w);
    assert_eq!(addr, 0x2000);
    assert_eq!(meta, 33);
}

#[test]
fn sequence_metadata_narrowing() {
    assert!(<Sequence<u16> as Pointable>::try_tiny(0xFFFF) == Ok(0xFFFF));
    assert!(
        <Sequence<u16> as Pointable>::try_tiny(0x10000)
            == Err(PointerConversionError::CannotReduceMeta)
    );
    assert_eq!(<Sequence<u16> as Pointable>::tiny(1234), 1234);
    assert_eq!(<Sequence<u16> as Pointable>::tiny_unchecked(1234), 1234);
    assert_eq!(<Sequence<u16> as Pointable>::huge(1234), 1234);
}
