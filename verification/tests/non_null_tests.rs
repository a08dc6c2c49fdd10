use tinyptr::MutPtr;
use tinyptr::NoMeta;
use tinyptr::NonNull;
use tinyptr::Ref;
use tinyptr::Sequence;
use tinyptr::Unique;

const BASE: usize = 0x8000;

#[test]
fn non_null_refuses_offset_zero() {
    let null = MutPtr::<u16, BASE>::from_raw_parts(0, NoMeta);
    assert!(NonNull::new(null).is_none());
}

#[test]
fn non_null_accepts_and_round_trips_nonzero_offsets() {
    let p = MutPtr::<u16, BASE>::from_raw_parts(0x42, NoMeta);
    let nn = NonNull::new(p).unwrap();
    assert_eq!(nn.addr(), 0x42);
    assert!(nn.as_ptr() == p);
}

#[test]
fn non_null_new_unchecked() {
    let p = MutPtr::<u16, BASE>::from_raw_parts(0x99, NoMeta);
    let nn = NonNull::new_unchecked(p);
    assert_eq!(nn.addr(), 0x99);
}

#[test]
fn dangling_is_aligned_and_not_null() {
    let d = NonNull::<u32, BASE>::dangling();
    assert_eq!(d.addr(), 4);
    let d2 = NonNull::<u16, BASE>::dangling();
    assert_eq!(d2.addr(), 2);
}

#[test]
fn non_null_with_addr_and_map_addr() {
    let nn = NonNull::new(MutPtr::<u16, BASE>::from_raw_parts(0x10, NoMeta)).unwrap();
    assert_eq!(nn.with_addr(0x20).addr(), 0x20);
    assert_eq!(nn.map_addr(|a| a | 1).addr(), 0x11);
}

#[test]
fn non_null_cast_keeps_offset() {
    let nn = NonNull::new(MutPtr::<u16, BASE>::from_raw_parts(0x10, NoMeta)).unwrap();
    let c: NonNull<u8, BASE> = nn.cast();
    assert_eq!(c.addr(), 0x10);
}

#[test]
fn non_null_raw_parts_round_trip() {
    let nn = NonNull::new(MutPtr::<Sequence<u8>, BASE>::from_raw_parts(0x30, 6)).unwrap();
    let (erased, meta) = nn.to_raw_parts();
    assert_eq!(erased.addr(), 0x30);
    assert_eq!(meta, 6);
    let back: NonNull<Sequence<u8>, BASE> = NonNull::from_raw_parts(erased, meta);
    assert_eq!(back.addr(), 0x30);
    assert_eq!(back.len(), 6);
}

#[test]
fn slice_from_raw_parts_attaches_length() {
    let data = NonNull::new(MutPtr::<u16, BASE>::from_raw_parts(0x50, NoMeta)).unwrap();
    let s = NonNull::<Sequence<u16>, BASE>::slice_from_raw_parts(data, 8);
    assert_eq!(s.len(), 8);
    assert_eq!(s.as_non_null_ptr().addr(), 0x50);
    assert_eq!(s.as_mut_ptr().addr(), 0x50);
}

#[test]
fn non_null_equality_by_parts() {
    let a = NonNull::new(MutPtr::<u16, BASE>::from_raw_parts(0x11, NoMeta)).unwrap();
    let b = NonNull::new(MutPtr::<u16, BASE>::from_raw_parts(0x11, NoMeta)).unwrap();
    let c = NonNull::new(MutPtr::<u16, BASE>::from_raw_parts(0x12, NoMeta)).unwrap();
    assert!(a == b);
    assert!(a != c);
}

#[test]
fn unique_refuses_null_and_wraps_nonzero() {
    assert!(Unique::new(MutPtr::<u16, BASE>::from_raw_parts(0, NoMeta)).is_none());
    let u = Unique::new(MutPtr::<u16, BASE>::from_raw_parts(0x21, NoMeta)).unwrap();
    assert_eq!(u.as_ptr().addr(), 0x21);
}

#[test]
fn unique_new_unchecked_and_cast() {
    let u = Unique::<u16, BASE>::new_unchecked(MutPtr::from_raw_parts(0x44, NoMeta));
    assert_eq!(u.as_ptr().addr(), 0x44);
    let v: Unique<u8, BASE> = u.cast();
    assert_eq!(v.as_ptr().addr(), 0x44);
}

#[test]
fn unique_dangling_and_from_non_null() {
    let u = Unique::<u32, BASE>::dangling();
    assert_eq!(u.as_ptr().addr(), 4);
    let nn = NonNull::new(MutPtr::<u32, BASE>::from_raw_parts(0x64, NoMeta)).unwrap();
    let v = Unique::from_non_null(nn);
    assert_eq!(v.as_ptr().addr(), 0x64);
}

#[test]
fn borrowed_view_keeps_pointer() {
    let nn = NonNull::new(MutPtr::<u16, BASE>::from_raw_parts(0x2A, NoMeta)).unwrap();
    let r = Ref::new(nn);
    let copy = r;
    assert_eq!(copy.as_non_null().addr(), 0x2A);
    assert_eq!(r.as_non_null().addr(), 0x2A);
}
