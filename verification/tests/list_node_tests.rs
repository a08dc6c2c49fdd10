use tinyptr::ListNode;
use tinyptr::MutPtr;
use tinyptr::NoMeta;
use tinyptr::NonNull;

const BASE: usize = 0x4000;

fn node_at(next_off: u16, size: u16) -> ListNode<BASE> {
    ListNode { next: MutPtr::from_raw_parts(next_off, NoMeta), size }
}

#[test]
fn next_is_none_at_end_of_list() {
    let tail = node_at(0, 48);
    assert!(tail.next().is_none());
}

#[test]
fn next_returns_successor_pointer() {
    let n = node_at(0x20, 16);
    let nn = n.next().unwrap();
    assert_eq!(nn.addr(), 0x20);
}

#[test]
fn link_then_unlink_restores_chain_and_leaves_stale_next() {
    // chain: n1 (at 0x10) -> n2 (at 0x20) -> n3 (at 0x30) -> end
    let mut n1 = node_at(0x20, 12);
    let n2 = node_at(0x30, 12);
    let n3 = node_at(0, 12);
    assert!(n3.next().is_none());

    // link x (at 0x40) behind n1: n1 -> x -> n2 -> n3
    let mut x = node_at(0xDEAD, 20);
    let xp = NonNull::new(MutPtr::<ListNode<BASE>, BASE>::from_raw_parts(0x40, NoMeta)).unwrap();
    n1.link_next(xp, &mut x);
    assert_eq!(n1.next.ptr, 0x40);
    assert_eq!(x.next.ptr, 0x20);
    assert_eq!(n1.size, 12);
    assert_eq!(x.size, 20);

    // unlink n1's successor (x): n1 -> n2 -> n3 again
    n1.unlink_next(Some(&x));
    assert_eq!(n1.next.ptr, 0x20);
    assert_eq!(n1.size, 12);
    // x's own next is left stale, still aimed at n2
    assert_eq!(x.next.ptr, 0x20);
    assert_eq!(n2.next.ptr, 0x30);
}

#[test]
fn link_at_tail_makes_new_tail() {
    let mut tail = node_at(0, 32);
    let mut x = node_at(0x77, 8);
    let xp = NonNull::new(MutPtr::<ListNode<BASE>, BASE>::from_raw_parts(0x50, NoMeta)).unwrap();
    tail.link_next(xp, &mut x);
    assert_eq!(tail.next.ptr, 0x50);
    assert_eq!(x.next.ptr, 0);
    assert!(x.next().is_none());
}

#[test]
fn unlink_next_on_tail_is_a_no_op() {
    let mut tail = node_at(0, 64);
    let before = tail;
    tail.unlink_next(None);
    assert!(tail == before);
    assert_eq!(tail.size, 64);
    assert!(tail.next().is_none());
}

#[test]
fn unlink_next_skips_to_successor_of_successor() {
    let mut n1 = node_at(0x20, 4);
    let n2 = node_at(0, 4);
    n1.unlink_next(Some(&n2));
    assert_eq!(n1.next.ptr, 0);
    assert!(n1.next().is_none());
}

#[test]
fn node_equality_is_by_fields() {
    let a = node_at(0x20, 4);
    let b = node_at(0x20, 4);
    let c = node_at(0x20, 5);
    assert!(a == b);
    assert!(a != c);
}
