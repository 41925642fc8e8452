use fsnotify::operations::{
    Operations, ACCESS, ALL, ATTRIB, CLOSE_NOWRITE, CLOSE_WRITE, CREATE, DELETE, IS_DIR, MODIFY,
    MOUNT, MOVE, OPEN, OVERFLOW, UNMOUNT,
};

#[test]
fn flags_have_their_values() {
    assert_eq!(CREATE, 0x0001);
    assert_eq!(DELETE, 0x0002);
    assert_eq!(MOVE, 0x0004);
    assert_eq!(ACCESS, 0x0008);
    assert_eq!(ATTRIB, 0x0010);
    assert_eq!(MODIFY, 0x0020);
    assert_eq!(OPEN, 0x0040);
    assert_eq!(CLOSE_WRITE, 0x0080);
    assert_eq!(CLOSE_NOWRITE, 0x0100);
    assert_eq!(UNMOUNT, 0x0240);
    assert_eq!(MOUNT, 0x0400);
    assert_eq!(IS_DIR, 0x0800);
    assert_eq!(OVERFLOW, 0x1000);
}

#[test]
fn all_is_the_union_of_the_flags() {
    let every = CREATE | DELETE | MOVE | ACCESS | ATTRIB | MODIFY | OPEN | CLOSE_WRITE
        | CLOSE_NOWRITE | UNMOUNT | MOUNT | IS_DIR | OVERFLOW;
    assert_eq!(every, 0x1fff);
    assert_eq!(ALL, every);
    assert_eq!(Operations::all().bits(), 0x1fff);
    assert!(Operations::all().is_all());
    assert!(!Operations::all().is_empty());
}

#[test]
fn empty_has_no_flag() {
    assert_eq!(Operations::empty().bits(), 0);
    assert!(Operations::empty().is_empty());
    assert!(!Operations::empty().is_all());
}

#[test]
fn from_bits_refuses_unknown_bits() {
    assert_eq!(Operations::from_bits(CREATE | MODIFY).map(|o| o.bits()), Some(0x0021));
    assert_eq!(Operations::from_bits(0), Some(Operations::empty()));
    assert_eq!(Operations::from_bits(0x2000), None);
    assert_eq!(Operations::from_bits(0x1fff | 0x8000_0000), None);
}

#[test]
fn from_bits_truncate_drops_unknown_bits() {
    assert_eq!(Operations::from_bits_truncate(0x2003).bits(), 0x0003);
    assert_eq!(Operations::from_bits_truncate(u32::MAX), Operations::all());
}

#[test]
fn contains_and_intersects() {
    let create_delete = Operations::from_bits_truncate(CREATE | DELETE);
    let create = Operations::from_bits_truncate(CREATE);
    let modify = Operations::from_bits_truncate(MODIFY);
    assert!(create_delete.contains(create));
    assert!(!create.contains(create_delete));
    assert!(create_delete.contains(Operations::empty()));
    assert!(create_delete.intersects(create));
    assert!(!create_delete.intersects(modify));
    assert!(!create_delete.intersects(Operations::empty()));
    assert!(Operations::all().contains(create_delete));
}

#[test]
fn unmount_shares_a_bit_with_open() {
    let unmount = Operations::from_bits_truncate(UNMOUNT);
    let open = Operations::from_bits_truncate(OPEN);
    assert!(unmount.contains(open));
    assert!(open.intersects(unmount));
    assert!(!open.contains(unmount));
}

#[test]
fn union_and_intersection() {
    let a = Operations::from_bits_truncate(CREATE | DELETE);
    let b = Operations::from_bits_truncate(DELETE | MOVE);
    assert_eq!(a.union(b).bits(), 0x0007);
    assert_eq!(a.intersection(b).bits(), 0x0002);
    assert_eq!(a.union(Operations::empty()), a);
    assert_eq!(a.intersection(Operations::all()), a);
}
