use boot_stub::entry::{
    Entry, FLAG_ACCESSED, FLAG_DIRTY, FLAG_HUGE_PAGE, FLAG_PRESENT, FLAG_WRITABLE,
    TABLE_ALIGNMENT,
};

#[test]
fn round_trip_simple() {
    let e = Entry::leaf(0x20_0000, 0xe3).unwrap();
    assert_eq!(e.address(), 0x20_0000);
    assert_eq!(e.flags(), 0xe3);
}

#[test]
fn round_trip_zero_address() {
    let e = Entry::leaf(0, FLAG_PRESENT | FLAG_WRITABLE).unwrap();
    assert_eq!(e.address(), 0);
    assert_eq!(e.flags(), 0x3);
}

#[test]
fn round_trip_largest_pair() {
    let address = u64::MAX - (TABLE_ALIGNMENT - 1);
    let flags = TABLE_ALIGNMENT - 1;
    let e = Entry::leaf(address, flags).unwrap();
    assert_eq!(e.address(), address);
    assert_eq!(e.flags(), flags);
    assert_eq!(e.bits, u64::MAX);
}

#[test]
fn round_trip_pointer() {
    let e = Entry::pointer(0x3000, 0x23).unwrap();
    assert_eq!(e.address(), 0x3000);
    assert_eq!(e.flags(), 0x23);
}

#[test]
fn leaf_rejects_misaligned_address() {
    assert!(Entry::leaf(0x20_0001, 0xe3).is_none());
    assert!(Entry::leaf(TABLE_ALIGNMENT / 2, 0).is_none());
}

#[test]
fn leaf_rejects_oversized_flags() {
    assert!(Entry::leaf(0x20_0000, TABLE_ALIGNMENT).is_none());
    assert!(Entry::pointer(0, u64::MAX).is_none());
}

#[test]
fn flag_queries() {
    let e = Entry::leaf(0x40_0000, 0xe3).unwrap();
    assert!(e.has_flags(FLAG_PRESENT));
    assert!(e.has_flags(FLAG_WRITABLE));
    assert!(e.has_flags(FLAG_ACCESSED));
    assert!(e.has_flags(FLAG_DIRTY));
    assert!(e.has_flags(FLAG_HUGE_PAGE));
    let p = Entry::pointer(0x3000, 0x23).unwrap();
    assert!(p.has_flags(FLAG_PRESENT));
    assert!(!p.has_flags(FLAG_HUGE_PAGE));
    let absent = Entry::absent();
    assert!(!absent.has_flags(FLAG_PRESENT));
}
