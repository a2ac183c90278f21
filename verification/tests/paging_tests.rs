use boot_stub::entry::{
    FLAG_DIRTY, FLAG_HUGE_PAGE, FLAG_PRESENT, FLAG_WRITABLE, TABLE_ALIGNMENT,
};
use boot_stub::paging::{
    DEFAULT_MAPPED_HUGE_PAGES, MAX_MAPPED_HUGE_PAGES, build_identity_map,
};
use boot_stub::table::{
    HUGE_PAGE_SIZE, LEAF_FLAGS, POINTER_FLAGS, build_leaf_level, build_leaf_level_partial,
    build_pointer_level,
};

#[test]
fn leaf_table_first_entries() {
    let t = build_leaf_level(0);
    assert_eq!(t.entries.len(), 512);
    let e0 = t.get(0);
    assert_eq!(e0.address(), 0);
    assert_eq!(e0.flags(), LEAF_FLAGS);
    assert!(e0.has_flags(FLAG_PRESENT | FLAG_WRITABLE | FLAG_DIRTY | FLAG_HUGE_PAGE));
    let e1 = t.get(1);
    assert_eq!(e1.address(), 0x20_0000);
    assert_eq!(e1.flags(), LEAF_FLAGS);
    let last = t.get(511);
    assert_eq!(last.address(), 511 * HUGE_PAGE_SIZE);
}

#[test]
fn leaf_table_from_offset() {
    let t = build_leaf_level(0x4000_0000);
    assert_eq!(t.get(0).address(), 0x4000_0000);
    assert_eq!(t.get(511).address(), 0x4000_0000 + 511 * HUGE_PAGE_SIZE);
}

#[test]
fn pointer_table_entries() {
    let children = vec![0x3000, 0x4000, 0x5000];
    let t = build_pointer_level(&children);
    assert_eq!(t.entries.len(), 512);
    assert_eq!(t.get(0).address(), 0x3000);
    assert_eq!(t.get(0).flags(), POINTER_FLAGS);
    assert_eq!(t.get(2).address(), 0x5000);
    assert_eq!(t.get(3).bits, 0);
}

#[test]
fn single_page_map_is_single_entry() {
    let m = build_identity_map(1, 0x2000, 0x3000).unwrap();
    assert_eq!(m.pml2.len(), 1);
    let leaf = &m.pml2[0];
    assert_eq!(leaf.entries[0].bits, LEAF_FLAGS);
    for i in 1..512 {
        assert_eq!(leaf.entries[i].bits, 0);
    }
    assert_eq!(m.pml3.entries[0].address(), 0x3000);
    assert_eq!(m.pml3.entries[1].bits, 0);
    assert_eq!(m.pml4.entries[0].address(), 0x2000);
}

#[test]
fn zero_pages_rejected() {
    assert!(build_identity_map(0, 0x2000, 0x3000).is_none());
}

#[test]
fn oversized_range_rejected() {
    assert!(build_identity_map(MAX_MAPPED_HUGE_PAGES + 1, 0x2000, 0x3000).is_none());
}

#[test]
fn misaligned_placement_rejected() {
    assert!(build_identity_map(1, 0x2001, 0x3000).is_none());
    assert!(build_identity_map(1, 0x2000, 0x3004).is_none());
}

#[test]
fn overflowing_placement_rejected() {
    let high = u64::MAX - (TABLE_ALIGNMENT - 1);
    assert!(build_identity_map(1024, 0x2000, high).is_none());
}

#[test]
fn default_map_covers_four_gib() {
    let m = build_identity_map(DEFAULT_MAPPED_HUGE_PAGES, 0x2000, 0x3000).unwrap();
    assert_eq!(m.pml2.len(), 4);
    assert_eq!(m.lookup(0), Some((0, LEAF_FLAGS)));
    assert_eq!(m.lookup(0x20_0000), Some((0x20_0000, LEAF_FLAGS)));
    assert_eq!(m.lookup(0x4000_0000), Some((0x4000_0000, LEAF_FLAGS)));
    let last = 4 * 0x4000_0000u64 - HUGE_PAGE_SIZE;
    assert_eq!(m.lookup(last), Some((last, LEAF_FLAGS)));
    // an address inside a huge page resolves to that page's leaf
    assert_eq!(m.lookup(0x1234), Some((0, LEAF_FLAGS)));
    // past the mapped range the walk leaves the tree
    assert_eq!(m.lookup(4 * 0x4000_0000u64), None);
}

#[test]
fn largest_map_covers_last_page() {
    let m = build_identity_map(MAX_MAPPED_HUGE_PAGES, 0x2000, 0x40_0000).unwrap();
    assert_eq!(m.pml2.len(), 512);
    let last = MAX_MAPPED_HUGE_PAGES * HUGE_PAGE_SIZE - HUGE_PAGE_SIZE;
    assert_eq!(m.lookup(last), Some((last, LEAF_FLAGS)));
}

#[test]
fn partial_last_table() {
    // 513 pages: one full leaf table and one holding a single page
    let m = build_identity_map(513, 0x2000, 0x3000).unwrap();
    assert_eq!(m.pml2.len(), 2);
    assert_eq!(m.pml2[1].entries[0].address(), 0x4000_0000);
    assert_eq!(m.pml2[1].entries[1].bits, 0);
    assert_eq!(m.lookup(0x4000_0000), Some((0x4000_0000, LEAF_FLAGS)));
    assert_eq!(m.lookup(0x4020_0000), None);
}

#[test]
fn map_build_twice_identical() {
    let a = build_identity_map(DEFAULT_MAPPED_HUGE_PAGES, 0x2000, 0x3000).unwrap();
    let b = build_identity_map(DEFAULT_MAPPED_HUGE_PAGES, 0x2000, 0x3000).unwrap();
    assert_eq!(a.pml2.len(), b.pml2.len());
    for (ta, tb) in a.pml2.iter().zip(b.pml2.iter()) {
        assert_eq!(ta.entries, tb.entries);
    }
    assert_eq!(a.pml3.entries, b.pml3.entries);
    assert_eq!(a.pml4.entries, b.pml4.entries);
}

#[test]
fn leaf_builder_twice_identical() {
    let a = build_leaf_level_partial(0x4000_0000, 7);
    let b = build_leaf_level_partial(0x4000_0000, 7);
    assert_eq!(a.entries, b.entries);
    assert_eq!(a.entries[6].address(), 0x4000_0000 + 6 * HUGE_PAGE_SIZE);
    assert_eq!(a.entries[7].bits, 0);
}
