//! Fixed-size page tables and the two builders that fill them.
//!
//! A table is the uniform unit of every paging level: exactly 512 entries.
//! One builder produces leaf tables whose entries map successive 2 MiB huge
//! pages; the other produces pointer tables whose entries reference child
//! tables in order.  Both are deterministic: their output is pinned, word
//! for word, by the spec functions below.

use vstd::prelude::*;
use crate::entry::{Entry, TABLE_ALIGNMENT};

verus! {

/// Number of entries in a table at every level: the architecture's fan-out.
pub const ENTRIES_PER_TABLE: usize = 512;

/// Bytes mapped by one leaf entry: a 2 MiB huge page.
pub const HUGE_PAGE_SIZE: u64 = 0x20_0000;

/// Flag word of every pointer entry: present | writable | accessed.
pub const POINTER_FLAGS: u64 = 0x23;

/// Flag word of every leaf entry: present | writable | accessed | dirty |
/// huge-page.  Dirty and huge are what distinguish a 2 MiB leaf from a
/// pointer to a lower level.
pub const LEAF_FLAGS: u64 = 0xe3;

/// A page table: an ordered sequence of exactly 512 entries.
pub struct Table {
    pub entries: Vec<Entry>,
}

impl Table {
    /// Well-formed: holds the architecture's fan-out, exactly.
    pub open spec fn wf(&self) -> bool {
        self.entries@.len() == ENTRIES_PER_TABLE
    }

    /// The table as the sequence of its encoded words.
    pub open spec fn words(&self) -> Seq<u64> {
        self.entries@.map(|i: int, e: Entry| e.bits)
    }

    /// Reads one entry.
    pub fn get(&self, i: usize) -> (r: Entry)
        requires
            self.wf(),
            i < ENTRIES_PER_TABLE,
        ensures
            r.bits == self.words()[i as int],
    {
        self.entries[i]
    }
}

/// The words of a leaf table covering `count` huge pages from `start`:
/// entry `i` maps the page at `start + i * HUGE_PAGE_SIZE`; slots past
/// `count` are zero (absent).
pub open spec fn spec_leaf_table(start: u64, count: int) -> Seq<u64> {
    Seq::new(
        ENTRIES_PER_TABLE as nat,
        |i: int|
            if i < count {
                (start + i * HUGE_PAGE_SIZE + LEAF_FLAGS) as u64
            } else {
                0u64
            },
    )
}

/// The words of a pointer table referencing `children` in order; slots past
/// the last child are zero (absent).
pub open spec fn spec_pointer_table(children: Seq<u64>) -> Seq<u64> {
    Seq::new(
        ENTRIES_PER_TABLE as nat,
        |i: int|
            if i < children.len() {
                (children[i] + POINTER_FLAGS) as u64
            } else {
                0u64
            },
    )
}

/// Every address a fixed number of huge pages past a huge-page-aligned start
/// is still table-aligned, so it encodes into an entry.
proof fn lemma_huge_step_aligned(start: u64, i: int)
    requires
        start % HUGE_PAGE_SIZE == 0,
        0 <= i,
        start + i * HUGE_PAGE_SIZE <= u64::MAX,
    ensures
        ((start + i * HUGE_PAGE_SIZE) as u64) % TABLE_ALIGNMENT == 0,
{
    let v = start + i * HUGE_PAGE_SIZE;
    assert(v % 4096 == 0) by (nonlinear_arith)
        requires
            start % 0x20_0000 == 0,
            0 <= i,
            v == start + i * 0x20_0000,
    ;
}

/// Builds a leaf table whose first `count` entries identity-map successive
/// huge pages from `start_address`, the rest left absent.
pub fn build_leaf_level_partial(start_address: u64, count: usize) -> (t: Table)
    requires
        start_address % HUGE_PAGE_SIZE == 0,
        count <= ENTRIES_PER_TABLE,
        start_address + count * HUGE_PAGE_SIZE <= 0x1_0000_0000_0000_0000,
    ensures
        t.wf(),
        t.words() == spec_leaf_table(start_address, count as int),
{
    let mut entries: Vec<Entry> = Vec::new();
    let mut i: usize = 0;
    while i < ENTRIES_PER_TABLE
        invariant
            i <= ENTRIES_PER_TABLE,
            entries@.len() == i,
            start_address % HUGE_PAGE_SIZE == 0,
            count <= ENTRIES_PER_TABLE,
            start_address + count * HUGE_PAGE_SIZE <= 0x1_0000_0000_0000_0000,
            forall|k: int|
                0 <= k < i ==> entries@[k].bits == spec_leaf_table(
                    start_address,
                    count as int,
                )[k],
        decreases ENTRIES_PER_TABLE - i,
    {
        if i < count {
            let address = start_address + (i as u64) * HUGE_PAGE_SIZE;
            proof {
                lemma_huge_step_aligned(start_address, i as int);
            }
            entries.push(Entry::leaf(address, LEAF_FLAGS).unwrap());
        } else {
            entries.push(Entry::absent());
        }
        i += 1;
    }
    let t = Table { entries };
    proof {
        assert(t.words() =~= spec_leaf_table(start_address, count as int));
    }
    t
}

/// Builds a full leaf table: 512 huge pages, one contiguous GiB, from
/// `start_address`.
pub fn build_leaf_level(start_address: u64) -> (t: Table)
    requires
        start_address % HUGE_PAGE_SIZE == 0,
        start_address + 512 * HUGE_PAGE_SIZE <= 0x1_0000_0000_0000_0000,
    ensures
        t.wf(),
        t.words() == spec_leaf_table(start_address, ENTRIES_PER_TABLE as int),
{
    build_leaf_level_partial(start_address, ENTRIES_PER_TABLE)
}

/// Builds a pointer table whose entries reference each child table address
/// in `children`, in order, the remaining slots left absent.
pub fn build_pointer_level(children: &Vec<u64>) -> (t: Table)
    requires
        children@.len() <= ENTRIES_PER_TABLE,
        forall|k: int| 0 <= k < children@.len() ==> #[trigger] children@[k] % TABLE_ALIGNMENT == 0,
    ensures
        t.wf(),
        t.words() == spec_pointer_table(children@),
{
    let mut entries: Vec<Entry> = Vec::new();
    let mut i: usize = 0;
    while i < ENTRIES_PER_TABLE
        invariant
            i <= ENTRIES_PER_TABLE,
            entries@.len() == i,
            children@.len() <= ENTRIES_PER_TABLE,
            forall|k: int|
                0 <= k < children@.len() ==> #[trigger] children@[k] % TABLE_ALIGNMENT == 0,
            forall|k: int| 0 <= k < i ==> entries@[k].bits == spec_pointer_table(children@)[k],
        decreases ENTRIES_PER_TABLE - i,
    {
        if i < children.len() {
            entries.push(Entry::pointer(children[i], POINTER_FLAGS).unwrap());
        } else {
            entries.push(Entry::absent());
        }
        i += 1;
    }
    let t = Table { entries };
    proof {
        assert(t.words() =~= spec_pointer_table(children@));
    }
    t
}

} // verus!
