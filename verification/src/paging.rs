//! The identity map: a four-level page-table tree covering a configurable
//! physical range with 2 MiB huge pages.
//!
//! The builder composes the two table builders bottom-up: one partially or
//! fully filled leaf table per GiB of mapped range, a mid-level table whose
//! entries reference the leaf tables at their configured, contiguous
//! physical placement, and a root table whose first entry references the
//! mid-level table.  The map is pinned word for word by `map_built_from`,
//! so rebuilding with the same configuration gives bit-identical output,
//! and every huge-page-aligned address in range resolves through the tree
//! to itself (`lemma_identity_map_coverage`).

use vstd::prelude::*;
use crate::entry::{
    FLAG_HUGE_PAGE, FLAG_PRESENT, FLAG_WRITABLE, TABLE_ALIGNMENT, lemma_encode_fits,
    lemma_entry_round_trip, spec_address, spec_flags, spec_huge, spec_present,
};
use crate::table::{
    ENTRIES_PER_TABLE, HUGE_PAGE_SIZE, LEAF_FLAGS, POINTER_FLAGS, Table, build_leaf_level_partial,
    build_pointer_level, spec_leaf_table, spec_pointer_table,
};

verus! {

/// 2 MiB pages mapped by the default configuration: 4 GiB of physical
/// memory, the range the boot image maps before handing off.
pub const DEFAULT_MAPPED_HUGE_PAGES: u64 = 2048;

/// Greatest mappable range: 512 leaf tables under one mid-level table,
/// 512 GiB.
pub const MAX_MAPPED_HUGE_PAGES: u64 = 262144;

/// Bytes spanned by one full leaf table: 1 GiB.
pub const LEAF_TABLE_SPAN: u64 = 0x4000_0000;

/// Bytes spanned by one full mid-level table: 512 GiB.
pub const POINTER_TABLE_SPAN: u64 = 0x80_0000_0000;

/// The constructed identity map.  The leaf tables are destined for a
/// contiguous run of table-aligned physical addresses starting at
/// `pml2_base`; the mid-level table for `pml3_base`.  Those placements are
/// what the pointer entries encode, so the tree can be checked before the
/// image is laid out.
pub struct IdentityMap {
    /// Leaf tables, in order of the GiB of physical memory each maps.
    pub pml2: Vec<Table>,
    /// Mid-level table: one pointer entry per leaf table.
    pub pml3: Table,
    /// Root table: its first entry references the mid-level table.
    pub pml4: Table,
    /// Physical address of the first leaf table; the rest follow
    /// contiguously, one table alignment apart.
    pub pml2_base: u64,
    /// Physical address of the mid-level table.
    pub pml3_base: u64,
}

/// Leaf tables needed to cover `num_pages` huge pages.
pub open spec fn spec_tables_needed(num_pages: u64) -> int {
    (num_pages + 511) / 512
}

/// Huge pages covered by leaf table `j`: a full table for every whole GiB,
/// the remainder in the last.
pub open spec fn spec_table_page_count(num_pages: u64, j: int) -> int {
    if num_pages - j * 512 >= 512 {
        512
    } else {
        num_pages - j * 512
    }
}

/// The physical addresses of the leaf tables, in order.
pub open spec fn spec_leaf_table_addresses(pml2_base: u64, tables: int) -> Seq<u64> {
    Seq::new(tables as nat, |j: int| (pml2_base + j * TABLE_ALIGNMENT) as u64)
}

/// A buildable configuration: a nonempty range within the single mid-level
/// table's reach, table-aligned placements, and leaf-table addresses that
/// fit the word.
pub open spec fn valid_map_config(num_pages: u64, pml3_base: u64, pml2_base: u64) -> bool {
    &&& 1 <= num_pages <= MAX_MAPPED_HUGE_PAGES
    &&& pml3_base % TABLE_ALIGNMENT == 0
    &&& pml2_base % TABLE_ALIGNMENT == 0
    &&& pml2_base + spec_tables_needed(num_pages) * TABLE_ALIGNMENT - 1 <= u64::MAX
}

/// The map a given configuration builds, word for word.
pub open spec fn map_built_from(
    m: IdentityMap,
    num_pages: u64,
    pml3_base: u64,
    pml2_base: u64,
) -> bool {
    let tables = spec_tables_needed(num_pages);
    &&& m.pml2_base == pml2_base
    &&& m.pml3_base == pml3_base
    &&& m.pml2@.len() == tables
    &&& forall|j: int|
        0 <= j < tables ==> (#[trigger] m.pml2@[j]).words() == spec_leaf_table(
            (j * LEAF_TABLE_SPAN) as u64,
            spec_table_page_count(num_pages, j),
        )
    &&& m.pml3.words() == spec_pointer_table(spec_leaf_table_addresses(pml2_base, tables))
    &&& m.pml4.words() == spec_pointer_table(seq![pml3_base])
}

impl IdentityMap {
    /// Well-formed: every table holds the full fan-out and the leaf tables
    /// fit under one mid-level table.
    pub open spec fn wf(&self) -> bool {
        &&& self.pml2@.len() <= ENTRIES_PER_TABLE
        &&& forall|j: int| 0 <= j < self.pml2@.len() ==> (#[trigger] self.pml2@[j]).wf()
        &&& self.pml3.wf()
        &&& self.pml4.wf()
    }
}

/// Builds the identity map for `num_pages` huge pages from physical address
/// zero.  Construction is rejected — `None` — exactly when the
/// configuration is invalid: an empty or oversized range, a misaligned
/// table placement, or leaf-table addresses that overflow the word.
pub fn build_identity_map(num_pages: u64, pml3_base: u64, pml2_base: u64) -> (r: Option<
    IdentityMap,
>)
    ensures
        r is Some <==> valid_map_config(num_pages, pml3_base, pml2_base),
        (r matches Some(m) ==> m.wf() && map_built_from(m, num_pages, pml3_base, pml2_base)),
{
    if num_pages < 1 || num_pages > MAX_MAPPED_HUGE_PAGES {
        return None;
    }
    if pml3_base % TABLE_ALIGNMENT != 0 || pml2_base % TABLE_ALIGNMENT != 0 {
        return None;
    }
    let tables: u64 = (num_pages + 511) / 512;
    if pml2_base > u64::MAX - (tables * TABLE_ALIGNMENT - 1) {
        return None;
    }
    let mut pml2: Vec<Table> = Vec::new();
    let mut addresses: Vec<u64> = Vec::new();
    let mut j: u64 = 0;
    while j < tables
        invariant
            j <= tables,
            tables == spec_tables_needed(num_pages),
            1 <= num_pages <= MAX_MAPPED_HUGE_PAGES,
            tables <= 512,
            pml2_base % TABLE_ALIGNMENT == 0,
            pml2_base + tables * TABLE_ALIGNMENT - 1 <= u64::MAX,
            pml2@.len() == j,
            addresses@.len() == j,
            forall|k: int| 0 <= k < j ==> (#[trigger] pml2@[k]).wf(),
            forall|k: int|
                0 <= k < j ==> (#[trigger] pml2@[k]).words() == spec_leaf_table(
                    (k * LEAF_TABLE_SPAN) as u64,
                    spec_table_page_count(num_pages, k),
                ),
            forall|k: int| 0 <= k < j ==> addresses@[k] == (pml2_base + k * TABLE_ALIGNMENT) as u64,
        decreases tables - j,
    {
        proof {
            assert(tables * 512 <= num_pages + 511) by (nonlinear_arith)
                requires
                    tables == (num_pages + 511) / 512,
                    num_pages >= 1,
            ;
        }
        let start: u64 = j * LEAF_TABLE_SPAN;
        proof {
            assert(start % HUGE_PAGE_SIZE == 0) by (nonlinear_arith)
                requires
                    start == j * 0x4000_0000,
            ;
        }
        let remaining: u64 = num_pages - j * 512;
        let count: u64 = if remaining >= 512 {
            512
        } else {
            remaining
        };
        let t = build_leaf_level_partial(start, count as usize);
        pml2.push(t);
        addresses.push(pml2_base + j * TABLE_ALIGNMENT);
        j += 1;
    }
    proof {
        assert forall|k: int| 0 <= k < addresses@.len() implies #[trigger] addresses@[k]
            % TABLE_ALIGNMENT == 0 by {
            assert((pml2_base + k * 4096) % 4096 == 0) by (nonlinear_arith)
                requires
                    pml2_base % 4096 == 0,
                    0 <= k,
            ;
        }
    }
    let pml3 = build_pointer_level(&addresses);
    let mut root: Vec<u64> = Vec::new();
    root.push(pml3_base);
    let pml4 = build_pointer_level(&root);
    proof {
        assert(addresses@ =~= spec_leaf_table_addresses(pml2_base, tables as int));
        assert(root@ =~= seq![pml3_base]);
    }
    Some(IdentityMap { pml2, pml3, pml4, pml2_base, pml3_base })
}

/// Root-table slot of a physical address.
pub open spec fn spec_pml4_slot(a: u64) -> int {
    ((a / POINTER_TABLE_SPAN) % 512) as int
}

/// Mid-level slot of a physical address.
pub open spec fn spec_pml3_slot(a: u64) -> int {
    ((a / LEAF_TABLE_SPAN) % 512) as int
}

/// Leaf-table slot of a physical address.
pub open spec fn spec_pml2_slot(a: u64) -> int {
    ((a / HUGE_PAGE_SIZE) % 512) as int
}

/// Walks the tree for physical address `a` exactly as the processor would:
/// root entry, mid-level entry, leaf entry.  Yields the decoded (address,
/// flags) pair of the leaf, or `None` where the walk leaves the tree — an
/// absent entry, a pointer to a table the map does not hold, or a leaf slot
/// that is not a huge-page mapping.
pub open spec fn spec_walk(m: IdentityMap, a: u64) -> Option<(u64, u64)> {
    let e4 = m.pml4.words()[spec_pml4_slot(a)];
    if !spec_present(e4) {
        None
    } else if spec_address(e4) != m.pml3_base {
        None
    } else {
        let e3 = m.pml3.words()[spec_pml3_slot(a)];
        if !spec_present(e3) {
            None
        } else {
            let child = spec_address(e3);
            if child < m.pml2_base || child - m.pml2_base >= m.pml2@.len() * TABLE_ALIGNMENT || (
            child - m.pml2_base) % (TABLE_ALIGNMENT as int) != 0 {
                None
            } else {
                let e2 = m.pml2@[(child - m.pml2_base) / TABLE_ALIGNMENT as int].words()[
                    spec_pml2_slot(a)];
                if spec_present(e2) && spec_huge(e2) {
                    Some((spec_address(e2), spec_flags(e2)))
                } else {
                    None
                }
            }
        }
    }
}

impl IdentityMap {
    /// Resolves a physical address through the tree, returning the decoded
    /// address and flags of the leaf entry that maps it.
    pub fn lookup(&self, a: u64) -> (r: Option<(u64, u64)>)
        requires
            self.wf(),
        ensures
            r == spec_walk(*self, a),
    {
        let e4 = self.pml4.get(((a / POINTER_TABLE_SPAN) % 512) as usize);
        if !e4.has_flags(FLAG_PRESENT) {
            return None;
        }
        if e4.address() != self.pml3_base {
            return None;
        }
        let e3 = self.pml3.get(((a / LEAF_TABLE_SPAN) % 512) as usize);
        if !e3.has_flags(FLAG_PRESENT) {
            return None;
        }
        let child = e3.address();
        if child < self.pml2_base {
            return None;
        }
        let offset = child - self.pml2_base;
        if offset >= (self.pml2.len() as u64) * TABLE_ALIGNMENT {
            return None;
        }
        if offset % TABLE_ALIGNMENT != 0 {
            return None;
        }
        let j = offset / TABLE_ALIGNMENT;
        proof {
            assert(offset / 4096 < self.pml2@.len()) by (nonlinear_arith)
                requires
                    offset < self.pml2@.len() * 4096,
            ;
        }
        let e2 = self.pml2[j as usize].get(((a / HUGE_PAGE_SIZE) % 512) as usize);
        if e2.has_flags(FLAG_PRESENT) && e2.has_flags(FLAG_HUGE_PAGE) {
            Some((e2.address(), e2.flags()))
        } else {
            None
        }
    }
}

/// Identity-map coverage: every huge-page-aligned physical address within
/// the configured range resolves through the tree to a leaf entry that
/// decodes to exactly that address and carries the leaf flag word — with
/// the present, writable and huge-page bits set.
pub proof fn lemma_identity_map_coverage(
    m: IdentityMap,
    num_pages: u64,
    pml3_base: u64,
    pml2_base: u64,
    a: u64,
)
    requires
        valid_map_config(num_pages, pml3_base, pml2_base),
        map_built_from(m, num_pages, pml3_base, pml2_base),
        a % HUGE_PAGE_SIZE == 0,
        a < num_pages * HUGE_PAGE_SIZE,
    ensures
        spec_walk(m, a) == Some((a, LEAF_FLAGS)),
        LEAF_FLAGS & (FLAG_PRESENT | FLAG_WRITABLE | FLAG_HUGE_PAGE) == (FLAG_PRESENT
            | FLAG_WRITABLE | FLAG_HUGE_PAGE),
{
    let tables = spec_tables_needed(num_pages);
    let p = a as int / HUGE_PAGE_SIZE as int;
    let j = p / 512;
    let i2 = p % 512;

    assert(0xe3u64 & (0x1u64 | 0x2u64 | 0x80u64) == (0x1u64 | 0x2u64 | 0x80u64)) by (bit_vector);

    // Root level: the whole range sits under slot 0.
    assert(a < 0x80_0000_0000);
    assert(spec_pml4_slot(a) == 0);
    let e4 = m.pml4.words()[0];
    assert(e4 == (pml3_base + POINTER_FLAGS) as u64);
    lemma_entry_round_trip(pml3_base, POINTER_FLAGS);
    lemma_encode_fits(pml3_base, POINTER_FLAGS);
    assert(0x23u64 & 0x1u64 == 0x1u64) by (bit_vector);
    assert(spec_present(e4));
    assert(spec_address(e4) == pml3_base);

    // Mid level: slot j references leaf table j.
    assert(p == 512 * j + i2) by {
        vstd::arithmetic::div_mod::lemma_fundamental_div_mod(p, 512);
    }
    assert(a as int / LEAF_TABLE_SPAN as int == j) by {
        vstd::arithmetic::div_mod::lemma_div_denominator(a as int, HUGE_PAGE_SIZE as int, 512);
    }
    assert(p < num_pages) by (nonlinear_arith)
        requires
            p == a as int / 0x20_0000,
            a < num_pages * 0x20_0000,
    ;
    assert(j < tables) by (nonlinear_arith)
        requires
            512 * j + i2 == p,
            0 <= i2 < 512,
            p < num_pages,
            tables == (num_pages + 511) / 512,
            num_pages >= 1,
    ;
    assert(0 <= j) by (nonlinear_arith)
        requires
            j == p / 512,
            0 <= p,
    ;
    assert(spec_pml3_slot(a) == j) by {
        assert((a / LEAF_TABLE_SPAN) < 512);
    }
    let child_addr = (pml2_base + j * TABLE_ALIGNMENT) as u64;
    let e3 = m.pml3.words()[j];
    assert(e3 == (child_addr + POINTER_FLAGS) as u64) by {
        assert(spec_leaf_table_addresses(pml2_base, tables)[j] == child_addr);
    }
    assert(pml2_base + j * 4096 <= u64::MAX) by (nonlinear_arith)
        requires
            j < tables,
            0 <= j,
            pml2_base + tables * 4096 - 1 <= u64::MAX,
    ;
    assert(child_addr % 4096 == 0) by (nonlinear_arith)
        requires
            pml2_base % 4096 == 0,
            0 <= j,
            pml2_base + j * 4096 <= u64::MAX,
            child_addr == (pml2_base + j * 4096) as u64,
    ;
    lemma_entry_round_trip(child_addr, POINTER_FLAGS);
    assert(spec_present(e3));
    assert(spec_address(e3) == child_addr);

    // The walk recovers leaf table j from the pointer's address.
    assert(child_addr - pml2_base == j * 4096);
    assert(j * 4096 < tables * 4096) by (nonlinear_arith)
        requires
            0 <= j < tables,
    ;
    assert((j * 4096) % 4096 == 0) by (nonlinear_arith)
        requires
            0 <= j,
    ;
    assert((j * 4096) / 4096 == j) by (nonlinear_arith)
        requires
            0 <= j,
    ;
    assert(m.pml2@.len() == tables);

    // Leaf level: slot i2 of table j maps exactly a.
    let count = spec_table_page_count(num_pages, j);
    assert(i2 < count) by (nonlinear_arith)
        requires
            512 * j + i2 == p,
            0 <= i2 < 512,
            p < num_pages,
            count == (if num_pages - j * 512 >= 512 {
                512int
            } else {
                num_pages - j * 512
            }),
    ;
    let start = (j * LEAF_TABLE_SPAN) as u64;
    assert(m.pml2@[j].words() == spec_leaf_table(start, count));
    assert(spec_pml2_slot(a) == i2) by {
        assert(a as int / HUGE_PAGE_SIZE as int == p);
    }
    let e2 = m.pml2@[j].words()[i2];
    assert(e2 == (start + i2 * HUGE_PAGE_SIZE + LEAF_FLAGS) as u64);
    assert(start + i2 * HUGE_PAGE_SIZE == a) by (nonlinear_arith)
        requires
            start == j * 0x4000_0000,
            512 * j + i2 == p,
            a % 0x20_0000 == 0,
            p == a as int / 0x20_0000,
            0 <= a,
    ;
    assert(a % 4096 == 0) by (nonlinear_arith)
        requires
            a % 0x20_0000 == 0,
    ;
    lemma_entry_round_trip(a, LEAF_FLAGS);
    assert(0xe3u64 & 0x1u64 == 0x1u64) by (bit_vector);
    assert(0xe3u64 & 0x80u64 == 0x80u64) by (bit_vector);
    assert(spec_present(e2) && spec_huge(e2));
    assert(spec_address(e2) == a);
    assert(spec_flags(e2) == LEAF_FLAGS);
}

/// Building twice with identical configuration yields bit-identical
/// tables, at every level.
pub proof fn lemma_identity_map_idempotent(
    m1: IdentityMap,
    m2: IdentityMap,
    num_pages: u64,
    pml3_base: u64,
    pml2_base: u64,
)
    requires
        map_built_from(m1, num_pages, pml3_base, pml2_base),
        map_built_from(m2, num_pages, pml3_base, pml2_base),
    ensures
        m1.pml4.words() == m2.pml4.words(),
        m1.pml3.words() == m2.pml3.words(),
        m1.pml2@.len() == m2.pml2@.len(),
        forall|j: int|
            0 <= j < m1.pml2@.len() ==> (#[trigger] m1.pml2@[j]).words() == m2.pml2@[j].words(),
{
}

} // verus!
