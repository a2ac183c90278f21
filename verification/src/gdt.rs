//! The Global Descriptor Table builder.
//!
//! The table itself is x86_64's `GlobalDescriptorTable`; this module builds
//! it by appending, in fixed order, the null descriptor the table starts
//! with, a flat 32-bit code descriptor, a 64-bit code descriptor and a flat
//! data descriptor, and proves that the selector each append returns equals
//! the statically declared selector constant — the constants the
//! mode-transition code encodes into far jumps and segment loads can never
//! drift from the table's actual layout.

use vstd::prelude::*;
use x86_64::structures::gdt::GlobalDescriptorTable;

verus! {

/// Selector of the flat 32-bit code descriptor: table index 1, ring 0.
pub const CS32: u16 = 8;

/// Selector of the 64-bit code descriptor: table index 2, ring 0.
pub const CS64: u16 = 16;

/// Selector of the flat data descriptor: table index 3, ring 0.
pub const DS: u16 = 24;

#[verifier::external_type_specification]
#[verifier::external_body]
pub struct ExGlobalDescriptorTable(GlobalDescriptorTable);

/// The descriptor words a table holds so far, in table order.
pub uninterp spec fn gdt_words(g: GlobalDescriptorTable) -> Seq<u64>;

/// Relies on x86_64's GlobalDescriptorTable::new: a fresh table holds
/// exactly the null descriptor.
#[verifier::external_body]
fn gdt_new() -> (g: GlobalDescriptorTable)
    ensures
        gdt_words(g) == seq![0u64],
{
    GlobalDescriptorTable::new()
}

/// Relies on x86_64's GlobalDescriptorTable::add_entry on a user-segment
/// descriptor: appends the descriptor word and returns a selector holding
/// the new entry's index and the descriptor's privilege level (its bits 45
/// and 46); panics only when the table's eight slots are full.
#[verifier::external_body]
fn gdt_add_user_segment(g: &mut GlobalDescriptorTable, value: u64) -> (r: u16)
    requires
        gdt_words(*old(g)).len() < 8,
    ensures
        gdt_words(*final(g)) == gdt_words(*old(g)).push(value),
        r == 8 * gdt_words(*old(g)).len() + ((value >> 45) & 3),
{
    g.add_entry(x86_64::structures::gdt::Descriptor::UserSegment(value)).0
}

/// Relies on x86_64's GlobalDescriptorTable::as_raw_slice: the words the
/// table holds, in order.
#[verifier::external_body]
fn gdt_as_words(g: &GlobalDescriptorTable) -> (v: Vec<u64>)
    ensures
        v@ == gdt_words(*g),
{
    g.as_raw_slice().to_vec()
}

/// Relies on x86_64's DescriptorFlags::KERNEL_CODE32: the flat 32-bit
/// ring-0 code descriptor word, which the crate pins to this value in its
/// own tests.
#[verifier::external_body]
fn kernel_code32_descriptor() -> (r: u64)
    ensures
        r == 0x00cf_9b00_0000_ffffu64,
{
    x86_64::structures::gdt::DescriptorFlags::KERNEL_CODE32.bits()
}

/// Relies on x86_64's Descriptor::kernel_code_segment: the 64-bit ring-0
/// code descriptor word (KERNEL_CODE64), which the crate pins to this value
/// in its own tests.
#[verifier::external_body]
fn kernel_code64_descriptor() -> (r: u64)
    ensures
        r == 0x00af_9b00_0000_ffffu64,
{
    match x86_64::structures::gdt::Descriptor::kernel_code_segment() {
        x86_64::structures::gdt::Descriptor::UserSegment(value) => value,
        x86_64::structures::gdt::Descriptor::SystemSegment(low, _) => low,
    }
}

/// Relies on x86_64's Descriptor::kernel_data_segment: the flat ring-0 data
/// descriptor word (KERNEL_DATA), which the crate pins to this value in its
/// own tests.
#[verifier::external_body]
fn kernel_data_descriptor() -> (r: u64)
    ensures
        r == 0x00cf_9300_0000_ffffu64,
{
    match x86_64::structures::gdt::Descriptor::kernel_data_segment() {
        x86_64::structures::gdt::Descriptor::UserSegment(value) => value,
        x86_64::structures::gdt::Descriptor::SystemSegment(low, _) => low,
    }
}

/// The four words of the built table: null, 32-bit code, 64-bit code, data.
pub open spec fn spec_gdt_words() -> Seq<u64> {
    seq![0u64, 0x00cf_9b00_0000_ffffu64, 0x00af_9b00_0000_ffffu64, 0x00cf_9300_0000_ffffu64]
}

/// The built descriptor table, together with the selector each append
/// actually returned.
pub struct Gdt {
    pub table: GlobalDescriptorTable,
    pub cs32: u16,
    pub cs64: u16,
    pub ds: u16,
}

/// Builds the descriptor table.  The null descriptor sits at index 0, the
/// 32-bit code descriptor at index 1, the 64-bit code descriptor at index
/// 2 and the data descriptor at index 3, so the returned selectors are
/// exactly the declared constants — proved, not asserted at run time.
pub fn make_gdt() -> (g: Gdt)
    ensures
        gdt_words(g.table) == spec_gdt_words(),
        g.cs32 == CS32,
        g.cs64 == CS64,
        g.ds == DS,
{
    let mut table = gdt_new();
    proof {
        assert((0x00cf_9b00_0000_ffffu64 >> 45) & 3 == 0) by (bit_vector);
        assert((0x00af_9b00_0000_ffffu64 >> 45) & 3 == 0) by (bit_vector);
        assert((0x00cf_9300_0000_ffffu64 >> 45) & 3 == 0) by (bit_vector);
    }
    let cs32 = gdt_add_user_segment(&mut table, kernel_code32_descriptor());
    let cs64 = gdt_add_user_segment(&mut table, kernel_code64_descriptor());
    let ds = gdt_add_user_segment(&mut table, kernel_data_descriptor());
    proof {
        assert(gdt_words(table) =~= spec_gdt_words());
    }
    Gdt { table, cs32, cs64, ds }
}

/// The words of a built table, for placement into the boot image.
pub fn gdt_word_list(g: &Gdt) -> (v: Vec<u64>)
    ensures
        v@ == gdt_words(g.table),
{
    gdt_as_words(&g.table)
}

/// A descriptor-table pointer: the limit (table bytes minus one) and the
/// base address, the pair the processor's table-load instruction consumes.
#[derive(Clone, Copy, PartialEq, Eq, Structural, Debug)]
pub struct DescriptorTablePointer {
    pub limit: u16,
    pub base: u64,
}

/// Builds the pointer for a built table placed at address `base`.
pub fn make_descriptor_pointer(g: &Gdt, base: u64) -> (p: DescriptorTablePointer)
    requires
        1 <= gdt_words(g.table).len() <= 8,
    ensures
        p.limit == 8 * gdt_words(g.table).len() - 1,
        p.base == base,
{
    let words = gdt_as_words(&g.table);
    DescriptorTablePointer { limit: (words.len() * 8 - 1) as u16, base }
}

/// Two tables built with the same fixed descriptor sequence are word-for-
/// word identical: the construction is deterministic.
pub proof fn lemma_gdt_idempotent(g1: Gdt, g2: Gdt)
    requires
        gdt_words(g1.table) == spec_gdt_words(),
        gdt_words(g2.table) == spec_gdt_words(),
    ensures
        gdt_words(g1.table) == gdt_words(g2.table),
{
}

} // verus!
