//! Page-table entry encoding.
//!
//! An entry packs a physical address and a small flag set into one machine
//! word.  The address must be aligned to the table alignment, so its low
//! twelve bits are always zero and the flag set lives exactly there: the
//! flags are recovered as the word modulo the alignment, the address as the
//! word minus the flags.  The packing is bijective for every valid pair.

use vstd::prelude::*;

verus! {

/// Alignment of every page table in bytes, and therefore the width of the
/// flag field packed into an entry's low bits.
pub const TABLE_ALIGNMENT: u64 = 4096;

/// Flag bit 0: the entry maps or references memory.
pub const FLAG_PRESENT: u64 = 0x1;

/// Flag bit 1: the mapped memory is writable.
pub const FLAG_WRITABLE: u64 = 0x2;

/// Flag bit 5: the processor has read through this entry; pre-setting it
/// avoids a hardware write to the table on first use.
pub const FLAG_ACCESSED: u64 = 0x20;

/// Flag bit 6: the processor has written through this entry; pre-setting it
/// avoids a hardware write to the table on first store.
pub const FLAG_DIRTY: u64 = 0x40;

/// Flag bit 7: the entry is a leaf mapping a huge page rather than a
/// reference to a lower-level table.
pub const FLAG_HUGE_PAGE: u64 = 0x80;

/// The flag field of an encoded entry: the word modulo the alignment.
pub open spec fn spec_flags(bits: u64) -> u64 {
    bits % TABLE_ALIGNMENT
}

/// The address field of an encoded entry: the word minus its flag field.
pub open spec fn spec_address(bits: u64) -> u64 {
    (bits - spec_flags(bits)) as u64
}

/// A pair is encodable exactly when the address leaves the flag bits free
/// and the flags fit below the alignment.
pub open spec fn valid_encoding(address: u64, flags: u64) -> bool {
    address % TABLE_ALIGNMENT == 0 && flags < TABLE_ALIGNMENT
}

/// The encoded word of a valid pair.
pub open spec fn spec_encode(address: u64, flags: u64) -> u64 {
    (address + flags) as u64
}

/// All flag bits of `mask` are set in the entry's flag field.
pub open spec fn spec_has_flags(bits: u64, mask: u64) -> bool {
    spec_flags(bits) & mask == mask
}

/// The entry is present.
pub open spec fn spec_present(bits: u64) -> bool {
    spec_has_flags(bits, FLAG_PRESENT)
}

/// The entry is a huge-page leaf.
pub open spec fn spec_huge(bits: u64) -> bool {
    spec_has_flags(bits, FLAG_HUGE_PAGE)
}

/// A valid pair's encoding never overflows the word.
pub proof fn lemma_encode_fits(address: u64, flags: u64)
    requires
        valid_encoding(address, flags),
    ensures
        address + flags <= u64::MAX,
{
    assert(address % 4096 == 0 && flags < 4096 ==> address + flags <= 0xffff_ffff_ffff_ffffu64)
        by (bit_vector);
}

/// Encoding then decoding recovers exactly the address and the flags: the
/// packing is bijective over all valid pairs.
pub proof fn lemma_entry_round_trip(address: u64, flags: u64)
    requires
        valid_encoding(address, flags),
    ensures
        spec_address(spec_encode(address, flags)) == address,
        spec_flags(spec_encode(address, flags)) == flags,
{
    lemma_encode_fits(address, flags);
    let v = spec_encode(address, flags);
    assert(v == address + flags);
    assert(v % 4096 == flags) by (bit_vector)
        requires
            address % 4096 == 0 && flags < 4096 && v == address + flags,
    ;
}

/// A single page-table entry.
#[derive(Clone, Copy, PartialEq, Eq, Structural, Debug)]
pub struct Entry {
    pub bits: u64,
}

impl Entry {
    /// The all-zero word of an unused table slot: not present, no address.
    pub fn absent() -> (r: Entry)
        ensures
            r.bits == 0,
    {
        Entry { bits: 0 }
    }

    /// Encodes a leaf entry mapping a huge page at `address`.  Construction
    /// fails exactly when the address would overlap the flag bits or the
    /// flags would overflow their field.
    pub fn leaf(address: u64, flags: u64) -> (r: Option<Entry>)
        ensures
            r is Some <==> valid_encoding(address, flags),
            (r matches Some(e) ==> e.bits == spec_encode(address, flags)),
    {
        if address % TABLE_ALIGNMENT == 0 && flags < TABLE_ALIGNMENT {
            proof {
                lemma_encode_fits(address, flags);
            }
            Some(Entry { bits: address + flags })
        } else {
            None
        }
    }

    /// Encodes a pointer entry referencing a child table at `child_address`.
    /// The encoding is the same as for a leaf; the huge-page flag, left clear
    /// by the pointer-level builder, tells the two apart.
    pub fn pointer(child_address: u64, flags: u64) -> (r: Option<Entry>)
        ensures
            r is Some <==> valid_encoding(child_address, flags),
            (r matches Some(e) ==> e.bits == spec_encode(child_address, flags)),
    {
        Entry::leaf(child_address, flags)
    }

    /// Decodes the address component.
    pub fn address(&self) -> (r: u64)
        ensures
            r == spec_address(self.bits),
    {
        self.bits - self.bits % TABLE_ALIGNMENT
    }

    /// Decodes the flag component.
    pub fn flags(&self) -> (r: u64)
        ensures
            r == spec_flags(self.bits),
    {
        self.bits % TABLE_ALIGNMENT
    }

    /// All flag bits of `mask` are set in this entry.
    pub fn has_flags(&self, mask: u64) -> (r: bool)
        ensures
            r == spec_has_flags(self.bits, mask),
    {
        self.flags() & mask == mask
    }
}

} // verus!
