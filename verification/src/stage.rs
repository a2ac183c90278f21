//! The mode-transition pipeline as a state machine.
//!
//! The processor passes through three one-way stages: real mode at the
//! reset vector, 32-bit protected mode, and 64-bit long mode.  Each
//! transition is a pure function from the previous stage's register state
//! and exported constants — descriptor-table pointer, selectors,
//! page-table root — to the register state the next stage runs with.  The
//! handful of instructions that load these values into the processor are
//! the thin hardware layer around the library; the values themselves, and
//! the invariants the architecture demands of them (paging only atop
//! protection, physical-address extension and long-mode enable), are
//! computed and proved here.

use vstd::prelude::*;
use vstd::wrapping::u64_specs;
use crate::entry::TABLE_ALIGNMENT;
use crate::gdt::{CS32, CS64, DS, DescriptorTablePointer};

verus! {

/// Mode-control register bit 0: protection enable.
pub const CR0_PROTECTED_MODE_ENABLE: u64 = 0x1;

/// Mode-control register bit 31: paging enable.
pub const CR0_PAGING: u64 = 0x8000_0000;

/// Extension-control register bit 5: physical address extension.
pub const CR4_PHYSICAL_ADDRESS_EXTENSION: u64 = 0x20;

/// Extended-feature-enable register bit 8: long-mode enable.
pub const EFER_LONG_MODE_ENABLE: u64 = 0x100;

/// Relies on x86_64's Cr0Flags::PROTECTED_MODE_ENABLE: bit 0 of the
/// mode-control register.
#[verifier::external_body]
fn cr0_protected_mode_enable_bit() -> (r: u64)
    ensures
        r == CR0_PROTECTED_MODE_ENABLE,
{
    x86_64::registers::control::Cr0Flags::PROTECTED_MODE_ENABLE.bits()
}

/// Relies on x86_64's Cr0Flags::PAGING: bit 31 of the mode-control
/// register.
#[verifier::external_body]
fn cr0_paging_bit() -> (r: u64)
    ensures
        r == CR0_PAGING,
{
    x86_64::registers::control::Cr0Flags::PAGING.bits()
}

/// Relies on x86_64's Cr4Flags::PHYSICAL_ADDRESS_EXTENSION: bit 5 of the
/// extension-control register.
#[verifier::external_body]
fn cr4_physical_address_extension_bit() -> (r: u64)
    ensures
        r == CR4_PHYSICAL_ADDRESS_EXTENSION,
{
    x86_64::registers::control::Cr4Flags::PHYSICAL_ADDRESS_EXTENSION.bits()
}

/// Relies on x86_64's EferFlags::LONG_MODE_ENABLE: bit 8 of the extended-
/// feature-enable register.
#[verifier::external_body]
fn efer_long_mode_enable_bit() -> (r: u64)
    ensures
        r == EFER_LONG_MODE_ENABLE,
{
    x86_64::registers::model_specific::EferFlags::LONG_MODE_ENABLE.bits()
}

/// Register state as the reset vector finds the processor: 16-bit real
/// mode, whatever the power-on values of the control registers are.
#[derive(Clone, Copy, PartialEq, Eq, Structural, Debug)]
pub struct RealMode {
    pub cr0: u64,
    pub cr4: u64,
    pub efer: u64,
    pub interrupts_enabled: bool,
    pub ds: u16,
    pub es: u16,
    pub ss: u16,
}

/// Register state in 32-bit protected mode.
#[derive(Clone, Copy, PartialEq, Eq, Structural, Debug)]
pub struct ProtectedMode {
    pub cr0: u64,
    pub cr4: u64,
    pub efer: u64,
    pub interrupts_enabled: bool,
    pub gdt: DescriptorTablePointer,
    pub cs: u16,
    pub ds: u16,
    pub es: u16,
    pub ss: u16,
}

/// Register state in 64-bit long mode with paging active.
#[derive(Clone, Copy, PartialEq, Eq, Structural, Debug)]
pub struct LongMode {
    pub cr0: u64,
    pub cr3: u64,
    pub cr4: u64,
    pub efer: u64,
    pub interrupts_enabled: bool,
    pub gdt: DescriptorTablePointer,
    pub cs: u16,
    pub ds: u16,
    pub es: u16,
    pub ss: u16,
}

/// Long-mode well-formedness: paging is on only atop protection,
/// physical-address extension and long-mode enable — the order the
/// architecture demands of the enabling writes — and interrupts stay off
/// for the whole transition.
pub open spec fn long_mode_wf(s: LongMode) -> bool {
    &&& s.cr0 & CR0_PROTECTED_MODE_ENABLE == CR0_PROTECTED_MODE_ENABLE
    &&& s.cr0 & CR0_PAGING == CR0_PAGING
    &&& s.cr4 & CR4_PHYSICAL_ADDRESS_EXTENSION == CR4_PHYSICAL_ADDRESS_EXTENSION
    &&& s.efer & EFER_LONG_MODE_ENABLE == EFER_LONG_MODE_ENABLE
    &&& !s.interrupts_enabled
}

/// The reset-vector transition: disable interrupts, install the
/// descriptor-table pointer, set the protection-enable bit, and far-jump
/// through the 32-bit code selector.  No stack exists yet; the transfer is
/// a jump, never a call.
pub fn enter_protected_mode(s: RealMode, gdt_ptr: DescriptorTablePointer) -> (r: ProtectedMode)
    ensures
        r.cr0 == s.cr0 | CR0_PROTECTED_MODE_ENABLE,
        r.cr0 & CR0_PROTECTED_MODE_ENABLE == CR0_PROTECTED_MODE_ENABLE,
        r.cr4 == s.cr4,
        r.efer == s.efer,
        !r.interrupts_enabled,
        r.gdt == gdt_ptr,
        r.cs == CS32,
        r.ds == s.ds && r.es == s.es && r.ss == s.ss,
{
    let cr0 = s.cr0 | cr0_protected_mode_enable_bit();
    proof {
        let c = s.cr0;
        assert((c | 0x1u64) & 0x1u64 == 0x1u64) by (bit_vector);
    }
    ProtectedMode {
        cr0,
        cr4: s.cr4,
        efer: s.efer,
        interrupts_enabled: false,
        gdt: gdt_ptr,
        cs: CS32,
        ds: s.ds,
        es: s.es,
        ss: s.ss,
    }
}

/// The far jump's 32-bit landing pad: load the flat data selector into the
/// data, extra and stack segment registers; nothing else changes.
pub fn load_flat_data_segments(s: ProtectedMode) -> (r: ProtectedMode)
    ensures
        r.ds == DS && r.es == DS && r.ss == DS,
        r.cr0 == s.cr0 && r.cr4 == s.cr4 && r.efer == s.efer,
        r.interrupts_enabled == s.interrupts_enabled,
        r.gdt == s.gdt && r.cs == s.cs,
{
    ProtectedMode { ds: DS, es: DS, ss: DS, ..s }
}

/// The protected-mode transition: load the page-table root, then — in the
/// one order the architecture allows — enable physical-address extension,
/// long mode, and only then paging, and far-jump through the 64-bit code
/// selector.  The paging-enable write must be followed immediately by the
/// jump: no instruction in between may assume either addressing mode.
pub fn enter_long_mode(s: ProtectedMode, pml4_address: u64) -> (r: LongMode)
    requires
        s.cr0 & CR0_PROTECTED_MODE_ENABLE == CR0_PROTECTED_MODE_ENABLE,
        !s.interrupts_enabled,
        pml4_address % TABLE_ALIGNMENT == 0,
    ensures
        r.cr3 == pml4_address,
        r.cr4 == s.cr4 | CR4_PHYSICAL_ADDRESS_EXTENSION,
        r.efer == s.efer | EFER_LONG_MODE_ENABLE,
        r.cr0 == s.cr0 | CR0_PAGING,
        r.cs == CS64,
        r.ds == s.ds && r.es == s.es && r.ss == s.ss,
        r.gdt == s.gdt,
        long_mode_wf(r),
{
    let cr4 = s.cr4 | cr4_physical_address_extension_bit();
    let efer = s.efer | efer_long_mode_enable_bit();
    let cr0 = s.cr0 | cr0_paging_bit();
    proof {
        let c0 = s.cr0;
        let c4 = s.cr4;
        let ef = s.efer;
        assert((c4 | 0x20u64) & 0x20u64 == 0x20u64) by (bit_vector);
        assert((ef | 0x100u64) & 0x100u64 == 0x100u64) by (bit_vector);
        assert((c0 | 0x8000_0000u64) & 0x8000_0000u64 == 0x8000_0000u64) by (bit_vector);
        assert(c0 & 0x1u64 == 0x1u64 ==> (c0 | 0x8000_0000u64) & 0x1u64 == 0x1u64)
            by (bit_vector);
    }
    LongMode {
        cr0,
        cr3: pml4_address,
        cr4,
        efer,
        interrupts_enabled: false,
        gdt: s.gdt,
        cs: CS64,
        ds: s.ds,
        es: s.es,
        ss: s.ss,
    }
}

/// Link-time description of the initialized-data image: the stored initial
/// values live at `stored`, the runtime region runs from `start` to
/// `stop`.  Position-independent code cannot embed writable initialized
/// data, so the stage copies the stored values over at entry.
#[derive(Clone, Copy, PartialEq, Eq, Structural, Debug)]
pub struct InitDataLayout {
    pub stored: u64,
    pub start: u64,
    pub stop: u64,
}

/// Link-time description of the zero-initialized region.
#[derive(Clone, Copy, PartialEq, Eq, Structural, Debug)]
pub struct BssLayout {
    pub start: u64,
    pub stop: u64,
}

/// The link-time addresses the 64-bit stage adjusts by its load offset.
#[derive(Clone, Copy, PartialEq, Eq, Structural, Debug)]
pub struct Stage64Config {
    pub init_data: Option<InitDataLayout>,
    pub bss: Option<BssLayout>,
    pub stack_base: u64,
    pub stack_size: u64,
    pub entry_symbol: u64,
}

/// A block copy the 64-bit stage performs: `len` bytes from `src` to
/// `dst`, both runtime addresses.
#[derive(Clone, Copy, PartialEq, Eq, Structural, Debug)]
pub struct CopyRegion {
    pub src: u64,
    pub dst: u64,
    pub len: u64,
}

/// A block fill of `len` zero bytes at runtime address `dst`.
#[derive(Clone, Copy, PartialEq, Eq, Structural, Debug)]
pub struct ZeroRegion {
    pub dst: u64,
    pub len: u64,
}

/// Everything the 64-bit stage does once its load offset is known: the
/// optional initialized-data copy, the optional zero fill, the stack
/// pointer to install, and the kernel entry address to jump to — exactly
/// once, never returning.
#[derive(Clone, Copy, PartialEq, Eq, Structural, Debug)]
pub struct Stage64Plan {
    pub copy_data: Option<CopyRegion>,
    pub zero_data: Option<ZeroRegion>,
    pub stack_pointer: u64,
    pub entry: u64,
}

/// The load offset of a position-independent image: where a reference
/// point actually sits minus where it was linked to sit, as the wrapping
/// difference the address computation produces in a 64-bit register.
pub fn load_offset(runtime_base: u64, linked_base: u64) -> (r: u64)
    ensures
        r == u64_specs::wrapping_sub(runtime_base, linked_base),
{
    runtime_base.wrapping_sub(linked_base)
}

/// A link-time symbol adjusted to its runtime address by the load offset.
pub fn relocate_symbol(symbol: u64, offset: u64) -> (r: u64)
    ensures
        r == u64_specs::wrapping_add(symbol, offset),
        symbol + offset <= u64::MAX ==> r == symbol + offset,
{
    symbol.wrapping_add(offset)
}

/// The stack pointer the 64-bit stage installs: the top of the reserved
/// stack region — its base plus the configured size — adjusted by the load
/// offset.
pub fn compute_stack_pointer(stack_base: u64, stack_size: u64, offset: u64) -> (rsp: u64)
    ensures
        rsp == u64_specs::wrapping_add(u64_specs::wrapping_add(stack_base, stack_size), offset),
        stack_base + stack_size + offset <= u64::MAX ==> rsp == stack_base + stack_size + offset,
{
    stack_base.wrapping_add(stack_size).wrapping_add(offset)
}

/// The initialized-data copy: stored values to the runtime region; the
/// length is the link-time extent of the region, unaffected by relocation.
pub fn init_data_copy(layout: InitDataLayout, offset: u64) -> (c: CopyRegion)
    requires
        layout.start <= layout.stop,
    ensures
        c.src == u64_specs::wrapping_add(layout.stored, offset),
        c.dst == u64_specs::wrapping_add(layout.start, offset),
        c.len == layout.stop - layout.start,
{
    CopyRegion {
        src: relocate_symbol(layout.stored, offset),
        dst: relocate_symbol(layout.start, offset),
        len: layout.stop - layout.start,
    }
}

/// The zero fill of the uninitialized region at its runtime address.
pub fn bss_zero(layout: BssLayout, offset: u64) -> (z: ZeroRegion)
    requires
        layout.start <= layout.stop,
    ensures
        z.dst == u64_specs::wrapping_add(layout.start, offset),
        z.len == layout.stop - layout.start,
{
    ZeroRegion { dst: relocate_symbol(layout.start, offset), len: layout.stop - layout.start }
}

/// The whole 64-bit stage, computed from the link-time layout and the
/// discovered load offset.
pub fn stage64_plan(config: Stage64Config, offset: u64) -> (p: Stage64Plan)
    requires
        (config.init_data matches Some(l) ==> l.start <= l.stop),
        (config.bss matches Some(l) ==> l.start <= l.stop),
    ensures
        (p.copy_data is Some <==> config.init_data is Some),
        (config.init_data matches Some(l) ==> p.copy_data matches Some(c) && c.src
            == u64_specs::wrapping_add(l.stored, offset) && c.dst == u64_specs::wrapping_add(
            l.start,
            offset,
        ) && c.len == l.stop - l.start),
        (p.zero_data is Some <==> config.bss is Some),
        (config.bss matches Some(l) ==> p.zero_data matches Some(z) && z.dst
            == u64_specs::wrapping_add(l.start, offset) && z.len == l.stop - l.start),
        p.stack_pointer == u64_specs::wrapping_add(
            u64_specs::wrapping_add(config.stack_base, config.stack_size),
            offset,
        ),
        p.entry == u64_specs::wrapping_add(config.entry_symbol, offset),
{
    let copy_data = match config.init_data {
        Some(layout) => Some(init_data_copy(layout, offset)),
        None => None,
    };
    let zero_data = match config.bss {
        Some(layout) => Some(bss_zero(layout, offset)),
        None => None,
    };
    Stage64Plan {
        copy_data,
        zero_data,
        stack_pointer: compute_stack_pointer(config.stack_base, config.stack_size, offset),
        entry: relocate_symbol(config.entry_symbol, offset),
    }
}

} // verus!
