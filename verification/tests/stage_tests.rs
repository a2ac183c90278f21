use boot_stub::gdt::{CS32, CS64, DS, make_descriptor_pointer, make_gdt};
use boot_stub::stage::{
    BssLayout, CR0_PAGING, CR0_PROTECTED_MODE_ENABLE, CR4_PHYSICAL_ADDRESS_EXTENSION,
    EFER_LONG_MODE_ENABLE, InitDataLayout, RealMode, Stage64Config, compute_stack_pointer,
    enter_long_mode, enter_protected_mode, load_flat_data_segments, load_offset,
    relocate_symbol, stage64_plan,
};

fn reset_state() -> RealMode {
    RealMode {
        cr0: 0x6000_0010,
        cr4: 0,
        efer: 0,
        interrupts_enabled: true,
        ds: 0,
        es: 0,
        ss: 0,
    }
}

#[test]
fn protected_mode_entry() {
    let gdt = make_gdt();
    let ptr = make_descriptor_pointer(&gdt, 0x9_f000);
    let pm = enter_protected_mode(reset_state(), ptr);
    assert_eq!(pm.cr0, 0x6000_0010 | CR0_PROTECTED_MODE_ENABLE);
    assert!(!pm.interrupts_enabled);
    assert_eq!(pm.cs, CS32);
    assert_eq!(pm.gdt, ptr);
    let pm = load_flat_data_segments(pm);
    assert_eq!(pm.ds, DS);
    assert_eq!(pm.es, DS);
    assert_eq!(pm.ss, DS);
}

#[test]
fn long_mode_entry() {
    let gdt = make_gdt();
    let ptr = make_descriptor_pointer(&gdt, 0x9_f000);
    let pm = load_flat_data_segments(enter_protected_mode(reset_state(), ptr));
    let lm = enter_long_mode(pm, 0x2000);
    assert_eq!(lm.cr3, 0x2000);
    assert_eq!(lm.cr4, CR4_PHYSICAL_ADDRESS_EXTENSION);
    assert_eq!(lm.efer, EFER_LONG_MODE_ENABLE);
    assert_eq!(lm.cr0 & CR0_PAGING, CR0_PAGING);
    assert_eq!(lm.cr0 & CR0_PROTECTED_MODE_ENABLE, CR0_PROTECTED_MODE_ENABLE);
    assert_eq!(lm.cs, CS64);
    assert_eq!(lm.ds, DS);
    assert!(!lm.interrupts_enabled);
}

#[test]
fn stack_pointer_adjusted_by_offset() {
    // a 512 KiB stack: the pointer lands at the region's top, offset-adjusted
    let base = 0x0090_0000;
    let rsp = compute_stack_pointer(base, 512 * 1024, 0);
    assert_eq!(rsp, base + 512 * 1024);
    let rsp = compute_stack_pointer(base, 512 * 1024, 0x10_0000);
    assert_eq!(rsp, base + 512 * 1024 + 0x10_0000);
}

#[test]
fn negative_load_offset_wraps() {
    // image loaded below its link address: the offset wraps, and applying
    // it to a symbol lands below the symbol by the same distance
    let offset = load_offset(0x10_0000, 0x20_0000);
    assert_eq!(offset, (0x10_0000u64).wrapping_sub(0x20_0000));
    assert_eq!(relocate_symbol(0x20_4000, offset), 0x10_4000);
    let rsp = compute_stack_pointer(0x28_0000, 512 * 1024, offset);
    assert_eq!(rsp, 0x28_0000 + 512 * 1024 - 0x10_0000);
}

#[test]
fn full_stage64_plan() {
    let config = Stage64Config {
        init_data: Some(InitDataLayout { stored: 0x5000, start: 0x7_0000, stop: 0x7_0800 }),
        bss: Some(BssLayout { start: 0x8_0000, stop: 0x8_3000 }),
        stack_base: 0x0090_0000,
        stack_size: 512 * 1024,
        entry_symbol: 0x10_0000,
    };
    let plan = stage64_plan(config, 0x4000);
    let copy = plan.copy_data.unwrap();
    assert_eq!(copy.src, 0x5000 + 0x4000);
    assert_eq!(copy.dst, 0x7_0000 + 0x4000);
    assert_eq!(copy.len, 0x800);
    let zero = plan.zero_data.unwrap();
    assert_eq!(zero.dst, 0x8_0000 + 0x4000);
    assert_eq!(zero.len, 0x3000);
    assert_eq!(plan.stack_pointer, 0x0090_0000 + 512 * 1024 + 0x4000);
    assert_eq!(plan.entry, 0x10_0000 + 0x4000);
}

#[test]
fn bare_stage64_plan() {
    let config = Stage64Config {
        init_data: None,
        bss: None,
        stack_base: 0x0090_0000,
        stack_size: 64 * 1024,
        entry_symbol: 0x10_0000,
    };
    let plan = stage64_plan(config, 0);
    assert!(plan.copy_data.is_none());
    assert!(plan.zero_data.is_none());
    assert_eq!(plan.stack_pointer, 0x0090_0000 + 64 * 1024);
    assert_eq!(plan.entry, 0x10_0000);
}
