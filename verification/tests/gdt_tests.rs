use boot_stub::gdt::{CS32, CS64, DS, make_descriptor_pointer, make_gdt, gdt_word_list};

#[test]
fn selector_stability() {
    let g = make_gdt();
    assert_eq!(g.cs32, CS32);
    assert_eq!(g.cs64, CS64);
    assert_eq!(g.ds, DS);
    assert_eq!(CS32, 8);
    assert_eq!(CS64, 16);
    assert_eq!(DS, 24);
}

#[test]
fn descriptor_words() {
    let g = make_gdt();
    let words = gdt_word_list(&g);
    assert_eq!(
        words,
        vec![
            0,
            0x00cf_9b00_0000_ffff,
            0x00af_9b00_0000_ffff,
            0x00cf_9300_0000_ffff,
        ]
    );
}

#[test]
fn gdt_build_twice_identical() {
    let a = gdt_word_list(&make_gdt());
    let b = gdt_word_list(&make_gdt());
    assert_eq!(a, b);
}

#[test]
fn table_pointer() {
    let g = make_gdt();
    let p = make_descriptor_pointer(&g, 0x9_f000);
    assert_eq!(p.limit, 4 * 8 - 1);
    assert_eq!(p.base, 0x9_f000);
}
