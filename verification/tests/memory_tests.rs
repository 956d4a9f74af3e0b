use nes_core::memory::Memory;

#[test]
fn new_memory_reads_zero_everywhere() {
    let m = Memory::new();
    for at in [0usize, 0x7FF, 0x800, 0x1FFF, 0x2000, 0x3FFF, 0x4000, 0x5FFF, 0x6000, 0x7FFF,
        0x8000, 0xFFFF]
    {
        assert_eq!(m.get_instruction(at), 0);
    }
}

#[test]
fn load_round_trip_16kb_at_origin() {
    // a 16KB image loaded at 0x8000 reads back byte for byte
    let mut m = Memory::new();
    let mut image: Vec<u8> = Vec::new();
    for i in 0..0x4000usize {
        image.push((i % 251) as u8);
    }
    m.load(&image, 0x8000);
    for i in 0..0x4000usize {
        assert_eq!(m.get_instruction(0x8000 + i), (i % 251) as u8);
    }
}

#[test]
fn load_at_higher_origin() {
    let mut m = Memory::new();
    let image = vec![0xAA, 0xBB, 0xCC];
    m.load(&image, 0x9000);
    assert_eq!(m.get_instruction(0x8FFF), 0);
    assert_eq!(m.get_instruction(0x9000), 0xAA);
    assert_eq!(m.get_instruction(0x9001), 0xBB);
    assert_eq!(m.get_instruction(0x9002), 0xCC);
    assert_eq!(m.get_instruction(0x9003), 0);
}

#[test]
fn ram_mirrors_modulo_0x800() {
    let mut m = Memory::new();
    // a write in the base region is visible at every mirror
    m.set_address(0x5A, 0x0005);
    assert_eq!(m.get_instruction(0x0805), 0x5A);
    assert_eq!(m.get_instruction(0x1005), 0x5A);
    assert_eq!(m.get_instruction(0x1805), 0x5A);
    // a write through a mirror is visible at the base address
    m.set_address(0xC3, 0x1A34);
    assert_eq!(m.get_instruction(0x1A34 % 0x800), 0xC3);
    assert_eq!(m.get_instruction(0x1A34), 0xC3);
}

#[test]
fn ppu_registers_mirror_modulo_8() {
    let mut m = Memory::new();
    m.set_address(0x77, 0x2002);
    assert_eq!(m.get_instruction(0x200A), 0x77);
    assert_eq!(m.get_instruction(0x3FFA), 0x77);
    m.set_address(0x88, 0x3FFF);
    assert_eq!(m.get_instruction(0x2007), 0x88);
}

#[test]
fn direct_regions_do_not_alias() {
    let mut m = Memory::new();
    m.set_address(0x11, 0x4100);
    m.set_address(0x22, 0x6100);
    m.set_address(0x33, 0x8100);
    assert_eq!(m.get_instruction(0x4100), 0x11);
    assert_eq!(m.get_instruction(0x6100), 0x22);
    assert_eq!(m.get_instruction(0x8100), 0x33);
}

#[test]
fn rom_region_is_writable() {
    let mut m = Memory::new();
    m.set_address(0xEE, 0xFFFE);
    assert_eq!(m.get_instruction(0xFFFE), 0xEE);
    assert_eq!(m.get_instruction(0xFFFF), 0);
}
