use nes_core::rom::{Rom, RomV1, Header};

fn sample_image(prg_units: u8) -> Vec<u8> {
    let mut data = vec![
        0x4E, 0x45, 0x53, 0x1A,  // identifying constant
        prg_units,  // program ROM size in 16KB units
        0x02,  // character ROM size in 8KB units
        0x06, 0x07, 0x08, 0x09, 0x0A,  // flag bytes
        0x00, 0x00, 0x00, 0x00, 0x00,  // padding
    ];
    for i in 0..(0x4000usize * prg_units as usize) {
        data.push((i % 7) as u8);
    }
    data
}

#[test]
fn header_fields_come_from_leading_bytes() {
    let data = sample_image(1);
    let h = Header::new(&data[0..11]);
    assert_eq!(h.get_constants(), [0x4E, 0x45, 0x53, 0x1A]);
    assert_eq!(h.get_prg_rom_size(), 1);
    assert_eq!(h.get_chr_rom_size(), 2);
    assert_eq!(h.get_all_flag(), [0x06, 0x07, 0x08, 0x09, 0x0A]);
    assert_eq!(h.get_flag(0), 0x06);
    assert_eq!(h.get_flag(4), 0x0A);
}

#[test]
fn header_constant_reads_as_text() {
    let data = sample_image(1);
    let h = Header::new(&data[0..11]);
    assert_eq!(h.constant_as_str(), "NES\u{1A}");
}

#[test]
fn rom_takes_prg_data_after_header() {
    let data = sample_image(1);
    let rom = RomV1::new(&data);
    assert_eq!(rom.get_header().get_prg_rom_size(), 1);
    let prg = rom.get_prg_data();
    assert_eq!(prg.len(), 0x4000);
    for i in 0..0x4000usize {
        assert_eq!(prg[i], (i % 7) as u8);
    }
    assert_eq!(rom.get_rom_data().len(), 0x4000);
}

#[test]
fn rom_with_two_prg_units() {
    let data = sample_image(2);
    let rom = RomV1::new(&data);
    let prg = rom.get_prg_data();
    assert_eq!(prg.len(), 0x8000);
    assert_eq!(prg[0x7FFF], ((0x7FFFusize) % 7) as u8);
}

#[test]
fn rom_boots_processor() {
    // a program image whose first bytes are LDA #$2A, carried through the
    // container into the processor
    let mut data = sample_image(1);
    data[0x10] = 0xA9;
    data[0x11] = 0x2A;
    let rom = RomV1::new(&data);
    let mut p = nes_core::processor::Processor::new(rom.get_rom_data());
    p.execute_next_instruction();
    p.execute_next_instruction();
    assert_eq!(p.get_ac(), 0x2A);
}
