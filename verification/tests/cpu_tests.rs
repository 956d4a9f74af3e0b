use nes_core::processor::Processor;

const FLAG_CARRY: u8 = 0x01;
const FLAG_ZERO: u8 = 0x02;
const FLAG_INTERRUPT: u8 = 0x04;
const FLAG_BREAK: u8 = 0x10;
const FLAG_OVERFLOW: u8 = 0x40;
const FLAG_NEGATIVE: u8 = 0x80;

fn step_n(p: &mut Processor, n: usize) {
    for _ in 0..n {
        p.execute_next_instruction();
    }
}

#[test]
fn lda_immediate_zero_takes_two_cycles() {
    // load-immediate of 0x00: zero set, negative clear, accumulator 0x00,
    // program counter advanced by 2, exactly 2 cycles
    let mut p = Processor::new(&vec![0xA9, 0x00]);
    p.execute_next_instruction();
    assert!(!p.is_ready());
    p.execute_next_instruction();
    assert!(p.is_ready());
    assert_eq!(p.get_ac(), 0x00);
    assert_ne!(p.get_sr() & FLAG_ZERO, 0);
    assert_eq!(p.get_sr() & FLAG_NEGATIVE, 0);
    assert_eq!(p.get_pc(), 0x8002);
}

#[test]
fn lda_immediate_negative_value() {
    let mut p = Processor::new(&vec![0xA9, 0x80]);
    step_n(&mut p, 2);
    assert_eq!(p.get_ac(), 0x80);
    assert_eq!(p.get_sr() & FLAG_ZERO, 0);
    assert_ne!(p.get_sr() & FLAG_NEGATIVE, 0);
}

#[test]
fn jsr_pushes_return_address_and_jumps_in_six_cycles() {
    // JSR $1234 from 0x8000: pushes 0x80 then 0x02, stack pointer drops by
    // 2, program counter becomes 0x1234, exactly 6 cycles
    let mut p = Processor::new(&vec![0x20, 0x34, 0x12]);
    assert_eq!(p.get_sp(), 0xFF);
    step_n(&mut p, 5);
    assert!(!p.is_ready());
    p.execute_next_instruction();
    assert!(p.is_ready());
    assert_eq!(p.get_pc(), 0x1234);
    assert_eq!(p.get_sp(), 0xFD);
    assert_eq!(p.read_memory(0x01FF), 0x80);
    assert_eq!(p.read_memory(0x01FE), 0x02);
}

#[test]
fn rmw_shift_writes_memory_only_on_final_cycle() {
    // LDA #$41; STA $10; ASL $10 — during the ASL the zero-page byte stays
    // untouched through every cycle but the last, then takes the shifted
    // value
    let mut p = Processor::new(&vec![0xA9, 0x41, 0x85, 0x10, 0x06, 0x10]);
    step_n(&mut p, 2 + 3);
    assert!(p.is_ready());
    assert_eq!(p.read_memory(0x10), 0x41);
    for _ in 0..4 {
        p.execute_next_instruction();
        assert!(!p.is_ready());
        assert_eq!(p.read_memory(0x10), 0x41);
    }
    p.execute_next_instruction();
    assert!(p.is_ready());
    assert_eq!(p.read_memory(0x10), 0x82);
}

#[test]
fn adc_overflow_spot_check() {
    // 0x7F + 0x01 + 0: result 0x80, overflow set, carry clear
    let mut p = Processor::new(&vec![0xA9, 0x7F, 0x69, 0x01]);
    step_n(&mut p, 4);
    assert_eq!(p.get_ac(), 0x80);
    assert_ne!(p.get_sr() & FLAG_OVERFLOW, 0);
    assert_eq!(p.get_sr() & FLAG_CARRY, 0);
    assert_ne!(p.get_sr() & FLAG_NEGATIVE, 0);
}

#[test]
fn adc_carry_spot_check() {
    // 0xFF + 0x01 + 0: result 0x00, carry set, zero set
    let mut p = Processor::new(&vec![0xA9, 0xFF, 0x69, 0x01]);
    step_n(&mut p, 4);
    assert_eq!(p.get_ac(), 0x00);
    assert_ne!(p.get_sr() & FLAG_CARRY, 0);
    assert_ne!(p.get_sr() & FLAG_ZERO, 0);
}

#[test]
fn adc_consumes_carry_in() {
    // after 0xFF + 0x01 the carry is set, so 0x00 + 0x05 + 1 gives 0x06
    let mut p = Processor::new(&vec![0xA9, 0xFF, 0x69, 0x01, 0x69, 0x05]);
    step_n(&mut p, 6);
    assert_eq!(p.get_ac(), 0x06);
    assert_eq!(p.get_sr() & FLAG_CARRY, 0);
}

#[test]
fn adc_handler_direct() {
    let mut p = Processor::new(&vec![]);
    p.instruction_lda(0x12);
    p.instruction_adc(0x34);
    assert_eq!(p.get_ac(), 0x46);
    assert_eq!(p.get_sr() & FLAG_CARRY, 0);
    assert_eq!(p.get_sr() & FLAG_OVERFLOW, 0);
}

#[test]
fn sbc_without_borrow() {
    let mut p = Processor::new(&vec![]);
    p.instruction_lda(0x10);
    p.instruction_sbc(0x05);
    // carry-in is clear at power-on, so this is 0x10 - 0x05 - 0
    assert_eq!(p.get_ac(), 0x0B);
    assert_eq!(p.get_sr() & FLAG_CARRY, 0);
}

#[test]
fn sbc_with_borrow_sets_carry() {
    let mut p = Processor::new(&vec![]);
    p.instruction_lda(0x03);
    p.instruction_sbc(0x05);
    // raw result is negative: wraps to 0xFE and the carry flag is set
    assert_eq!(p.get_ac(), 0xFE);
    assert_ne!(p.get_sr() & FLAG_CARRY, 0);
    assert_ne!(p.get_sr() & FLAG_NEGATIVE, 0);
}

#[test]
fn cmp_orders_register_against_operand() {
    let mut p = Processor::new(&vec![]);
    p.instruction_lda(0x42);
    p.instruction_cmp(0x42);
    assert_ne!(p.get_sr() & FLAG_CARRY, 0);
    assert_ne!(p.get_sr() & FLAG_ZERO, 0);
    p.instruction_cmp(0x50);
    assert_eq!(p.get_sr() & FLAG_CARRY, 0);
    assert_eq!(p.get_sr() & FLAG_ZERO, 0);
    assert_ne!(p.get_sr() & FLAG_NEGATIVE, 0);
}

#[test]
fn logic_handlers_update_accumulator_and_flags() {
    let mut p = Processor::new(&vec![]);
    p.instruction_lda(0b1100_1100);
    p.instruction_and(0b1010_1010);
    assert_eq!(p.get_ac(), 0b1000_1000);
    assert_ne!(p.get_sr() & FLAG_NEGATIVE, 0);
    p.instruction_or(0b0000_0011);
    assert_eq!(p.get_ac(), 0b1000_1011);
    p.instruction_xor(0b1000_1011);
    assert_eq!(p.get_ac(), 0);
    assert_ne!(p.get_sr() & FLAG_ZERO, 0);
}

#[test]
fn asl_accumulator_carries_out_bit_seven() {
    let mut p = Processor::new(&vec![]);
    p.instruction_lda(0x81);
    p.instruction_asl_accumulator();
    assert_eq!(p.get_ac(), 0x02);
    assert_ne!(p.get_sr() & FLAG_CARRY, 0);
    assert_eq!(p.get_sr() & FLAG_NEGATIVE, 0);
}

#[test]
fn rol_accumulator_rotates_carry_in() {
    let mut p = Processor::new(&vec![]);
    p.instruction_lda(0x81);
    p.instruction_asl_accumulator();  // leaves carry set
    p.instruction_lda(0x40);
    p.instruction_rol_accumulator();
    assert_eq!(p.get_ac(), 0x81);
    assert_eq!(p.get_sr() & FLAG_CARRY, 0);
}

#[test]
fn bit_reads_operand_bits_into_flags() {
    let mut p = Processor::new(&vec![]);
    p.instruction_lda(0x0F);
    p.instruction_bit(0xC0);
    assert_ne!(p.get_sr() & FLAG_NEGATIVE, 0);
    assert_ne!(p.get_sr() & FLAG_OVERFLOW, 0);
    assert_ne!(p.get_sr() & FLAG_ZERO, 0);  // 0xC0 & 0x0F == 0
}

#[test]
fn compare_and_decrement_index_registers() {
    let mut p = Processor::new(&vec![]);
    p.instruction_ldx(0x01);
    p.instruction_dex();
    assert_eq!(p.get_x(), 0x00);
    assert_ne!(p.get_sr() & FLAG_ZERO, 0);
    p.instruction_dex();
    assert_eq!(p.get_x(), 0xFF);
    assert_ne!(p.get_sr() & FLAG_NEGATIVE, 0);
    p.instruction_ldy(0x05);
    p.instruction_dey();
    assert_eq!(p.get_y(), 0x04);
    p.instruction_cpy(0x04);
    assert_ne!(p.get_sr() & FLAG_ZERO, 0);
    p.instruction_cpx(0x00);
    assert_eq!(p.get_sr() & FLAG_ZERO, 0);
}

#[test]
fn flag_clear_handlers() {
    let mut p = Processor::new(&vec![]);
    p.instruction_lda(0xFF);
    p.instruction_adc(0x01);  // sets carry
    p.instruction_clc();
    assert_eq!(p.get_sr() & FLAG_CARRY, 0);
    p.instruction_bit(0x40);  // sets overflow
    p.instruction_clv();
    assert_eq!(p.get_sr() & FLAG_OVERFLOW, 0);
    p.instruction_cld();
    assert_eq!(p.get_sr() & 0x08, 0);
    p.instruction_cli();
    assert_eq!(p.get_sr() & FLAG_INTERRUPT, 0);
}

#[test]
fn branch_taken_costs_three_cycles() {
    // LDA #$01 leaves zero clear, so BNE +2 branches: 3 cycles, and the
    // displacement lands past the two skipped bytes
    let mut p = Processor::new(&vec![0xA9, 0x01, 0xD0, 0x02, 0xEA, 0xEA]);
    step_n(&mut p, 2);
    step_n(&mut p, 2);
    assert!(!p.is_ready());
    p.execute_next_instruction();
    assert!(p.is_ready());
    assert_eq!(p.get_pc(), 0x8006);
}

#[test]
fn branch_skipped_costs_two_cycles() {
    // LDA #$00 sets zero, so BNE falls through in 2 cycles
    let mut p = Processor::new(&vec![0xA9, 0x00, 0xD0, 0x02, 0xEA, 0xEA]);
    step_n(&mut p, 2);
    p.execute_next_instruction();
    assert!(!p.is_ready());
    p.execute_next_instruction();
    assert!(p.is_ready());
    assert_eq!(p.get_pc(), 0x8004);
}

#[test]
fn branch_backward_displacement() {
    // BNE with displacement 0xFC (-4) from the byte after the operand
    let mut p = Processor::new(&vec![0xA9, 0x01, 0xD0, 0xFC]);
    step_n(&mut p, 2);
    step_n(&mut p, 3);
    assert_eq!(p.get_pc(), 0x8000);
}

#[test]
fn beq_branches_on_zero() {
    let mut p = Processor::new(&vec![0xA9, 0x00, 0xF0, 0x01, 0xEA, 0xEA]);
    step_n(&mut p, 2 + 3);
    assert_eq!(p.get_pc(), 0x8005);
}

#[test]
fn pha_pla_round_trip_through_stack() {
    // LDA #$55; PHA; LDA #$00; PLA — the accumulator comes back from the
    // stack page
    let mut p = Processor::new(&vec![0xA9, 0x55, 0x48, 0xA9, 0x00, 0x68]);
    step_n(&mut p, 2 + 3);
    assert_eq!(p.get_sp(), 0xFE);
    assert_eq!(p.read_memory(0x01FF), 0x55);
    step_n(&mut p, 2);
    assert_eq!(p.get_ac(), 0x00);
    step_n(&mut p, 4);
    assert_eq!(p.get_ac(), 0x55);
    assert_eq!(p.get_sp(), 0xFF);
}

#[test]
fn php_plp_round_trip_through_stack() {
    // set carry via ADC, push the status byte, clear carry, pull it back
    let mut p = Processor::new(&vec![0xA9, 0xFF, 0x69, 0x01, 0x08, 0x18, 0x28]);
    step_n(&mut p, 2 + 2);
    let sr_before = p.get_sr();
    assert_ne!(sr_before & FLAG_CARRY, 0);
    step_n(&mut p, 3);
    assert_eq!(p.read_memory(0x01FF), sr_before);
    step_n(&mut p, 2);
    assert_eq!(p.get_sr() & FLAG_CARRY, 0);
    step_n(&mut p, 4);
    assert_eq!(p.get_sr(), sr_before);
}

#[test]
fn transfers_and_increment() {
    // LDA #$80; TAX; INX; TXA; TXS
    let mut p = Processor::new(&vec![0xA9, 0x80, 0xAA, 0xE8, 0x8A, 0x9A]);
    step_n(&mut p, 2);
    step_n(&mut p, 2);
    assert_eq!(p.get_x(), 0x80);
    assert_ne!(p.get_sr() & FLAG_NEGATIVE, 0);
    step_n(&mut p, 2);
    assert_eq!(p.get_x(), 0x81);
    step_n(&mut p, 2);
    assert_eq!(p.get_ac(), 0x81);
    step_n(&mut p, 2);
    assert_eq!(p.get_sp(), 0x81);
}

#[test]
fn inx_wraps_to_zero() {
    let mut p = Processor::new(&vec![0xA2, 0xFF, 0xE8]);
    step_n(&mut p, 2 + 2);
    assert_eq!(p.get_x(), 0x00);
    assert_ne!(p.get_sr() & FLAG_ZERO, 0);
}

#[test]
fn sei_sets_interrupt_disable() {
    let mut p = Processor::new(&vec![0x78]);
    step_n(&mut p, 2);
    assert_ne!(p.get_sr() & FLAG_INTERRUPT, 0);
}

#[test]
fn brk_pushes_state_and_loads_vector() {
    // a full 32KB image so the vector bytes at 0xFFFE/0xFFFF are set
    let mut image = vec![0u8; 0x8000];
    image[0x7FFE] = 0x12;  // bus address 0xFFFE
    image[0x7FFF] = 0x34;  // bus address 0xFFFF
    let mut p = Processor::new(&image);
    step_n(&mut p, 6);
    assert!(!p.is_ready());
    p.execute_next_instruction();
    assert!(p.is_ready());
    assert_eq!(p.get_pc(), 0x1234);
    assert_eq!(p.get_sp(), 0xFC);
    assert_eq!(p.read_memory(0x01FF), 0x80);  // return address high
    assert_eq!(p.read_memory(0x01FE), 0x02);  // return address low
    assert_eq!(p.read_memory(0x01FD), 0x30 | FLAG_BREAK);
    assert_ne!(p.get_sr() & FLAG_BREAK, 0);
}

#[test]
fn sta_zero_page_and_absolute() {
    let mut p = Processor::new(&vec![0xA9, 0x99, 0x85, 0x20, 0x8D, 0x00, 0x03]);
    step_n(&mut p, 2 + 3);
    assert_eq!(p.read_memory(0x20), 0x99);
    step_n(&mut p, 4);
    assert_eq!(p.read_memory(0x0300), 0x99);
}

#[test]
fn stx_sty_store_index_registers() {
    let mut p = Processor::new(&vec![0xA2, 0x11, 0x86, 0x30, 0xA0, 0x22, 0x84, 0x31]);
    step_n(&mut p, 2 + 3 + 2 + 3);
    assert_eq!(p.read_memory(0x30), 0x11);
    assert_eq!(p.read_memory(0x31), 0x22);
}

#[test]
fn lda_absolute_reads_rom() {
    let mut p = Processor::new(&vec![0xAD, 0x04, 0x80, 0x00, 0x7E]);
    step_n(&mut p, 4);
    assert_eq!(p.get_ac(), 0x7E);
}

#[test]
fn lda_zero_page_indexed_adds_x() {
    // LDA #$66; STA $25; LDX #$05; LDA $20,X
    let mut p = Processor::new(&vec![0xA9, 0x66, 0x85, 0x25, 0xA2, 0x05, 0xA9, 0x00, 0xB5,
        0x20]);
    step_n(&mut p, 2 + 3 + 2 + 2 + 4);
    assert_eq!(p.get_ac(), 0x66);
}

#[test]
fn lda_indirect_y_dereferences_pointer() {
    // install 0x77 at 0x0300, point $20/$21 at 0x02FF, Y=1
    let program = vec![
        0xA9, 0x77,  // LDA #$77
        0x8D, 0x00, 0x03,  // STA $0300
        0xA9, 0xFF,  // LDA #$FF
        0x85, 0x20,  // STA $20
        0xA9, 0x02,  // LDA #$02
        0x85, 0x21,  // STA $21
        0xA0, 0x01,  // LDY #$01
        0xA9, 0x00,  // LDA #$00
        0xB1, 0x20,  // LDA ($20),Y
    ];
    let mut p = Processor::new(&program);
    step_n(&mut p, 2 + 4 + 2 + 3 + 2 + 3 + 2 + 2 + 6);
    assert!(p.is_ready());
    assert_eq!(p.get_ac(), 0x77);
}

#[test]
fn asl_memory_through_indexed_rmw_mode() {
    // LDA #$21; STA $40; LDX #$10; ASL $30,X — 6 cycles for the indexed
    // zero-page read-modify-write
    let mut p = Processor::new(&vec![0xA9, 0x21, 0x85, 0x40, 0xA2, 0x10, 0x16, 0x30]);
    step_n(&mut p, 2 + 3 + 2);
    step_n(&mut p, 6);
    assert!(p.is_ready());
    assert_eq!(p.read_memory(0x40), 0x42);
}

#[test]
fn rol_memory_through_zero_page_write_mode() {
    // ROL $10 is dispatched through the 3-cycle zero-page write mode
    let mut p = Processor::new(&vec![0xA9, 0x80, 0x85, 0x10, 0x26, 0x10]);
    step_n(&mut p, 2 + 3);
    step_n(&mut p, 3);
    assert!(p.is_ready());
    assert_eq!(p.read_memory(0x10), 0x00);
    assert_ne!(p.get_sr() & FLAG_CARRY, 0);
}

#[test]
fn unimplemented_opcode_stalls_silently() {
    let mut p = Processor::new(&vec![0x02, 0xA9, 0x07]);
    p.execute_next_instruction();
    assert!(!p.is_ready());
    assert_eq!(p.get_pc(), 0x8001);
    let sr = p.get_sr();
    p.execute_next_instruction();
    p.execute_next_instruction();
    assert!(!p.is_ready());
    assert_eq!(p.get_pc(), 0x8001);
    assert_eq!(p.get_sr(), sr);
    assert_eq!(p.get_ac(), 0x00);
}

#[test]
fn power_on_state() {
    let p = Processor::new(&vec![]);
    assert_eq!(p.get_pc(), 0x8000);
    assert_eq!(p.get_ac(), 0x00);
    assert_eq!(p.get_x(), 0x00);
    assert_eq!(p.get_y(), 0x00);
    assert_eq!(p.get_sr(), 0x30);
    assert_eq!(p.get_sp(), 0xFF);
    assert!(p.is_ready());
}

#[test]
fn flag_primitives_set_and_clear() {
    let mut p = Processor::new(&vec![]);
    p.set_flag_0th_bit_carry(0x100);
    assert_ne!(p.get_sr() & FLAG_CARRY, 0);
    p.set_flag_0th_bit_carry(0xFF);
    assert_eq!(p.get_sr() & FLAG_CARRY, 0);
    p.set_flag_1st_bit_zero(0);
    assert_ne!(p.get_sr() & FLAG_ZERO, 0);
    p.set_flag_1st_bit_zero(1);
    assert_eq!(p.get_sr() & FLAG_ZERO, 0);
    p.set_flag_6th_bit_overflow(0x7F, 0x01, 0x80);
    assert_ne!(p.get_sr() & FLAG_OVERFLOW, 0);
    p.set_flag_6th_bit_overflow(0x7F, 0x01, 0x7E);
    assert_eq!(p.get_sr() & FLAG_OVERFLOW, 0);
    p.set_flag_7th_bit_nagetive(0x80);
    assert_ne!(p.get_sr() & FLAG_NEGATIVE, 0);
    p.set_flag_7th_bit_nagetive(0x7F);
    assert_eq!(p.get_sr() & FLAG_NEGATIVE, 0);
}
