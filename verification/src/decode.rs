//! Opcode decoding: the flat 256-entry dispatch table. Every opcode byte maps
//! to an (addressing mode, instruction) pair; bytes outside the implemented
//! set map to `Unimplemented`, which steps silently without touching state —
//! a visible completeness gap, not a fault.

use vstd::prelude::*;
use crate::instructions::{AccInstr, BranchInstr, ReadInstr, WriteInstr};

verus! {

/// An opcode after decoding: either one of the stack/transfer/control
/// specials with its own per-cycle sequence, or an addressing mode paired
/// with the instruction it drives. The `bool` on indexed modes selects the
/// index register: true for X, false for Y.
#[derive(Clone, Copy)]
pub enum DecodedOp {
    Brk,
    Jsr,
    Php,
    Plp,
    Pha,
    Pla,
    Txa,
    Tax,
    Txs,
    Inx,
    Sei,
    Nop,
    Immediate(ReadInstr),
    ZeroPageRead(ReadInstr),
    ZeroPageReadWrite(WriteInstr),
    ZeroPageWrite(WriteInstr),
    ZeroPageIndexedRead(bool, ReadInstr),
    ZeroPageIndexedReadWrite(bool, WriteInstr),
    ZeroPageIndexedWrite(bool, WriteInstr),
    AbsoluteRead(ReadInstr),
    AbsoluteReadWrite(WriteInstr),
    AbsoluteWrite(WriteInstr),
    AbsoluteIndexedRead(bool, ReadInstr),
    AbsoluteIndexedReadWrite(bool, WriteInstr),
    AbsoluteIndexedWrite(bool, WriteInstr),
    IndirectXRead(ReadInstr),
    IndirectXWrite(WriteInstr),
    IndirectYRead(ReadInstr),
    IndirectYWrite(WriteInstr),
    Accumulator(AccInstr),
    Relative(BranchInstr),
    Unimplemented,
}

/// The dispatch table: the high nibble groups the instruction family, the low
/// nibble selects the addressing mode within it.
pub open spec fn decode(op: u8) -> DecodedOp {
    match op {
        0x00 => DecodedOp::Brk,
        0x01 => DecodedOp::IndirectXRead(ReadInstr::Ora),
        0x05 => DecodedOp::ZeroPageRead(ReadInstr::Ora),
        0x06 => DecodedOp::ZeroPageReadWrite(WriteInstr::AslMem),
        0x08 => DecodedOp::Php,
        0x09 => DecodedOp::Immediate(ReadInstr::Ora),
        0x0A => DecodedOp::Accumulator(AccInstr::AslAcc),
        0x0D => DecodedOp::AbsoluteRead(ReadInstr::Ora),
        0x0E => DecodedOp::AbsoluteReadWrite(WriteInstr::AslMem),
        0x10 => DecodedOp::Relative(BranchInstr::Bpl),
        0x11 => DecodedOp::IndirectYRead(ReadInstr::Ora),
        0x15 => DecodedOp::ZeroPageIndexedRead(true, ReadInstr::Ora),
        0x16 => DecodedOp::ZeroPageIndexedReadWrite(true, WriteInstr::AslMem),
        0x18 => DecodedOp::Accumulator(AccInstr::Clc),
        0x19 => DecodedOp::AbsoluteIndexedRead(false, ReadInstr::Ora),
        0x1D => DecodedOp::AbsoluteIndexedRead(true, ReadInstr::Ora),
        0x1E => DecodedOp::AbsoluteIndexedReadWrite(true, WriteInstr::AslMem),
        0x20 => DecodedOp::Jsr,
        0x21 => DecodedOp::IndirectXRead(ReadInstr::And),
        0x24 => DecodedOp::ZeroPageRead(ReadInstr::Bit),
        0x25 => DecodedOp::ZeroPageRead(ReadInstr::And),
        0x26 => DecodedOp::ZeroPageWrite(WriteInstr::RolMem),
        0x28 => DecodedOp::Plp,
        0x29 => DecodedOp::Immediate(ReadInstr::And),
        0x2A => DecodedOp::Accumulator(AccInstr::RolAcc),
        0x2C => DecodedOp::AbsoluteRead(ReadInstr::Bit),
        0x2D => DecodedOp::AbsoluteRead(ReadInstr::And),
        0x2E => DecodedOp::AbsoluteWrite(WriteInstr::RolMem),
        0x30 => DecodedOp::Relative(BranchInstr::Bmi),
        0x31 => DecodedOp::IndirectYRead(ReadInstr::And),
        0x35 => DecodedOp::ZeroPageIndexedRead(true, ReadInstr::And),
        0x36 => DecodedOp::ZeroPageIndexedWrite(true, WriteInstr::RolMem),
        0x39 => DecodedOp::AbsoluteIndexedRead(false, ReadInstr::And),
        0x3D => DecodedOp::AbsoluteIndexedRead(true, ReadInstr::And),
        0x3E => DecodedOp::AbsoluteIndexedWrite(true, WriteInstr::RolMem),
        0x41 => DecodedOp::IndirectXRead(ReadInstr::Eor),
        0x45 => DecodedOp::ZeroPageRead(ReadInstr::Eor),
        0x48 => DecodedOp::Pha,
        0x49 => DecodedOp::Immediate(ReadInstr::Eor),
        0x4D => DecodedOp::AbsoluteRead(ReadInstr::Eor),
        0x50 => DecodedOp::Relative(BranchInstr::Bvc),
        0x51 => DecodedOp::IndirectYRead(ReadInstr::Eor),
        0x55 => DecodedOp::ZeroPageIndexedRead(true, ReadInstr::Eor),
        0x58 => DecodedOp::Accumulator(AccInstr::Cli),
        0x59 => DecodedOp::AbsoluteIndexedRead(false, ReadInstr::Eor),
        0x5D => DecodedOp::AbsoluteIndexedRead(true, ReadInstr::Eor),
        0x61 => DecodedOp::IndirectXRead(ReadInstr::Adc),
        0x65 => DecodedOp::ZeroPageRead(ReadInstr::Adc),
        0x68 => DecodedOp::Pla,
        0x69 => DecodedOp::Immediate(ReadInstr::Adc),
        0x6D => DecodedOp::AbsoluteRead(ReadInstr::Adc),
        0x70 => DecodedOp::Relative(BranchInstr::Bvs),
        0x71 => DecodedOp::IndirectYRead(ReadInstr::Adc),
        0x75 => DecodedOp::ZeroPageIndexedRead(true, ReadInstr::Adc),
        0x78 => DecodedOp::Sei,
        0x79 => DecodedOp::AbsoluteIndexedRead(false, ReadInstr::Adc),
        0x7D => DecodedOp::AbsoluteIndexedRead(true, ReadInstr::Adc),
        0x81 => DecodedOp::IndirectXWrite(WriteInstr::Sta),
        0x84 => DecodedOp::ZeroPageWrite(WriteInstr::Sty),
        0x85 => DecodedOp::ZeroPageWrite(WriteInstr::Sta),
        0x86 => DecodedOp::ZeroPageWrite(WriteInstr::Stx),
        0x88 => DecodedOp::Accumulator(AccInstr::Dey),
        0x8A => DecodedOp::Txa,
        0x8C => DecodedOp::AbsoluteWrite(WriteInstr::Sty),
        0x8D => DecodedOp::AbsoluteWrite(WriteInstr::Sta),
        0x8E => DecodedOp::AbsoluteWrite(WriteInstr::Stx),
        0x90 => DecodedOp::Relative(BranchInstr::Bcc),
        0x91 => DecodedOp::IndirectYWrite(WriteInstr::Sta),
        0x94 => DecodedOp::ZeroPageIndexedWrite(true, WriteInstr::Sty),
        0x95 => DecodedOp::ZeroPageIndexedWrite(true, WriteInstr::Sta),
        0x96 => DecodedOp::ZeroPageIndexedWrite(false, WriteInstr::Stx),
        0x99 => DecodedOp::AbsoluteIndexedWrite(false, WriteInstr::Sta),
        0x9A => DecodedOp::Txs,
        0x9D => DecodedOp::AbsoluteIndexedWrite(true, WriteInstr::Sta),
        0xA0 => DecodedOp::Immediate(ReadInstr::Ldy),
        0xA1 => DecodedOp::IndirectXRead(ReadInstr::Lda),
        0xA2 => DecodedOp::Immediate(ReadInstr::Ldx),
        0xA4 => DecodedOp::ZeroPageRead(ReadInstr::Ldy),
        0xA5 => DecodedOp::ZeroPageRead(ReadInstr::Lda),
        0xA6 => DecodedOp::ZeroPageRead(ReadInstr::Ldx),
        0xA9 => DecodedOp::Immediate(ReadInstr::Lda),
        0xAA => DecodedOp::Tax,
        0xAC => DecodedOp::AbsoluteRead(ReadInstr::Ldy),
        0xAD => DecodedOp::AbsoluteRead(ReadInstr::Lda),
        0xAE => DecodedOp::AbsoluteRead(ReadInstr::Ldx),
        0xB0 => DecodedOp::Relative(BranchInstr::Bcs),
        0xB1 => DecodedOp::IndirectYRead(ReadInstr::Lda),
        0xB4 => DecodedOp::ZeroPageIndexedRead(true, ReadInstr::Ldy),
        0xB5 => DecodedOp::ZeroPageIndexedRead(true, ReadInstr::Lda),
        0xB6 => DecodedOp::ZeroPageIndexedRead(false, ReadInstr::Ldx),
        0xB8 => DecodedOp::Accumulator(AccInstr::Clv),
        0xB9 => DecodedOp::AbsoluteIndexedRead(false, ReadInstr::Lda),
        0xBC => DecodedOp::AbsoluteIndexedRead(true, ReadInstr::Ldy),
        0xBD => DecodedOp::AbsoluteIndexedRead(true, ReadInstr::Lda),
        0xBE => DecodedOp::AbsoluteIndexedRead(false, ReadInstr::Ldx),
        0xC0 => DecodedOp::Immediate(ReadInstr::Cpy),
        0xC1 => DecodedOp::IndirectXRead(ReadInstr::Cmp),
        0xC4 => DecodedOp::ZeroPageRead(ReadInstr::Cpy),
        0xC5 => DecodedOp::ZeroPageRead(ReadInstr::Cmp),
        0xC9 => DecodedOp::Immediate(ReadInstr::Cmp),
        0xCA => DecodedOp::Accumulator(AccInstr::Dex),
        0xCC => DecodedOp::AbsoluteRead(ReadInstr::Cpy),
        0xCD => DecodedOp::AbsoluteRead(ReadInstr::Cmp),
        0xD0 => DecodedOp::Relative(BranchInstr::Bne),
        0xD1 => DecodedOp::IndirectYRead(ReadInstr::Cmp),
        0xD5 => DecodedOp::ZeroPageIndexedRead(true, ReadInstr::Cmp),
        0xD8 => DecodedOp::Accumulator(AccInstr::Cld),
        0xD9 => DecodedOp::AbsoluteIndexedRead(false, ReadInstr::Cmp),
        0xDD => DecodedOp::AbsoluteIndexedRead(true, ReadInstr::Cmp),
        0xE0 => DecodedOp::Immediate(ReadInstr::Cpx),
        0xE1 => DecodedOp::IndirectXRead(ReadInstr::Sbc),
        0xE4 => DecodedOp::ZeroPageRead(ReadInstr::Cpx),
        0xE5 => DecodedOp::ZeroPageRead(ReadInstr::Sbc),
        0xE8 => DecodedOp::Inx,
        0xE9 => DecodedOp::Immediate(ReadInstr::Sbc),
        0xEA => DecodedOp::Nop,
        0xEC => DecodedOp::AbsoluteRead(ReadInstr::Cpx),
        0xED => DecodedOp::AbsoluteRead(ReadInstr::Sbc),
        0xF0 => DecodedOp::Relative(BranchInstr::Beq),
        0xF1 => DecodedOp::IndirectYRead(ReadInstr::Sbc),
        0xF5 => DecodedOp::ZeroPageIndexedRead(true, ReadInstr::Sbc),
        0xF9 => DecodedOp::AbsoluteIndexedRead(false, ReadInstr::Sbc),
        0xFD => DecodedOp::AbsoluteIndexedRead(true, ReadInstr::Sbc),
        _ => DecodedOp::Unimplemented,
    }
}

} // verus!
