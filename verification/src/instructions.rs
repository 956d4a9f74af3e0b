//! Instruction semantics: each instruction family is a pure transform from
//! the current registers (and, for operand-taking instructions, one operand
//! byte) to updated registers, plus — for memory-mutating instructions — the
//! byte to write back. The addressing-mode engine decides where the operand
//! comes from and where the result goes; nothing here touches the bus.

use vstd::prelude::*;
use crate::state::{CpuV, dec8, spec_set_carry, spec_set_negative, spec_set_overflow, spec_set_zero};

verus! {

/// Instructions that consume an operand byte and update registers only.
#[derive(Clone, Copy)]
pub enum ReadInstr {
    Ora,
    And,
    Eor,
    Adc,
    Sbc,
    Lda,
    Ldx,
    Ldy,
    Cmp,
    Cpx,
    Cpy,
    Bit,
}

/// Instructions that produce a byte for the bus to write back: the stores,
/// and the shifts that operate on memory.
#[derive(Clone, Copy)]
pub enum WriteInstr {
    Sta,
    Stx,
    Sty,
    AslMem,
    RolMem,
}

/// Instructions that run with no operand, against the accumulator, an index
/// register or the status register alone.
#[derive(Clone, Copy)]
pub enum AccInstr {
    AslAcc,
    RolAcc,
    Clc,
    Cld,
    Cli,
    Clv,
    Dex,
    Dey,
}

/// The eight condition-code branches.
#[derive(Clone, Copy)]
pub enum BranchInstr {
    Bpl,
    Bmi,
    Bne,
    Beq,
    Bcc,
    Bcs,
    Bvc,
    Bvs,
}

// ---------------------------------------------------------------------------
// Transforms for the read instructions.
// ---------------------------------------------------------------------------

/// A load or bitwise-logic result: the value lands in a register and the zero
/// and negative flags follow it.
pub open spec fn flags_zn(sr: u8, result: u8) -> u8 {
    spec_set_negative(spec_set_zero(sr, result), result)
}

/// Add with carry: sum = accumulator + operand + carry-in, truncated to 8
/// bits; carry-out iff the raw sum exceeds 0xFF; overflow per the
/// sign-mismatch formula; zero and negative follow the truncated sum.
pub open spec fn adc_state(s: CpuV, byte: u8) -> CpuV {
    let raw = s.ac + byte + (s.sr & 0x01);
    let result = (raw % 0x100) as u8;
    let sr1 = spec_set_carry(s.sr, raw as u16);
    let sr2 = spec_set_zero(sr1, result);
    let sr3 = spec_set_overflow(sr2, s.ac as u16, byte as u16, raw as u16);
    let sr4 = spec_set_negative(sr3, result);
    CpuV { ac: result, sr: sr4, ..s }
}

/// Subtract with borrow: raw = accumulator - operand - carry-in, taken modulo
/// 2^16 so that a negative raw result shows up above 0xFF and sets the carry
/// flag; the accumulator takes the raw result modulo 256.
pub open spec fn sbc_state(s: CpuV, byte: u8) -> CpuV {
    let raw16 = ((s.ac + 0x10000 - byte - (s.sr & 0x01)) % 0x10000) as u16;
    let result = (raw16 % 0x100) as u8;
    let sr1 = spec_set_carry(s.sr, raw16);
    let sr2 = spec_set_zero(sr1, result);
    let sr3 = spec_set_overflow(sr2, s.ac as u16, byte as u16, raw16);
    let sr4 = spec_set_negative(sr3, result);
    CpuV { ac: result, sr: sr4, ..s }
}

/// A compare: carry iff register >= operand, zero and negative from the
/// wrapped difference; no register changes.
pub open spec fn cmp_sr(sr: u8, reg: u8, byte: u8) -> u8 {
    let diff = ((reg + 0x100 - byte) % 0x100) as u8;
    let sr1 = if reg >= byte {
        sr | 0x01
    } else {
        sr & 0xFE
    };
    flags_zn(sr1, diff)
}

/// BIT: negative from bit 7 of the operand, overflow from bit 6, zero from
/// the operand masked with the accumulator; no register changes.
pub open spec fn bit_sr(sr: u8, ac: u8, byte: u8) -> u8 {
    let sr1 = spec_set_negative(sr, byte);
    let sr2 = if byte & 0x40 == 0x40 {
        sr1 | 0x40
    } else {
        sr1 & 0xBF
    };
    spec_set_zero(sr2, byte & ac)
}

/// The state after a read instruction consumes its operand byte.
pub open spec fn read_instr_state(i: ReadInstr, s: CpuV, byte: u8) -> CpuV {
    match i {
        ReadInstr::Ora => (CpuV { ac: s.ac | byte, sr: flags_zn(s.sr, s.ac | byte), ..s }),
        ReadInstr::And => (CpuV { ac: s.ac & byte, sr: flags_zn(s.sr, s.ac & byte), ..s }),
        ReadInstr::Eor => (CpuV { ac: s.ac ^ byte, sr: flags_zn(s.sr, s.ac ^ byte), ..s }),
        ReadInstr::Adc => adc_state(s, byte),
        ReadInstr::Sbc => sbc_state(s, byte),
        ReadInstr::Lda => (CpuV { ac: byte, sr: flags_zn(s.sr, byte), ..s }),
        ReadInstr::Ldx => (CpuV { x: byte, sr: flags_zn(s.sr, byte), ..s }),
        ReadInstr::Ldy => (CpuV { y: byte, sr: flags_zn(s.sr, byte), ..s }),
        ReadInstr::Cmp => (CpuV { sr: cmp_sr(s.sr, s.ac, byte), ..s }),
        ReadInstr::Cpx => (CpuV { sr: cmp_sr(s.sr, s.x, byte), ..s }),
        ReadInstr::Cpy => (CpuV { sr: cmp_sr(s.sr, s.y, byte), ..s }),
        ReadInstr::Bit => (CpuV { sr: bit_sr(s.sr, s.ac, byte), ..s }),
    }
}

// ---------------------------------------------------------------------------
// Transforms for the write-back instructions.
// ---------------------------------------------------------------------------

/// Arithmetic shift left of a byte: carry-out from the raw doubled value,
/// zero and negative from the truncated result.
pub open spec fn asl_result(byte: u8) -> u8 {
    ((2 * byte) % 0x100) as u8
}

pub open spec fn asl_sr(sr: u8, byte: u8) -> u8 {
    flags_zn(spec_set_carry(sr, (2 * byte) as u16), asl_result(byte))
}

/// Rotate left through carry: the old carry flag enters at bit 0, the old bit
/// 7 leaves into the carry flag.
pub open spec fn rol_result(byte: u8, sr: u8) -> u8 {
    ((2 * byte + (sr & 0x01)) % 0x100) as u8
}

pub open spec fn rol_sr(sr: u8, byte: u8) -> u8 {
    flags_zn(spec_set_carry(sr, (2 * byte + (sr & 0x01)) as u16), rol_result(byte, sr))
}

/// The state and the byte to write back after a write-back instruction reads
/// the current memory content. Stores ignore the content and hand out a
/// register; shifts compute from the content and update flags.
pub open spec fn write_instr_state(i: WriteInstr, s: CpuV, byte: u8) -> (CpuV, u8) {
    match i {
        WriteInstr::Sta => (s, s.ac),
        WriteInstr::Stx => (s, s.x),
        WriteInstr::Sty => (s, s.y),
        WriteInstr::AslMem => ((CpuV { sr: asl_sr(s.sr, byte), ..s }), asl_result(byte)),
        WriteInstr::RolMem => ((CpuV { sr: rol_sr(s.sr, byte), ..s }), rol_result(byte, s.sr)),
    }
}

// ---------------------------------------------------------------------------
// Transforms for the no-operand instructions.
// ---------------------------------------------------------------------------

/// The state after an implied/accumulator instruction.
pub open spec fn acc_instr_state(i: AccInstr, s: CpuV) -> CpuV {
    match i {
        AccInstr::AslAcc => (CpuV { ac: asl_result(s.ac), sr: asl_sr(s.sr, s.ac), ..s }),
        AccInstr::RolAcc => (CpuV { ac: rol_result(s.ac, s.sr), sr: rol_sr(s.sr, s.ac), ..s }),
        AccInstr::Clc => (CpuV { sr: s.sr & 0xFE, ..s }),
        AccInstr::Cld => (CpuV { sr: s.sr & 0xF7, ..s }),
        AccInstr::Cli => (CpuV { sr: s.sr & 0xFB, ..s }),
        AccInstr::Clv => (CpuV { sr: s.sr & 0xBF, ..s }),
        AccInstr::Dex => (CpuV { x: dec8(s.x), sr: flags_zn(s.sr, dec8(s.x)), ..s }),
        AccInstr::Dey => (CpuV { y: dec8(s.y), sr: flags_zn(s.sr, dec8(s.y)), ..s }),
    }
}

// ---------------------------------------------------------------------------
// Branch predicates.
// ---------------------------------------------------------------------------

/// True when the branch is *not* taken: the displacement cycle is skipped and
/// the instruction ends after the operand fetch.
pub open spec fn branch_skips(i: BranchInstr, sr: u8) -> bool {
    match i {
        BranchInstr::Bpl => sr & 0x80 != 0,
        BranchInstr::Bmi => sr & 0x80 == 0,
        BranchInstr::Bne => sr & 0x02 != 0,
        BranchInstr::Beq => sr & 0x02 == 0,
        BranchInstr::Bcc => sr & 0x01 != 0,
        BranchInstr::Bcs => sr & 0x01 == 0,
        BranchInstr::Bvc => sr & 0x40 != 0,
        BranchInstr::Bvs => sr & 0x40 == 0,
    }
}

/// The program counter after a taken branch: the one-byte displacement is
/// sign-extended (0xFF00 stands for -0x100 modulo 2^16) and added to the
/// program counter, wrapping modulo 2^16.
pub open spec fn branch_dest(pc: u16, d: u8) -> u16 {
    if d < 0x80 {
        (((pc + d) % 0x10000) as u16)
    } else {
        (((pc + d + 0xFF00) % 0x10000) as u16)
    }
}

} // verus!
