//! The processor's architectural state and the status-flag primitives.
//!
//! Registers: 16-bit program counter, 8-bit accumulator, X, Y, stack pointer,
//! and the status register, an 8-bit bitfield laid out as N V - B D I Z C
//! (bit 7 down to bit 0). The stack pointer is an offset into the fixed stack
//! page 0x0100..0x01FF and wraps modulo 256.
//!
//! On top of the registers sits the instruction-cycle state: a ready flag
//! (true = the next step fetches a fresh opcode), the latched opcode, a cycle
//! counter zeroed at instruction start, and a 16-bit scratch register that
//! accumulates an effective address or operand across cycles.

use vstd::prelude::*;
use crate::memory::MemV;

verus! {

/// Mathematical model of the whole processor: registers, bus, and
/// instruction-cycle state.
#[verifier::ext_equal]
pub ghost struct CpuV {
    pub pc: u16,
    pub ac: u8,
    pub x: u8,
    pub y: u8,
    pub sr: u8,
    pub sp: u8,
    pub mem: MemV,
    pub ready: bool,
    pub opcode: u8,
    pub cycle: nat,
    pub arg: u16,
}

impl CpuV {
    pub open spec fn wf(self) -> bool {
        self.mem.wf()
    }
}

// ---------------------------------------------------------------------------
// Status-flag accessors (bit 7 down to bit 0: N V - B D I Z C).
// ---------------------------------------------------------------------------

pub open spec fn flag_carry(sr: u8) -> bool {
    sr & 0x01 != 0
}

pub open spec fn flag_zero(sr: u8) -> bool {
    sr & 0x02 != 0
}

pub open spec fn flag_interrupt(sr: u8) -> bool {
    sr & 0x04 != 0
}

pub open spec fn flag_decimal(sr: u8) -> bool {
    sr & 0x08 != 0
}

pub open spec fn flag_break(sr: u8) -> bool {
    sr & 0x10 != 0
}

pub open spec fn flag_overflow(sr: u8) -> bool {
    sr & 0x40 != 0
}

pub open spec fn flag_negative(sr: u8) -> bool {
    sr & 0x80 != 0
}

// ---------------------------------------------------------------------------
// The four flag-setting primitives. These are the single source of truth for
// every arithmetic/logic flag update; instruction transforms compose them.
// ---------------------------------------------------------------------------

/// Carry: set iff the raw, untruncated result exceeds 0xFF. Subtraction hands
/// in its raw result reduced modulo 0x10000, so a negative raw result arrives
/// here as a value above 0xFF and sets the flag.
pub open spec fn spec_set_carry(sr: u8, raw: u16) -> u8 {
    if raw > 0xFF {
        sr | 0x01
    } else {
        sr & 0xFE
    }
}

/// Zero: set iff the truncated 8-bit result is 0.
pub open spec fn spec_set_zero(sr: u8, result: u8) -> u8 {
    if result == 0 {
        sr | 0x02
    } else {
        sr & 0xFD
    }
}

/// Overflow: set iff operand and accumulator share a sign and the result's
/// sign differs from both: ((z ^ x) & (z ^ y) & 0x80) != 0.
pub open spec fn spec_set_overflow(sr: u8, x: u16, y: u16, z: u16) -> u8 {
    if (z ^ x) & (z ^ y) & 0x80 != 0 {
        sr | 0x40
    } else {
        sr & 0xBF
    }
}

/// Negative: set iff bit 7 of the truncated result is 1.
pub open spec fn spec_set_negative(sr: u8, result: u8) -> u8 {
    if result >= 0x80 {
        sr | 0x80
    } else {
        sr & 0x7F
    }
}

// ---------------------------------------------------------------------------
// Modular register arithmetic. All pointer/counter arithmetic wraps; overflow
// is specified behaviour, never a fault.
// ---------------------------------------------------------------------------

/// The program counter after advancing by one, modulo 2^16.
pub open spec fn pc_inc(pc: u16) -> u16 {
    if pc == 0xFFFF {
        0
    } else {
        (pc + 1) as u16
    }
}

/// 16-bit wrapping addition.
pub open spec fn wadd16(a: u16, b: u16) -> u16 {
    (((a + b) % 0x10000) as u16)
}

/// An 8-bit register after incrementing, modulo 256.
pub open spec fn inc8(v: u8) -> u8 {
    if v == 0xFF {
        0
    } else {
        (v + 1) as u8
    }
}

/// An 8-bit register after decrementing, modulo 256.
pub open spec fn dec8(v: u8) -> u8 {
    if v == 0 {
        0xFF
    } else {
        (v - 1) as u8
    }
}

/// High byte of a 16-bit word.
pub open spec fn hi8(w: u16) -> u8 {
    (w >> 8) as u8
}

/// Low byte of a 16-bit word.
pub open spec fn lo8(w: u16) -> u8 {
    (w & 0xFF) as u8
}

// ---------------------------------------------------------------------------
// Bit-level facts the proofs rely on.
// ---------------------------------------------------------------------------

/// How each status-register update touches each flag bit: setting a flag
/// with `| m` or clearing it with `& !m` decides that flag and leaves every
/// other flag bit alone.
pub proof fn lemma_sr_flag_bits(a: u8)
    by (bit_vector)
    ensures
        (a | 0x01) & 0x01 != 0,
        (a & 0xFE) & 0x01 == 0,
        (a | 0x02) & 0x02 != 0,
        (a & 0xFD) & 0x02 == 0,
        (a | 0x04) & 0x04 != 0,
        (a & 0xFB) & 0x04 == 0,
        (a & 0xF7) & 0x08 == 0,
        (a | 0x10) & 0x10 != 0,
        (a | 0x40) & 0x40 != 0,
        (a & 0xBF) & 0x40 == 0,
        (a | 0x80) & 0x80 != 0,
        (a & 0x7F) & 0x80 == 0,
        (a | 0x02) & 0x01 == a & 0x01,
        (a & 0xFD) & 0x01 == a & 0x01,
        (a | 0x40) & 0x01 == a & 0x01,
        (a & 0xBF) & 0x01 == a & 0x01,
        (a | 0x80) & 0x01 == a & 0x01,
        (a & 0x7F) & 0x01 == a & 0x01,
        (a | 0x01) & 0x02 == a & 0x02,
        (a & 0xFE) & 0x02 == a & 0x02,
        (a | 0x40) & 0x02 == a & 0x02,
        (a & 0xBF) & 0x02 == a & 0x02,
        (a | 0x80) & 0x02 == a & 0x02,
        (a & 0x7F) & 0x02 == a & 0x02,
        (a | 0x01) & 0x40 == a & 0x40,
        (a & 0xFE) & 0x40 == a & 0x40,
        (a | 0x02) & 0x40 == a & 0x40,
        (a & 0xFD) & 0x40 == a & 0x40,
        (a | 0x80) & 0x40 == a & 0x40,
        (a & 0x7F) & 0x40 == a & 0x40,
        (a | 0x01) & 0x80 == a & 0x80,
        (a & 0xFE) & 0x80 == a & 0x80,
        (a | 0x02) & 0x80 == a & 0x80,
        (a & 0xFD) & 0x80 == a & 0x80,
        (a | 0x40) & 0x80 == a & 0x80,
        (a & 0xBF) & 0x80 == a & 0x80,
{
}

/// Shifting an 8-bit value left by one inside a 16-bit word doubles it.
pub proof fn lemma_u16_shl1(v: u8)
    by (bit_vector)
    ensures
        ((v as u16) << 1) == 2 * (v as u16),
{
}

} // verus!
