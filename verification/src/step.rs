//! The cycle-level transition function: what one step call does to the whole
//! processor state. Each addressing mode is a cycle-indexed state machine;
//! `cpu_step` composes the opcode fetch, the dispatch table and the mode
//! machines into a single total function on states. The executable engine is
//! verified to implement exactly this function.

use vstd::prelude::*;
use crate::state::{CpuV, dec8, inc8, hi8, lo8, pc_inc, wadd16};
use crate::instructions::{
    ReadInstr, WriteInstr, AccInstr, BranchInstr, read_instr_state, write_instr_state,
    acc_instr_state, branch_skips, branch_dest,
};
use crate::decode::{DecodedOp, decode};

verus! {

// ---------------------------------------------------------------------------
// Shared building blocks.
// ---------------------------------------------------------------------------

/// The fetch at the start of an instruction: latch the opcode found at the
/// program counter, advance the program counter past it, and leave the ready
/// state.
pub open spec fn spec_fetch(s: CpuV) -> CpuV {
    CpuV { pc: pc_inc(s.pc), ready: false, opcode: s.mem.read8(s.pc as int), ..s }
}

/// The unconditional return to the ready state after an instruction's final
/// cycle: cycle counter zeroed, ready flag set.
pub open spec fn spec_reset(s: CpuV) -> CpuV {
    CpuV { ready: true, cycle: 0, ..s }
}

/// One stack push: the byte goes to the stack page at the current stack
/// pointer, which then decrements, wrapping modulo 256.
pub open spec fn spec_push(s: CpuV, v: u8) -> CpuV {
    CpuV { mem: s.mem.write8(v, 0x100 + s.sp), sp: dec8(s.sp), ..s }
}

/// Fetch one operand byte at the program counter into the scratch register
/// and advance the program counter.
pub open spec fn fetch_operand(s: CpuV) -> CpuV {
    CpuV { arg: s.mem.read8(s.pc as int) as u16, pc: pc_inc(s.pc), ..s }
}

/// Fetch the high operand byte at the program counter, shift it into bits
/// 8..15 of the scratch register (little-endian source order), and advance
/// the program counter.
pub open spec fn fetch_high(s: CpuV) -> CpuV {
    CpuV {
        arg: s.arg | ((s.mem.read8(s.pc as int) as u16) << 8),
        pc: pc_inc(s.pc),
        ..s
    }
}

/// Add an index register to the scratch register, wrapping modulo 2^16.
pub open spec fn add_index(s: CpuV, is_x: bool) -> CpuV {
    CpuV { arg: wadd16(s.arg, if is_x { s.x as u16 } else { s.y as u16 }), ..s }
}

/// The indirect modes' pointer dereference: two consecutive bus reads at the
/// scratch address assemble the effective address, low byte first.
pub open spec fn deref_pointer(s: CpuV) -> CpuV {
    CpuV {
        arg: (s.mem.read8(s.arg as int) as u16) | ((s.mem.read8(
            wadd16(s.arg, 1) as int,
        ) as u16) << 8),
        ..s
    }
}

/// A read mode's final cycle: the byte at the resolved address goes to the
/// instruction handler, and the machine returns to the ready state.
pub open spec fn read_final(s: CpuV, i: ReadInstr) -> CpuV {
    spec_reset(read_instr_state(i, s, s.mem.read8(s.arg as int)))
}

/// A write-back mode's final cycle: the handler computes the byte to write
/// from the current memory content, the bus write happens, and the machine
/// returns to the ready state.
pub open spec fn write_final(s: CpuV, w: WriteInstr) -> CpuV {
    let t = write_instr_state(w, s, s.mem.read8(s.arg as int));
    spec_reset(CpuV { mem: t.0.mem.write8(t.1, s.arg as int), ..t.0 })
}

/// Advance only the cycle counter.
pub open spec fn to_cycle(s: CpuV, c: nat) -> CpuV {
    CpuV { cycle: c, ..s }
}

// ---------------------------------------------------------------------------
// The addressing-mode state machines, one spec function per mode, indexed by
// the cycle counter. Cycle 0 is the fetch cycle: the opcode was latched by
// the dispatch in the same step call, and the mode only advances the counter.
// ---------------------------------------------------------------------------

pub open spec fn mode_immediate(s: CpuV, i: ReadInstr) -> CpuV {
    if s.cycle == 0 {
        to_cycle(s, 1)
    } else if s.cycle == 1 {
        spec_reset(read_instr_state(i, (CpuV { pc: pc_inc(s.pc), ..s }), s.mem.read8(s.pc as int)))
    } else {
        s
    }
}

pub open spec fn mode_zero_page_read(s: CpuV, i: ReadInstr) -> CpuV {
    if s.cycle == 0 {
        to_cycle(s, 1)
    } else if s.cycle == 1 {
        to_cycle(fetch_operand(s), 2)
    } else if s.cycle == 2 {
        read_final(s, i)
    } else {
        s
    }
}

pub open spec fn mode_zero_page_read_write(s: CpuV, w: WriteInstr) -> CpuV {
    if s.cycle == 0 {
        to_cycle(s, 1)
    } else if s.cycle == 1 {
        to_cycle(fetch_operand(s), 2)
    } else if s.cycle == 2 {
        to_cycle(s, 3)
    } else if s.cycle == 3 {
        to_cycle(s, 4)
    } else if s.cycle == 4 {
        write_final(s, w)
    } else {
        s
    }
}

pub open spec fn mode_zero_page_write(s: CpuV, w: WriteInstr) -> CpuV {
    if s.cycle == 0 {
        to_cycle(s, 1)
    } else if s.cycle == 1 {
        to_cycle(fetch_operand(s), 2)
    } else if s.cycle == 2 {
        write_final(s, w)
    } else {
        s
    }
}

pub open spec fn mode_zero_page_indexed_read(s: CpuV, is_x: bool, i: ReadInstr) -> CpuV {
    if s.cycle == 0 {
        to_cycle(s, 1)
    } else if s.cycle == 1 {
        to_cycle(fetch_operand(s), 2)
    } else if s.cycle == 2 {
        to_cycle(add_index(s, is_x), 3)
    } else if s.cycle == 3 {
        read_final(s, i)
    } else {
        s
    }
}

pub open spec fn mode_zero_page_indexed_read_write(s: CpuV, is_x: bool, w: WriteInstr) -> CpuV {
    if s.cycle == 0 {
        to_cycle(s, 1)
    } else if s.cycle == 1 {
        to_cycle(fetch_operand(s), 2)
    } else if s.cycle == 2 {
        to_cycle(add_index(s, is_x), 3)
    } else if s.cycle == 3 {
        to_cycle(s, 4)
    } else if s.cycle == 4 {
        to_cycle(s, 5)
    } else if s.cycle == 5 {
        write_final(s, w)
    } else {
        s
    }
}

pub open spec fn mode_zero_page_indexed_write(s: CpuV, is_x: bool, w: WriteInstr) -> CpuV {
    if s.cycle == 0 {
        to_cycle(s, 1)
    } else if s.cycle == 1 {
        to_cycle(fetch_operand(s), 2)
    } else if s.cycle == 2 {
        to_cycle(add_index(s, is_x), 3)
    } else if s.cycle == 3 {
        write_final(s, w)
    } else {
        s
    }
}

pub open spec fn mode_absolute_read(s: CpuV, i: ReadInstr) -> CpuV {
    if s.cycle == 0 {
        to_cycle(s, 1)
    } else if s.cycle == 1 {
        to_cycle(fetch_operand(s), 2)
    } else if s.cycle == 2 {
        to_cycle(fetch_high(s), 3)
    } else if s.cycle == 3 {
        read_final(s, i)
    } else {
        s
    }
}

pub open spec fn mode_absolute_read_write(s: CpuV, w: WriteInstr) -> CpuV {
    if s.cycle == 0 {
        to_cycle(s, 1)
    } else if s.cycle == 1 {
        to_cycle(fetch_operand(s), 2)
    } else if s.cycle == 2 {
        to_cycle(fetch_high(s), 3)
    } else if s.cycle == 3 {
        to_cycle(s, 4)
    } else if s.cycle == 4 {
        to_cycle(s, 5)
    } else if s.cycle == 5 {
        write_final(s, w)
    } else {
        s
    }
}

pub open spec fn mode_absolute_write(s: CpuV, w: WriteInstr) -> CpuV {
    if s.cycle == 0 {
        to_cycle(s, 1)
    } else if s.cycle == 1 {
        to_cycle(fetch_operand(s), 2)
    } else if s.cycle == 2 {
        to_cycle(fetch_high(s), 3)
    } else if s.cycle == 3 {
        write_final(s, w)
    } else {
        s
    }
}

pub open spec fn mode_absolute_indexed_read(s: CpuV, is_x: bool, i: ReadInstr) -> CpuV {
    if s.cycle == 0 {
        to_cycle(s, 1)
    } else if s.cycle == 1 {
        to_cycle(fetch_operand(s), 2)
    } else if s.cycle == 2 {
        to_cycle(fetch_high(s), 3)
    } else if s.cycle == 3 {
        to_cycle(add_index(s, is_x), 4)
    } else if s.cycle == 4 {
        read_final(s, i)
    } else {
        s
    }
}

pub open spec fn mode_absolute_indexed_read_write(s: CpuV, is_x: bool, w: WriteInstr) -> CpuV {
    if s.cycle == 0 {
        to_cycle(s, 1)
    } else if s.cycle == 1 {
        to_cycle(fetch_operand(s), 2)
    } else if s.cycle == 2 {
        to_cycle(fetch_high(s), 3)
    } else if s.cycle == 3 {
        to_cycle(add_index(s, is_x), 4)
    } else if s.cycle == 4 {
        to_cycle(s, 5)
    } else if s.cycle == 5 {
        to_cycle(s, 6)
    } else if s.cycle == 6 {
        write_final(s, w)
    } else {
        s
    }
}

pub open spec fn mode_absolute_indexed_write(s: CpuV, is_x: bool, w: WriteInstr) -> CpuV {
    if s.cycle == 0 {
        to_cycle(s, 1)
    } else if s.cycle == 1 {
        to_cycle(fetch_operand(s), 2)
    } else if s.cycle == 2 {
        to_cycle(fetch_high(s), 3)
    } else if s.cycle == 3 {
        to_cycle(add_index(s, is_x), 4)
    } else if s.cycle == 4 {
        write_final(s, w)
    } else {
        s
    }
}

pub open spec fn mode_indirect_x_read(s: CpuV, i: ReadInstr) -> CpuV {
    if s.cycle == 0 {
        to_cycle(s, 1)
    } else if s.cycle == 1 {
        to_cycle(fetch_operand(s), 2)
    } else if s.cycle == 2 {
        to_cycle(add_index(s, true), 3)
    } else if s.cycle == 3 {
        to_cycle(s, 4)
    } else if s.cycle == 4 {
        to_cycle(deref_pointer(s), 5)
    } else if s.cycle == 5 {
        read_final(s, i)
    } else {
        s
    }
}

pub open spec fn mode_indirect_x_write(s: CpuV, w: WriteInstr) -> CpuV {
    if s.cycle == 0 {
        to_cycle(s, 1)
    } else if s.cycle == 1 {
        to_cycle(fetch_operand(s), 2)
    } else if s.cycle == 2 {
        to_cycle(add_index(s, true), 3)
    } else if s.cycle == 3 {
        to_cycle(s, 4)
    } else if s.cycle == 4 {
        to_cycle(deref_pointer(s), 5)
    } else if s.cycle == 5 {
        write_final(s, w)
    } else {
        s
    }
}

pub open spec fn mode_indirect_y_read(s: CpuV, i: ReadInstr) -> CpuV {
    if s.cycle == 0 {
        to_cycle(s, 1)
    } else if s.cycle == 1 {
        to_cycle(fetch_operand(s), 2)
    } else if s.cycle == 2 {
        to_cycle(s, 3)
    } else if s.cycle == 3 {
        to_cycle(deref_pointer(s), 4)
    } else if s.cycle == 4 {
        to_cycle(add_index(s, false), 5)
    } else if s.cycle == 5 {
        read_final(s, i)
    } else {
        s
    }
}

pub open spec fn mode_indirect_y_write(s: CpuV, w: WriteInstr) -> CpuV {
    if s.cycle == 0 {
        to_cycle(s, 1)
    } else if s.cycle == 1 {
        to_cycle(fetch_operand(s), 2)
    } else if s.cycle == 2 {
        to_cycle(s, 3)
    } else if s.cycle == 3 {
        to_cycle(deref_pointer(s), 4)
    } else if s.cycle == 4 {
        to_cycle(add_index(s, false), 5)
    } else if s.cycle == 5 {
        write_final(s, w)
    } else {
        s
    }
}

pub open spec fn mode_implied_or_accumulator(s: CpuV, a: AccInstr) -> CpuV {
    if s.cycle == 0 {
        to_cycle(s, 1)
    } else if s.cycle == 1 {
        spec_reset(acc_instr_state(a, s))
    } else {
        s
    }
}

/// Relative (branch) addressing: after the displacement fetch the condition
/// decides; only the taken path spends the cycle that mutates the program
/// counter, so a branch costs 2 cycles when skipped and 3 when taken.
pub open spec fn mode_relative(s: CpuV, b: BranchInstr) -> CpuV {
    if s.cycle == 0 {
        to_cycle(s, 1)
    } else if s.cycle == 1 {
        if branch_skips(b, s.sr) {
            spec_reset(fetch_operand(s))
        } else {
            to_cycle(fetch_operand(s), 2)
        }
    } else if s.cycle == 2 {
        spec_reset(CpuV { pc: branch_dest(s.pc, s.arg as u8), ..s })
    } else if s.cycle == 3 {
        spec_reset(s)
    } else {
        s
    }
}

// ---------------------------------------------------------------------------
// The stack/transfer/control specials, one spec function each.
// ---------------------------------------------------------------------------

/// BRK: skip the padding byte, push the return address high-then-low, push
/// the status byte with the break flag set, then load the program counter
/// from the interrupt vector pair at 0xFFFE/0xFFFF and set the break flag.
pub open spec fn op_brk(s: CpuV) -> CpuV {
    if s.cycle == 0 {
        to_cycle(s, 1)
    } else if s.cycle == 1 {
        to_cycle((CpuV { pc: pc_inc(s.pc), ..s }), 2)
    } else if s.cycle == 2 {
        to_cycle(spec_push(s, hi8(s.pc)), 3)
    } else if s.cycle == 3 {
        to_cycle(spec_push(s, lo8(s.pc)), 4)
    } else if s.cycle == 4 {
        to_cycle(spec_push(s, s.sr | 0x10), 5)
    } else if s.cycle == 5 {
        to_cycle((CpuV { arg: (s.mem.read8(0xFFFE) as u16) << 8, ..s }), 6)
    } else if s.cycle == 6 {
        spec_reset(CpuV { pc: s.arg | (s.mem.read8(0xFFFF) as u16), sr: s.sr | 0x10, ..s })
    } else {
        s
    }
}

/// JSR: fetch the target low byte, push the current program counter
/// high-then-low, then fetch the target high byte and jump.
pub open spec fn op_jsr(s: CpuV) -> CpuV {
    if s.cycle == 0 {
        to_cycle(s, 1)
    } else if s.cycle == 1 {
        to_cycle(fetch_operand(s), 2)
    } else if s.cycle == 2 {
        to_cycle(s, 3)
    } else if s.cycle == 3 {
        to_cycle(spec_push(s, hi8(s.pc)), 4)
    } else if s.cycle == 4 {
        to_cycle(spec_push(s, lo8(s.pc)), 5)
    } else if s.cycle == 5 {
        spec_reset(CpuV { pc: ((s.mem.read8(s.pc as int) as u16) << 8) | s.arg, ..s })
    } else {
        s
    }
}

/// PHP: push the status register.
pub open spec fn op_php(s: CpuV) -> CpuV {
    if s.cycle == 0 {
        to_cycle(s, 1)
    } else if s.cycle == 1 {
        to_cycle(s, 2)
    } else if s.cycle == 2 {
        spec_reset(spec_push(s, s.sr))
    } else {
        s
    }
}

/// PHA: push the accumulator.
pub open spec fn op_pha(s: CpuV) -> CpuV {
    if s.cycle == 0 {
        to_cycle(s, 1)
    } else if s.cycle == 1 {
        to_cycle(s, 2)
    } else if s.cycle == 2 {
        spec_reset(spec_push(s, s.ac))
    } else {
        s
    }
}

/// PLP: increment the stack pointer, then pull the status register.
pub open spec fn op_plp(s: CpuV) -> CpuV {
    if s.cycle == 0 {
        to_cycle(s, 1)
    } else if s.cycle == 1 {
        to_cycle(s, 2)
    } else if s.cycle == 2 {
        to_cycle((CpuV { sp: inc8(s.sp), ..s }), 3)
    } else if s.cycle == 3 {
        spec_reset(CpuV { sr: s.mem.read8(0x100 + s.sp), ..s })
    } else {
        s
    }
}

/// PLA: increment the stack pointer, then pull the accumulator.
pub open spec fn op_pla(s: CpuV) -> CpuV {
    if s.cycle == 0 {
        to_cycle(s, 1)
    } else if s.cycle == 1 {
        to_cycle(s, 2)
    } else if s.cycle == 2 {
        to_cycle((CpuV { sp: inc8(s.sp), ..s }), 3)
    } else if s.cycle == 3 {
        spec_reset(CpuV { ac: s.mem.read8(0x100 + s.sp), ..s })
    } else {
        s
    }
}

/// TXA: the accumulator takes X; zero and negative follow the result.
pub open spec fn op_txa(s: CpuV) -> CpuV {
    if s.cycle == 0 {
        to_cycle(s, 1)
    } else if s.cycle == 1 {
        spec_reset(
            CpuV { ac: s.x, sr: crate::instructions::flags_zn(s.sr, s.x), ..s },
        )
    } else {
        s
    }
}

/// TAX: X takes the accumulator; zero and negative follow the result.
pub open spec fn op_tax(s: CpuV) -> CpuV {
    if s.cycle == 0 {
        to_cycle(s, 1)
    } else if s.cycle == 1 {
        spec_reset(
            CpuV { x: s.ac, sr: crate::instructions::flags_zn(s.sr, s.ac), ..s },
        )
    } else {
        s
    }
}

/// TXS: the stack pointer takes X; no flags change.
pub open spec fn op_txs(s: CpuV) -> CpuV {
    if s.cycle == 0 {
        to_cycle(s, 1)
    } else if s.cycle == 1 {
        spec_reset(CpuV { sp: s.x, ..s })
    } else {
        s
    }
}

/// INX: X increments modulo 256; zero and negative follow the result.
pub open spec fn op_inx(s: CpuV) -> CpuV {
    if s.cycle == 0 {
        to_cycle(s, 1)
    } else if s.cycle == 1 {
        spec_reset(
            CpuV { x: inc8(s.x), sr: crate::instructions::flags_zn(s.sr, inc8(s.x)), ..s },
        )
    } else {
        s
    }
}

/// SEI: set the interrupt-disable flag.
pub open spec fn op_sei(s: CpuV) -> CpuV {
    if s.cycle == 0 {
        to_cycle(s, 1)
    } else if s.cycle == 1 {
        spec_reset(CpuV { sr: s.sr | 0x04, ..s })
    } else {
        s
    }
}

/// NOP: two cycles, no effect.
pub open spec fn op_nop(s: CpuV) -> CpuV {
    if s.cycle == 0 {
        to_cycle(s, 1)
    } else if s.cycle == 1 {
        spec_reset(s)
    } else {
        s
    }
}

// ---------------------------------------------------------------------------
// The full step.
// ---------------------------------------------------------------------------

/// Dispatch one already-fetched opcode to its per-cycle machine.
pub open spec fn op_step(d: DecodedOp, s: CpuV) -> CpuV {
    match d {
        DecodedOp::Brk => op_brk(s),
        DecodedOp::Jsr => op_jsr(s),
        DecodedOp::Php => op_php(s),
        DecodedOp::Plp => op_plp(s),
        DecodedOp::Pha => op_pha(s),
        DecodedOp::Pla => op_pla(s),
        DecodedOp::Txa => op_txa(s),
        DecodedOp::Tax => op_tax(s),
        DecodedOp::Txs => op_txs(s),
        DecodedOp::Inx => op_inx(s),
        DecodedOp::Sei => op_sei(s),
        DecodedOp::Nop => op_nop(s),
        DecodedOp::Immediate(i) => mode_immediate(s, i),
        DecodedOp::ZeroPageRead(i) => mode_zero_page_read(s, i),
        DecodedOp::ZeroPageReadWrite(w) => mode_zero_page_read_write(s, w),
        DecodedOp::ZeroPageWrite(w) => mode_zero_page_write(s, w),
        DecodedOp::ZeroPageIndexedRead(is_x, i) => mode_zero_page_indexed_read(s, is_x, i),
        DecodedOp::ZeroPageIndexedReadWrite(is_x, w) => mode_zero_page_indexed_read_write(
            s,
            is_x,
            w,
        ),
        DecodedOp::ZeroPageIndexedWrite(is_x, w) => mode_zero_page_indexed_write(s, is_x, w),
        DecodedOp::AbsoluteRead(i) => mode_absolute_read(s, i),
        DecodedOp::AbsoluteReadWrite(w) => mode_absolute_read_write(s, w),
        DecodedOp::AbsoluteWrite(w) => mode_absolute_write(s, w),
        DecodedOp::AbsoluteIndexedRead(is_x, i) => mode_absolute_indexed_read(s, is_x, i),
        DecodedOp::AbsoluteIndexedReadWrite(is_x, w) => mode_absolute_indexed_read_write(
            s,
            is_x,
            w,
        ),
        DecodedOp::AbsoluteIndexedWrite(is_x, w) => mode_absolute_indexed_write(s, is_x, w),
        DecodedOp::IndirectXRead(i) => mode_indirect_x_read(s, i),
        DecodedOp::IndirectXWrite(w) => mode_indirect_x_write(s, w),
        DecodedOp::IndirectYRead(i) => mode_indirect_y_read(s, i),
        DecodedOp::IndirectYWrite(w) => mode_indirect_y_write(s, w),
        DecodedOp::Accumulator(a) => mode_implied_or_accumulator(s, a),
        DecodedOp::Relative(b) => mode_relative(s, b),
        DecodedOp::Unimplemented => s,
    }
}

/// One step call: when the machine is ready a fresh opcode is fetched and its
/// machine runs its fetch cycle; otherwise the latched opcode's machine runs
/// its current cycle.
pub open spec fn cpu_step(s: CpuV) -> CpuV {
    if s.ready {
        let t = spec_fetch(s);
        op_step(decode(t.opcode), t)
    } else {
        op_step(decode(s.opcode), s)
    }
}

} // verus!
