//! The executable processor: register file, instruction-cycle state and the
//! single-cycle step engine, verified against the transition function in
//! `step`. The driver constructs a processor from a program image and calls
//! `execute_next_instruction` once per cycle; register and flag state is
//! observed through read accessors.

use vstd::prelude::*;
use crate::memory::Memory;
use crate::state::{
    CpuV, pc_inc, wadd16, spec_set_carry, spec_set_negative, spec_set_overflow, spec_set_zero,
    lemma_u16_shl1,
};
use crate::instructions::{
    ReadInstr, WriteInstr, AccInstr, BranchInstr, read_instr_state, write_instr_state,
    acc_instr_state, branch_skips,
};
use crate::decode::decode;
use crate::step::{
    cpu_step, spec_push, mode_immediate, mode_zero_page_read, mode_zero_page_read_write,
    mode_zero_page_write, mode_zero_page_indexed_read, mode_zero_page_indexed_read_write,
    mode_zero_page_indexed_write, mode_absolute_read, mode_absolute_read_write,
    mode_absolute_write, mode_absolute_indexed_read, mode_absolute_indexed_read_write,
    mode_absolute_indexed_write, mode_indirect_x_read, mode_indirect_x_write,
    mode_indirect_y_read, mode_indirect_y_write, mode_implied_or_accumulator, mode_relative,
};

verus! {

/// The processor: registers, the memory bus it owns, and the
/// instruction-cycle state.
#[allow(non_snake_case)]
pub struct Processor {
    PC: u16,
    AC: u8,
    X: u8,
    Y: u8,
    SR: u8,
    SP: u8,
    ram: Memory,
    new_instruction: bool,
    current_instruction: u8,
    cycle: usize,
    arg: u16,
}

impl View for Processor {
    type V = CpuV;

    closed spec fn view(&self) -> CpuV {
        CpuV {
            pc: self.PC,
            ac: self.AC,
            x: self.X,
            y: self.Y,
            sr: self.SR,
            sp: self.SP,
            mem: self.ram@,
            ready: self.new_instruction,
            opcode: self.current_instruction,
            cycle: self.cycle as nat,
            arg: self.arg,
        }
    }
}

/// The program counter after advancing by one, wrapping modulo 2^16.
fn pc_next(pc: u16) -> (r: u16)
    ensures
        r == pc_inc(pc),
{
    if pc == 0xFFFF {
        0
    } else {
        pc + 1
    }
}

/// 16-bit wrapping addition.
fn wrapping_add16(a: u16, b: u16) -> (r: u16)
    ensures
        r == wadd16(a, b),
{
    (((a as u32) + (b as u32)) % 0x10000) as u16
}

impl Processor {
    /// Power-on state: registers cleared, status at 0x30, stack pointer at
    /// the top of the stack page, program counter at the load origin 0x8000,
    /// and the program image installed in the ROM region.
    pub fn new(data: &Vec<u8>) -> (p: Processor)
        requires
            data@.len() <= 0x8000,
        ensures
            p@.wf(),
            p@.pc == 0x8000,
            p@.ac == 0,
            p@.x == 0,
            p@.y == 0,
            p@.sr == 0x30,
            p@.sp == 0xFF,
            p@.ready,
            p@.opcode == 0,
            p@.cycle == 0,
            p@.arg == 0,
            forall|at: int|
                0 <= at < 0x10000 ==> p@.mem.read8(at) == (if 0x8000 <= at < 0x8000
                    + data@.len() {
                    data@[at - 0x8000]
                } else {
                    0u8
                }),
    {
        let mut memory = Memory::new();
        let ghost m0 = memory@;
        memory.load(data, 0x8000);
        proof {
            assert forall|at: int| 0 <= at < 0x10000 implies memory@.read8(at) == (if 0x8000 <= at
                < 0x8000 + data@.len() {
                data@[at - 0x8000]
            } else {
                0u8
            }) by {
                assert(m0.read8(at) == 0);
                if at >= 0x8000 {
                    assert(memory@.prg[at - 0x8000] == (if 0 <= at - 0x8000 < data@.len() {
                        data@[at - 0x8000]
                    } else {
                        m0.prg[at - 0x8000]
                    }));
                }
            }
        }
        let p = Processor {
            PC: 0x8000,
            AC: 0x00,
            X: 0x00,
            Y: 0x00,
            SR: 0x30,
            SP: 0xFF,
            ram: memory,
            new_instruction: true,
            current_instruction: 0x00,
            cycle: 0x00,
            arg: 0x00,
        };
        p
    }

    // -----------------------------------------------------------------------
    // Read accessors: the driver observes register and flag state through
    // these.
    // -----------------------------------------------------------------------

    pub fn get_pc(&self) -> (r: u16)
        ensures
            r == self@.pc,
    {
        self.PC
    }

    pub fn get_ac(&self) -> (r: u8)
        ensures
            r == self@.ac,
    {
        self.AC
    }

    pub fn get_x(&self) -> (r: u8)
        ensures
            r == self@.x,
    {
        self.X
    }

    pub fn get_y(&self) -> (r: u8)
        ensures
            r == self@.y,
    {
        self.Y
    }

    pub fn get_sr(&self) -> (r: u8)
        ensures
            r == self@.sr,
    {
        self.SR
    }

    pub fn get_sp(&self) -> (r: u8)
        ensures
            r == self@.sp,
    {
        self.SP
    }

    /// True when the next step call fetches a fresh opcode.
    pub fn is_ready(&self) -> (r: bool)
        ensures
            r == self@.ready,
    {
        self.new_instruction
    }

    /// The byte the bus holds at an address; lets a driver inspect memory
    /// without disturbing it.
    pub fn read_memory(&self, at: usize) -> (r: u8)
        requires
            self@.wf(),
            at < 0x10000,
        ensures
            r == self@.mem.read8(at as int),
    {
        self.ram.get_instruction(at)
    }

    // -----------------------------------------------------------------------
    // Instruction-cycle bookkeeping.
    // -----------------------------------------------------------------------

    /// Latch a freshly fetched opcode and leave the ready state.
    pub fn new_instruction(&mut self, instruction: u8)
        ensures
            final(self)@ == (CpuV {
                ready: false,
                opcode: instruction,
                ..old(self)@
            }),
    {
        self.new_instruction = false;
        self.current_instruction = instruction;
    }

    /// Return to the ready state: the instruction's final cycle completed.
    pub fn reset_instruction(&mut self)
        ensures
            final(self)@ == (CpuV { ready: true, cycle: 0, ..old(self)@ }),
    {
        self.new_instruction = true;
        self.cycle = 0;
    }

    // -----------------------------------------------------------------------
    // The four flag-setting primitives: the single source of truth for every
    // arithmetic/logic flag update.
    // -----------------------------------------------------------------------

    /// Carry: set iff the raw, untruncated result exceeds 0xFF.
    pub fn set_flag_0th_bit_carry(&mut self, result: u16)
        ensures
            final(self)@ == (CpuV { sr: spec_set_carry(old(self)@.sr, result), ..old(self)@ }),
    {
        if result > 0xFF {
            self.SR = self.SR | 0x01;
        } else {
            self.SR = self.SR & 0xFE;
        }
    }

    /// Zero: set iff the truncated 8-bit result equals 0.
    pub fn set_flag_1st_bit_zero(&mut self, result: u8)
        ensures
            final(self)@ == (CpuV { sr: spec_set_zero(old(self)@.sr, result), ..old(self)@ }),
    {
        if result == 0x0 {
            self.SR = self.SR | 0x02;
        } else {
            self.SR = self.SR & 0xFD;
        }
    }

    /// Overflow: set iff the operands share a sign and the result's sign
    /// differs from both.
    pub fn set_flag_6th_bit_overflow(&mut self, x: u16, y: u16, z: u16)
        ensures
            final(self)@ == (CpuV {
                sr: spec_set_overflow(old(self)@.sr, x, y, z),
                ..old(self)@
            }),
    {
        if (z ^ x) & (z ^ y) & 0x80 != 0 {
            self.SR = self.SR | 0x40;
        } else {
            self.SR = self.SR & 0xBF;
        }
    }

    /// Negative: set iff bit 7 of the truncated result is 1.
    pub fn set_flag_7th_bit_nagetive(&mut self, result: u8)
        ensures
            final(self)@ == (CpuV {
                sr: spec_set_negative(old(self)@.sr, result),
                ..old(self)@
            }),
    {
        if result >= 0x80 {
            self.SR = self.SR | 0x80;
        } else {
            self.SR = self.SR & 0x7F;
        }
    }

    // -----------------------------------------------------------------------
    // Instruction handlers: pure register transforms. The addressing-mode
    // engine feeds them the resolved operand byte and writes back what the
    // write-back handlers return.
    // -----------------------------------------------------------------------

    /// AND: bitwise-and the operand into the accumulator.
    pub fn instruction_and(&mut self, byte: u8)
        ensures
            final(self)@ == read_instr_state(ReadInstr::And, old(self)@, byte),
    {
        self.AC = self.AC & byte;
        self.set_flag_1st_bit_zero(self.AC);
        self.set_flag_7th_bit_nagetive(self.AC);
    }

    /// ORA: bitwise-or the operand into the accumulator.
    pub fn instruction_or(&mut self, byte: u8)
        ensures
            final(self)@ == read_instr_state(ReadInstr::Ora, old(self)@, byte),
    {
        self.AC = self.AC | byte;
        self.set_flag_1st_bit_zero(self.AC);
        self.set_flag_7th_bit_nagetive(self.AC);
    }

    /// EOR: bitwise-xor the operand into the accumulator.
    pub fn instruction_xor(&mut self, byte: u8)
        ensures
            final(self)@ == read_instr_state(ReadInstr::Eor, old(self)@, byte),
    {
        self.AC = self.AC ^ byte;
        self.set_flag_1st_bit_zero(self.AC);
        self.set_flag_7th_bit_nagetive(self.AC);
    }

    /// ADC: add the operand and the carry flag into the accumulator.
    pub fn instruction_adc(&mut self, byte: u8)
        ensures
            final(self)@ == read_instr_state(ReadInstr::Adc, old(self)@, byte),
    {
        let raw: u16 = (self.AC as u16) + (byte as u16) + ((self.SR & 0x01) as u16);
        let result: u8 = (raw % 0x100) as u8;
        self.set_flag_0th_bit_carry(raw);
        self.set_flag_1st_bit_zero(result);
        self.set_flag_6th_bit_overflow(self.AC as u16, byte as u16, raw);
        self.set_flag_7th_bit_nagetive(result);
        self.AC = result;
    }

    /// SBC: subtract the operand and the carry flag from the accumulator;
    /// the raw result is reduced modulo 2^16 so a borrow lands above 0xFF
    /// and sets the carry flag.
    pub fn instruction_sbc(&mut self, byte: u8)
        ensures
            final(self)@ == read_instr_state(ReadInstr::Sbc, old(self)@, byte),
    {
        let raw16: u16 = ((((self.AC as u32) + 0x10000) - (byte as u32) - ((self.SR
            & 0x01) as u32)) % 0x10000) as u16;
        let result: u8 = ((raw16 as u32) % 0x100) as u8;
        self.set_flag_0th_bit_carry(raw16);
        self.set_flag_1st_bit_zero(result);
        self.set_flag_6th_bit_overflow(self.AC as u16, byte as u16, raw16);
        self.set_flag_7th_bit_nagetive(result);
        self.AC = result;
    }

    /// LDX: load the operand into X.
    pub fn instruction_ldx(&mut self, byte: u8)
        ensures
            final(self)@ == read_instr_state(ReadInstr::Ldx, old(self)@, byte),
    {
        self.X = byte;
        self.set_flag_1st_bit_zero(byte);
        self.set_flag_7th_bit_nagetive(byte);
    }

    /// LDY: load the operand into Y.
    pub fn instruction_ldy(&mut self, byte: u8)
        ensures
            final(self)@ == read_instr_state(ReadInstr::Ldy, old(self)@, byte),
    {
        self.Y = byte;
        self.set_flag_1st_bit_zero(byte);
        self.set_flag_7th_bit_nagetive(byte);
    }

    /// LDA: load the operand into the accumulator.
    pub fn instruction_lda(&mut self, byte: u8)
        ensures
            final(self)@ == read_instr_state(ReadInstr::Lda, old(self)@, byte),
    {
        self.AC = byte;
        self.set_flag_1st_bit_zero(byte);
        self.set_flag_7th_bit_nagetive(byte);
    }

    /// STA: hand the accumulator to the bus for write-back.
    pub fn instruction_sta(&mut self, _byte: u8) -> (r: u8)
        ensures
            final(self)@ == old(self)@,
            r == old(self)@.ac,
    {
        self.AC
    }

    /// STX: hand X to the bus for write-back.
    pub fn instruction_stx(&mut self, _byte: u8) -> (r: u8)
        ensures
            final(self)@ == old(self)@,
            r == old(self)@.x,
    {
        self.X
    }

    /// STY: hand Y to the bus for write-back.
    pub fn instruction_sty(&mut self, _byte: u8) -> (r: u8)
        ensures
            final(self)@ == old(self)@,
            r == old(self)@.y,
    {
        self.Y
    }

    /// ASL on the accumulator: shift left; carry takes the bit shifted out.
    pub fn instruction_asl_accumulator(&mut self)
        ensures
            final(self)@ == acc_instr_state(AccInstr::AslAcc, old(self)@),
    {
        proof {
            lemma_u16_shl1(self.AC);
        }
        let raw: u16 = (self.AC as u16) << 1;
        let result: u8 = (raw % 0x100) as u8;
        self.set_flag_0th_bit_carry(raw);
        self.set_flag_1st_bit_zero(result);
        self.set_flag_7th_bit_nagetive(result);
        self.AC = result;
    }

    /// ASL on memory: shift the current content left and hand it back for
    /// write-back; carry takes the bit shifted out.
    pub fn instruction_asl_memory(&mut self, byte: u8) -> (r: u8)
        ensures
            final(self)@ == write_instr_state(WriteInstr::AslMem, old(self)@, byte).0,
            r == write_instr_state(WriteInstr::AslMem, old(self)@, byte).1,
    {
        proof {
            lemma_u16_shl1(byte);
        }
        let raw: u16 = (byte as u16) << 1;
        let result: u8 = (raw % 0x100) as u8;
        self.set_flag_0th_bit_carry(raw);
        self.set_flag_1st_bit_zero(result);
        self.set_flag_7th_bit_nagetive(result);
        result
    }

    /// ROL on the accumulator: rotate left through the carry flag.
    pub fn instruction_rol_accumulator(&mut self)
        ensures
            final(self)@ == acc_instr_state(AccInstr::RolAcc, old(self)@),
    {
        proof {
            lemma_u16_shl1(self.AC);
        }
        let carry: u16 = (self.SR & 0x01) as u16;
        let raw: u16 = ((self.AC as u16) << 1) + carry;
        let result: u8 = (raw % 0x100) as u8;
        self.set_flag_0th_bit_carry(raw);
        self.set_flag_1st_bit_zero(result);
        self.set_flag_7th_bit_nagetive(result);
        self.AC = result;
    }

    /// ROL on memory: rotate the current content left through the carry flag
    /// and hand it back for write-back.
    pub fn instruction_rol_memory(&mut self, byte: u8) -> (r: u8)
        ensures
            final(self)@ == write_instr_state(WriteInstr::RolMem, old(self)@, byte).0,
            r == write_instr_state(WriteInstr::RolMem, old(self)@, byte).1,
    {
        proof {
            lemma_u16_shl1(byte);
        }
        let carry: u16 = (self.SR & 0x01) as u16;
        let raw: u16 = ((byte as u16) << 1) + carry;
        let result: u8 = (raw % 0x100) as u8;
        self.set_flag_0th_bit_carry(raw);
        self.set_flag_1st_bit_zero(result);
        self.set_flag_7th_bit_nagetive(result);
        result
    }

    /// CMP: compare the operand against the accumulator.
    pub fn instruction_cmp(&mut self, byte: u8)
        ensures
            final(self)@ == read_instr_state(ReadInstr::Cmp, old(self)@, byte),
    {
        let diff: u8 = ((((self.AC as u16) + 0x100) - (byte as u16)) % 0x100) as u8;
        if self.AC >= byte {
            self.SR = self.SR | 0x01;
        } else {
            self.SR = self.SR & 0xFE;
        }
        self.set_flag_1st_bit_zero(diff);
        self.set_flag_7th_bit_nagetive(diff);
    }

    /// CPX: compare the operand against X.
    pub fn instruction_cpx(&mut self, byte: u8)
        ensures
            final(self)@ == read_instr_state(ReadInstr::Cpx, old(self)@, byte),
    {
        let diff: u8 = ((((self.X as u16) + 0x100) - (byte as u16)) % 0x100) as u8;
        if self.X >= byte {
            self.SR = self.SR | 0x01;
        } else {
            self.SR = self.SR & 0xFE;
        }
        self.set_flag_1st_bit_zero(diff);
        self.set_flag_7th_bit_nagetive(diff);
    }

    /// CPY: compare the operand against Y.
    pub fn instruction_cpy(&mut self, byte: u8)
        ensures
            final(self)@ == read_instr_state(ReadInstr::Cpy, old(self)@, byte),
    {
        let diff: u8 = ((((self.Y as u16) + 0x100) - (byte as u16)) % 0x100) as u8;
        if self.Y >= byte {
            self.SR = self.SR | 0x01;
        } else {
            self.SR = self.SR & 0xFE;
        }
        self.set_flag_1st_bit_zero(diff);
        self.set_flag_7th_bit_nagetive(diff);
    }

    /// BIT: negative from bit 7 of the operand, overflow from bit 6, zero
    /// from the operand masked with the accumulator.
    pub fn instruction_bit(&mut self, byte: u8)
        ensures
            final(self)@ == read_instr_state(ReadInstr::Bit, old(self)@, byte),
    {
        self.set_flag_7th_bit_nagetive(byte);
        if byte & 0x40 == 0x40 {
            self.SR = self.SR | 0x40;
        } else {
            self.SR = self.SR & 0xBF;
        }
        self.set_flag_1st_bit_zero(byte & self.AC);
    }

    /// DEX: decrement X modulo 256.
    pub fn instruction_dex(&mut self)
        ensures
            final(self)@ == acc_instr_state(AccInstr::Dex, old(self)@),
    {
        self.X = if self.X == 0 {
            0xFF
        } else {
            self.X - 1
        };
        self.set_flag_1st_bit_zero(self.X);
        self.set_flag_7th_bit_nagetive(self.X);
    }

    /// DEY: decrement Y modulo 256.
    pub fn instruction_dey(&mut self)
        ensures
            final(self)@ == acc_instr_state(AccInstr::Dey, old(self)@),
    {
        self.Y = if self.Y == 0 {
            0xFF
        } else {
            self.Y - 1
        };
        self.set_flag_1st_bit_zero(self.Y);
        self.set_flag_7th_bit_nagetive(self.Y);
    }

    /// CLC: clear the carry flag.
    pub fn instruction_clc(&mut self)
        ensures
            final(self)@ == acc_instr_state(AccInstr::Clc, old(self)@),
    {
        self.SR = self.SR & 0xFE;
    }

    /// CLD: clear the decimal flag.
    pub fn instruction_cld(&mut self)
        ensures
            final(self)@ == acc_instr_state(AccInstr::Cld, old(self)@),
    {
        self.SR = self.SR & 0xF7;
    }

    /// CLI: clear the interrupt-disable flag.
    pub fn instruction_cli(&mut self)
        ensures
            final(self)@ == acc_instr_state(AccInstr::Cli, old(self)@),
    {
        self.SR = self.SR & 0xFB;
    }

    /// CLV: clear the overflow flag.
    pub fn instruction_clv(&mut self)
        ensures
            final(self)@ == acc_instr_state(AccInstr::Clv, old(self)@),
    {
        self.SR = self.SR & 0xBF;
    }

    // -----------------------------------------------------------------------
    // Branch predicates. Each returns true when its branch is *skipped*, so
    // the relative mode ends after the displacement fetch.
    // -----------------------------------------------------------------------

    /// BPL branches when negative is clear.
    pub fn instruction_bpl(&self) -> (r: bool)
        ensures
            r == branch_skips(BranchInstr::Bpl, self@.sr),
    {
        self.SR & 0x80 > 0
    }

    /// BMI branches when negative is set.
    pub fn instruction_bmi(&self) -> (r: bool)
        ensures
            r == branch_skips(BranchInstr::Bmi, self@.sr),
    {
        self.SR & 0x80 == 0
    }

    /// BNE branches when zero is clear.
    pub fn instruction_bne(&self) -> (r: bool)
        ensures
            r == branch_skips(BranchInstr::Bne, self@.sr),
    {
        self.SR & 0x02 > 0
    }

    /// BCC branches when carry is clear.
    pub fn instruction_bcc(&self) -> (r: bool)
        ensures
            r == branch_skips(BranchInstr::Bcc, self@.sr),
    {
        self.SR & 0x01 > 0
    }

    /// BCS branches when carry is set.
    pub fn instruction_bcs(&self) -> (r: bool)
        ensures
            r == branch_skips(BranchInstr::Bcs, self@.sr),
    {
        self.SR & 0x01 == 0
    }

    /// BVC branches when overflow is clear.
    pub fn instruction_bvc(&self) -> (r: bool)
        ensures
            r == branch_skips(BranchInstr::Bvc, self@.sr),
    {
        self.SR & 0x40 > 0
    }

    /// BVS branches when overflow is set.
    pub fn instruction_bvs(&self) -> (r: bool)
        ensures
            r == branch_skips(BranchInstr::Bvs, self@.sr),
    {
        self.SR & 0x40 == 0
    }

    /// BEQ branches when zero is set.
    pub fn instruction_beq(&self) -> (r: bool)
        ensures
            r == branch_skips(BranchInstr::Beq, self@.sr),
    {
        self.SR & 0x02 == 0
    }

    // -----------------------------------------------------------------------
    // Handler dispatch: the addressing-mode engines are generic over the
    // instruction they drive and select the handler through these.
    // -----------------------------------------------------------------------

    /// Run a read instruction's handler on the resolved operand byte.
    fn apply_read_instruction(&mut self, i: ReadInstr, byte: u8)
        ensures
            final(self)@ == read_instr_state(i, old(self)@, byte),
    {
        match i {
            ReadInstr::Ora => self.instruction_or(byte),
            ReadInstr::And => self.instruction_and(byte),
            ReadInstr::Eor => self.instruction_xor(byte),
            ReadInstr::Adc => self.instruction_adc(byte),
            ReadInstr::Sbc => self.instruction_sbc(byte),
            ReadInstr::Lda => self.instruction_lda(byte),
            ReadInstr::Ldx => self.instruction_ldx(byte),
            ReadInstr::Ldy => self.instruction_ldy(byte),
            ReadInstr::Cmp => self.instruction_cmp(byte),
            ReadInstr::Cpx => self.instruction_cpx(byte),
            ReadInstr::Cpy => self.instruction_cpy(byte),
            ReadInstr::Bit => self.instruction_bit(byte),
        }
    }

    /// Run a write-back instruction's handler on the current memory content
    /// and return the byte to write.
    fn apply_write_instruction(&mut self, w: WriteInstr, byte: u8) -> (r: u8)
        ensures
            final(self)@ == write_instr_state(w, old(self)@, byte).0,
            r == write_instr_state(w, old(self)@, byte).1,
    {
        match w {
            WriteInstr::Sta => self.instruction_sta(byte),
            WriteInstr::Stx => self.instruction_stx(byte),
            WriteInstr::Sty => self.instruction_sty(byte),
            WriteInstr::AslMem => self.instruction_asl_memory(byte),
            WriteInstr::RolMem => self.instruction_rol_memory(byte),
        }
    }

    /// Run an implied/accumulator instruction's handler.
    fn apply_accumulator_instruction(&mut self, a: AccInstr)
        ensures
            final(self)@ == acc_instr_state(a, old(self)@),
    {
        match a {
            AccInstr::AslAcc => self.instruction_asl_accumulator(),
            AccInstr::RolAcc => self.instruction_rol_accumulator(),
            AccInstr::Clc => self.instruction_clc(),
            AccInstr::Cld => self.instruction_cld(),
            AccInstr::Cli => self.instruction_cli(),
            AccInstr::Clv => self.instruction_clv(),
            AccInstr::Dex => self.instruction_dex(),
            AccInstr::Dey => self.instruction_dey(),
        }
    }

    /// Evaluate a branch's condition code; true means the branch is skipped.
    fn branch_skip(&self, b: BranchInstr) -> (r: bool)
        ensures
            r == branch_skips(b, self@.sr),
    {
        match b {
            BranchInstr::Bpl => self.instruction_bpl(),
            BranchInstr::Bmi => self.instruction_bmi(),
            BranchInstr::Bne => self.instruction_bne(),
            BranchInstr::Beq => self.instruction_beq(),
            BranchInstr::Bcc => self.instruction_bcc(),
            BranchInstr::Bcs => self.instruction_bcs(),
            BranchInstr::Bvc => self.instruction_bvc(),
            BranchInstr::Bvs => self.instruction_bvs(),
        }
    }

    /// Push one byte: it goes to the stack page at the current stack
    /// pointer, which then decrements, wrapping modulo 256.
    fn push_stack(&mut self, v: u8)
        requires
            old(self)@.wf(),
        ensures
            final(self)@.wf(),
            final(self)@ == spec_push(old(self)@, v),
    {
        self.ram.set_address(v, 0x100 + self.SP as usize);
        self.SP = if self.SP == 0 {
            0xFF
        } else {
            self.SP - 1
        };
    }

    // -----------------------------------------------------------------------
    // The addressing-mode engines: one cycle-indexed state machine each.
    // Cycle 0 is the opcode-fetch cycle; the final cycle runs the handler
    // and returns to the ready state.
    // -----------------------------------------------------------------------

    /// Immediate: the operand is the byte after the opcode. 2 cycles.
    pub fn addressing_mode_immediate(&mut self, i: ReadInstr)
        requires
            old(self)@.wf(),
        ensures
            final(self)@.wf(),
            final(self)@ == mode_immediate(old(self)@, i),
    {
        match self.cycle {
            0 => {
                self.cycle = 1;
            },
            1 => {
                let byte = self.ram.get_instruction(self.PC as usize);
                self.PC = pc_next(self.PC);
                self.apply_read_instruction(i, byte);
                self.reset_instruction();
            },
            _ => {},
        }
    }

    /// Zero page, read: the operand address is the byte after the opcode.
    /// 3 cycles.
    pub fn addressing_mode_zero_page_read(&mut self, i: ReadInstr)
        requires
            old(self)@.wf(),
        ensures
            final(self)@.wf(),
            final(self)@ == mode_zero_page_read(old(self)@, i),
    {
        match self.cycle {
            0 => {
                self.cycle = 1;
            },
            1 => {
                self.arg = self.ram.get_instruction(self.PC as usize) as u16;
                self.PC = pc_next(self.PC);
                self.cycle = 2;
            },
            2 => {
                let byte = self.ram.get_instruction(self.arg as usize);
                self.apply_read_instruction(i, byte);
                self.reset_instruction();
            },
            _ => {},
        }
    }

    /// Zero page, read-modify-write: stall cycles mimic the hardware's
    /// dummy-read-then-write pattern; memory changes only on the final
    /// cycle. 5 cycles.
    pub fn addressing_mode_zero_page_read_write(&mut self, w: WriteInstr)
        requires
            old(self)@.wf(),
        ensures
            final(self)@.wf(),
            final(self)@ == mode_zero_page_read_write(old(self)@, w),
    {
        match self.cycle {
            0 => {
                self.cycle = 1;
            },
            1 => {
                self.arg = self.ram.get_instruction(self.PC as usize) as u16;
                self.PC = pc_next(self.PC);
                self.cycle = 2;
            },
            2 => {
                self.cycle = 3;
            },
            3 => {
                self.cycle = 4;
            },
            4 => {
                let byte = self.ram.get_instruction(self.arg as usize);
                let out = self.apply_write_instruction(w, byte);
                self.ram.set_address(out, self.arg as usize);
                self.reset_instruction();
            },
            _ => {},
        }
    }

    /// Zero page, write: the handler's byte goes to the operand address on
    /// the final cycle. 3 cycles.
    pub fn addressing_mode_zero_page_write(&mut self, w: WriteInstr)
        requires
            old(self)@.wf(),
        ensures
            final(self)@.wf(),
            final(self)@ == mode_zero_page_write(old(self)@, w),
    {
        match self.cycle {
            0 => {
                self.cycle = 1;
            },
            1 => {
                self.arg = self.ram.get_instruction(self.PC as usize) as u16;
                self.PC = pc_next(self.PC);
                self.cycle = 2;
            },
            2 => {
                let byte = self.ram.get_instruction(self.arg as usize);
                let out = self.apply_write_instruction(w, byte);
                self.ram.set_address(out, self.arg as usize);
                self.reset_instruction();
            },
            _ => {},
        }
    }

    /// Zero page indexed, read: X or Y is added to the operand address.
    /// 4 cycles.
    pub fn addressing_mode_zero_page_with_index_read(&mut self, is_x: bool, i: ReadInstr)
        requires
            old(self)@.wf(),
        ensures
            final(self)@.wf(),
            final(self)@ == mode_zero_page_indexed_read(old(self)@, is_x, i),
    {
        match self.cycle {
            0 => {
                self.cycle = 1;
            },
            1 => {
                self.arg = self.ram.get_instruction(self.PC as usize) as u16;
                self.PC = pc_next(self.PC);
                self.cycle = 2;
            },
            2 => {
                self.arg = wrapping_add16(
                    self.arg,
                    if is_x {
                        self.X as u16
                    } else {
                        self.Y as u16
                    },
                );
                self.cycle = 3;
            },
            3 => {
                let byte = self.ram.get_instruction(self.arg as usize);
                self.apply_read_instruction(i, byte);
                self.reset_instruction();
            },
            _ => {},
        }
    }

    /// Zero page indexed, read-modify-write. 6 cycles.
    pub fn addressing_mode_zero_page_with_index_read_write(&mut self, is_x: bool, w: WriteInstr)
        requires
            old(self)@.wf(),
        ensures
            final(self)@.wf(),
            final(self)@ == mode_zero_page_indexed_read_write(old(self)@, is_x, w),
    {
        match self.cycle {
            0 => {
                self.cycle = 1;
            },
            1 => {
                self.arg = self.ram.get_instruction(self.PC as usize) as u16;
                self.PC = pc_next(self.PC);
                self.cycle = 2;
            },
            2 => {
                self.arg = wrapping_add16(
                    self.arg,
                    if is_x {
                        self.X as u16
                    } else {
                        self.Y as u16
                    },
                );
                self.cycle = 3;
            },
            3 => {
                self.cycle = 4;
            },
            4 => {
                self.cycle = 5;
            },
            5 => {
                let byte = self.ram.get_instruction(self.arg as usize);
                let out = self.apply_write_instruction(w, byte);
                self.ram.set_address(out, self.arg as usize);
                self.reset_instruction();
            },
            _ => {},
        }
    }

    /// Zero page indexed, write. 4 cycles.
    pub fn addressing_mode_zero_page_with_index_write(&mut self, is_x: bool, w: WriteInstr)
        requires
            old(self)@.wf(),
        ensures
            final(self)@.wf(),
            final(self)@ == mode_zero_page_indexed_write(old(self)@, is_x, w),
    {
        match self.cycle {
            0 => {
                self.cycle = 1;
            },
            1 => {
                self.arg = self.ram.get_instruction(self.PC as usize) as u16;
                self.PC = pc_next(self.PC);
                self.cycle = 2;
            },
            2 => {
                self.arg = wrapping_add16(
                    self.arg,
                    if is_x {
                        self.X as u16
                    } else {
                        self.Y as u16
                    },
                );
                self.cycle = 3;
            },
            3 => {
                let byte = self.ram.get_instruction(self.arg as usize);
                let out = self.apply_write_instruction(w, byte);
                self.ram.set_address(out, self.arg as usize);
                self.reset_instruction();
            },
            _ => {},
        }
    }

    /// Absolute, read: a two-byte address follows the opcode, low byte
    /// first. 4 cycles.
    pub fn addressing_mode_absolute_read(&mut self, i: ReadInstr)
        requires
            old(self)@.wf(),
        ensures
            final(self)@.wf(),
            final(self)@ == mode_absolute_read(old(self)@, i),
    {
        match self.cycle {
            0 => {
                self.cycle = 1;
            },
            1 => {
                self.arg = self.ram.get_instruction(self.PC as usize) as u16;
                self.PC = pc_next(self.PC);
                self.cycle = 2;
            },
            2 => {
                self.arg = self.arg | ((self.ram.get_instruction(self.PC as usize) as u16) << 8);
                self.PC = pc_next(self.PC);
                self.cycle = 3;
            },
            3 => {
                let operand = self.ram.get_instruction(self.arg as usize);
                self.apply_read_instruction(i, operand);
                self.reset_instruction();
            },
            _ => {},
        }
    }

    /// Absolute, read-modify-write. 6 cycles.
    pub fn addressing_mode_absolute_read_write(&mut self, w: WriteInstr)
        requires
            old(self)@.wf(),
        ensures
            final(self)@.wf(),
            final(self)@ == mode_absolute_read_write(old(self)@, w),
    {
        match self.cycle {
            0 => {
                self.cycle = 1;
            },
            1 => {
                self.arg = self.ram.get_instruction(self.PC as usize) as u16;
                self.PC = pc_next(self.PC);
                self.cycle = 2;
            },
            2 => {
                self.arg = self.arg | ((self.ram.get_instruction(self.PC as usize) as u16) << 8);
                self.PC = pc_next(self.PC);
                self.cycle = 3;
            },
            3 => {
                self.cycle = 4;
            },
            4 => {
                self.cycle = 5;
            },
            5 => {
                let byte = self.ram.get_instruction(self.arg as usize);
                let out = self.apply_write_instruction(w, byte);
                self.ram.set_address(out, self.arg as usize);
                self.reset_instruction();
            },
            _ => {},
        }
    }

    /// Absolute, write. 4 cycles.
    pub fn addressing_mode_absolute_write(&mut self, w: WriteInstr)
        requires
            old(self)@.wf(),
        ensures
            final(self)@.wf(),
            final(self)@ == mode_absolute_write(old(self)@, w),
    {
        match self.cycle {
            0 => {
                self.cycle = 1;
            },
            1 => {
                self.arg = self.ram.get_instruction(self.PC as usize) as u16;
                self.PC = pc_next(self.PC);
                self.cycle = 2;
            },
            2 => {
                self.arg = self.arg | ((self.ram.get_instruction(self.PC as usize) as u16) << 8);
                self.PC = pc_next(self.PC);
                self.cycle = 3;
            },
            3 => {
                let byte = self.ram.get_instruction(self.arg as usize);
                let out = self.apply_write_instruction(w, byte);
                self.ram.set_address(out, self.arg as usize);
                self.reset_instruction();
            },
            _ => {},
        }
    }

    /// Absolute indexed, read: X or Y is added to the assembled address,
    /// wrapping modulo 2^16. 5 cycles.
    pub fn addressing_mode_absolute_with_index_read(&mut self, is_x: bool, i: ReadInstr)
        requires
            old(self)@.wf(),
        ensures
            final(self)@.wf(),
            final(self)@ == mode_absolute_indexed_read(old(self)@, is_x, i),
    {
        match self.cycle {
            0 => {
                self.cycle = 1;
            },
            1 => {
                self.arg = self.ram.get_instruction(self.PC as usize) as u16;
                self.PC = pc_next(self.PC);
                self.cycle = 2;
            },
            2 => {
                self.arg = self.arg | ((self.ram.get_instruction(self.PC as usize) as u16) << 8);
                self.PC = pc_next(self.PC);
                self.cycle = 3;
            },
            3 => {
                self.arg = wrapping_add16(
                    self.arg,
                    if is_x {
                        self.X as u16
                    } else {
                        self.Y as u16
                    },
                );
                self.cycle = 4;
            },
            4 => {
                let operand = self.ram.get_instruction(self.arg as usize);
                self.apply_read_instruction(i, operand);
                self.reset_instruction();
            },
            _ => {},
        }
    }

    /// Absolute indexed, read-modify-write. 7 cycles.
    pub fn addressing_mode_absolute_with_index_read_write(&mut self, is_x: bool, w: WriteInstr)
        requires
            old(self)@.wf(),
        ensures
            final(self)@.wf(),
            final(self)@ == mode_absolute_indexed_read_write(old(self)@, is_x, w),
    {
        match self.cycle {
            0 => {
                self.cycle = 1;
            },
            1 => {
                self.arg = self.ram.get_instruction(self.PC as usize) as u16;
                self.PC = pc_next(self.PC);
                self.cycle = 2;
            },
            2 => {
                self.arg = self.arg | ((self.ram.get_instruction(self.PC as usize) as u16) << 8);
                self.PC = pc_next(self.PC);
                self.cycle = 3;
            },
            3 => {
                self.arg = wrapping_add16(
                    self.arg,
                    if is_x {
                        self.X as u16
                    } else {
                        self.Y as u16
                    },
                );
                self.cycle = 4;
            },
            4 => {
                self.cycle = 5;
            },
            5 => {
                self.cycle = 6;
            },
            6 => {
                let byte = self.ram.get_instruction(self.arg as usize);
                let out = self.apply_write_instruction(w, byte);
                self.ram.set_address(out, self.arg as usize);
                self.reset_instruction();
            },
            _ => {},
        }
    }

    /// Absolute indexed, write. 5 cycles.
    pub fn addressing_mode_absolute_with_index_write(&mut self, is_x: bool, w: WriteInstr)
        requires
            old(self)@.wf(),
        ensures
            final(self)@.wf(),
            final(self)@ == mode_absolute_indexed_write(old(self)@, is_x, w),
    {
        match self.cycle {
            0 => {
                self.cycle = 1;
            },
            1 => {
                self.arg = self.ram.get_instruction(self.PC as usize) as u16;
                self.PC = pc_next(self.PC);
                self.cycle = 2;
            },
            2 => {
                self.arg = self.arg | ((self.ram.get_instruction(self.PC as usize) as u16) << 8);
                self.PC = pc_next(self.PC);
                self.cycle = 3;
            },
            3 => {
                self.arg = wrapping_add16(
                    self.arg,
                    if is_x {
                        self.X as u16
                    } else {
                        self.Y as u16
                    },
                );
                self.cycle = 4;
            },
            4 => {
                let byte = self.ram.get_instruction(self.arg as usize);
                let out = self.apply_write_instruction(w, byte);
                self.ram.set_address(out, self.arg as usize);
                self.reset_instruction();
            },
            _ => {},
        }
    }

    /// Indexed indirect, read: X is added to the zero-page pointer, which is
    /// then dereferenced through two consecutive bus reads. 6 cycles.
    pub fn addressing_mode_indirect_x_read(&mut self, i: ReadInstr)
        requires
            old(self)@.wf(),
        ensures
            final(self)@.wf(),
            final(self)@ == mode_indirect_x_read(old(self)@, i),
    {
        match self.cycle {
            0 => {
                self.cycle = 1;
            },
            1 => {
                self.arg = self.ram.get_instruction(self.PC as usize) as u16;
                self.PC = pc_next(self.PC);
                self.cycle = 2;
            },
            2 => {
                self.arg = wrapping_add16(self.arg, self.X as u16);
                self.cycle = 3;
            },
            3 => {
                self.cycle = 4;
            },
            4 => {
                let lo = self.ram.get_instruction(self.arg as usize);
                let hi = self.ram.get_instruction(wrapping_add16(self.arg, 1) as usize);
                self.arg = (lo as u16) | ((hi as u16) << 8);
                self.cycle = 5;
            },
            5 => {
                let operand = self.ram.get_instruction(self.arg as usize);
                self.apply_read_instruction(i, operand);
                self.reset_instruction();
            },
            _ => {},
        }
    }

    /// Indexed indirect, write. 6 cycles.
    pub fn addressing_mode_indirect_x_write(&mut self, w: WriteInstr)
        requires
            old(self)@.wf(),
        ensures
            final(self)@.wf(),
            final(self)@ == mode_indirect_x_write(old(self)@, w),
    {
        match self.cycle {
            0 => {
                self.cycle = 1;
            },
            1 => {
                self.arg = self.ram.get_instruction(self.PC as usize) as u16;
                self.PC = pc_next(self.PC);
                self.cycle = 2;
            },
            2 => {
                self.arg = wrapping_add16(self.arg, self.X as u16);
                self.cycle = 3;
            },
            3 => {
                self.cycle = 4;
            },
            4 => {
                let lo = self.ram.get_instruction(self.arg as usize);
                let hi = self.ram.get_instruction(wrapping_add16(self.arg, 1) as usize);
                self.arg = (lo as u16) | ((hi as u16) << 8);
                self.cycle = 5;
            },
            5 => {
                let byte = self.ram.get_instruction(self.arg as usize);
                let out = self.apply_write_instruction(w, byte);
                self.ram.set_address(out, self.arg as usize);
                self.reset_instruction();
            },
            _ => {},
        }
    }

    /// Indirect indexed, read: the zero-page pointer is dereferenced, then Y
    /// is added to the assembled address. 6 cycles.
    pub fn addressing_mode_indirect_y_read(&mut self, i: ReadInstr)
        requires
            old(self)@.wf(),
        ensures
            final(self)@.wf(),
            final(self)@ == mode_indirect_y_read(old(self)@, i),
    {
        match self.cycle {
            0 => {
                self.cycle = 1;
            },
            1 => {
                self.arg = self.ram.get_instruction(self.PC as usize) as u16;
                self.PC = pc_next(self.PC);
                self.cycle = 2;
            },
            2 => {
                self.cycle = 3;
            },
            3 => {
                let lo = self.ram.get_instruction(self.arg as usize);
                let hi = self.ram.get_instruction(wrapping_add16(self.arg, 1) as usize);
                self.arg = (lo as u16) | ((hi as u16) << 8);
                self.cycle = 4;
            },
            4 => {
                self.arg = wrapping_add16(self.arg, self.Y as u16);
                self.cycle = 5;
            },
            5 => {
                let operand = self.ram.get_instruction(self.arg as usize);
                self.apply_read_instruction(i, operand);
                self.reset_instruction();
            },
            _ => {},
        }
    }

    /// Indirect indexed, write. 6 cycles.
    pub fn addressing_mode_indirect_y_write(&mut self, w: WriteInstr)
        requires
            old(self)@.wf(),
        ensures
            final(self)@.wf(),
            final(self)@ == mode_indirect_y_write(old(self)@, w),
    {
        match self.cycle {
            0 => {
                self.cycle = 1;
            },
            1 => {
                self.arg = self.ram.get_instruction(self.PC as usize) as u16;
                self.PC = pc_next(self.PC);
                self.cycle = 2;
            },
            2 => {
                self.cycle = 3;
            },
            3 => {
                let lo = self.ram.get_instruction(self.arg as usize);
                let hi = self.ram.get_instruction(wrapping_add16(self.arg, 1) as usize);
                self.arg = (lo as u16) | ((hi as u16) << 8);
                self.cycle = 4;
            },
            4 => {
                self.arg = wrapping_add16(self.arg, self.Y as u16);
                self.cycle = 5;
            },
            5 => {
                let byte = self.ram.get_instruction(self.arg as usize);
                let out = self.apply_write_instruction(w, byte);
                self.ram.set_address(out, self.arg as usize);
                self.reset_instruction();
            },
            _ => {},
        }
    }

    /// Implied/accumulator: the handler runs with no operand. 2 cycles.
    pub fn addressing_mode_implied_or_accumulator(&mut self, a: AccInstr)
        requires
            old(self)@.wf(),
        ensures
            final(self)@.wf(),
            final(self)@ == mode_implied_or_accumulator(old(self)@, a),
    {
        match self.cycle {
            0 => {
                self.cycle = 1;
            },
            1 => {
                self.apply_accumulator_instruction(a);
                self.reset_instruction();
            },
            _ => {},
        }
    }

    /// Relative (branch): fetch the signed displacement, then spend one more
    /// cycle applying it to the program counter only when the condition
    /// holds. 2 cycles skipped, 3 taken.
    pub fn addressing_mode_relative(&mut self, b: BranchInstr)
        requires
            old(self)@.wf(),
        ensures
            final(self)@.wf(),
            final(self)@ == mode_relative(old(self)@, b),
    {
        match self.cycle {
            0 => {
                self.cycle = 1;
            },
            1 => {
                self.arg = self.ram.get_instruction(self.PC as usize) as u16;
                self.PC = pc_next(self.PC);
                self.cycle = 2;
                if self.branch_skip(b) {
                    self.reset_instruction();
                }
            },
            2 => {
                let d: u8 = self.arg as u8;
                self.PC = if d < 0x80 {
                    (((self.PC as u32) + (d as u32)) % 0x10000) as u16
                } else {
                    (((self.PC as u32) + (d as u32) + 0xFF00) % 0x10000) as u16
                };
                self.reset_instruction();
            },
            3 => {
                self.reset_instruction();
            },
            _ => {},
        }
    }

    // -----------------------------------------------------------------------
    // The stack/transfer/control specials.
    // -----------------------------------------------------------------------

    /// BRK: push the return address and the status byte with the break flag
    /// set, then load the program counter from the interrupt vector pair at
    /// 0xFFFE/0xFFFF. 7 cycles.
    fn op_brk(&mut self)
        requires
            old(self)@.wf(),
        ensures
            final(self)@.wf(),
            final(self)@ == crate::step::op_brk(old(self)@),
    {
        match self.cycle {
            0 => {
                self.cycle = 1;
            },
            1 => {
                self.PC = pc_next(self.PC);
                self.cycle = 2;
            },
            2 => {
                let v: u8 = (self.PC >> 8) as u8;
                self.push_stack(v);
                self.cycle = 3;
            },
            3 => {
                let v: u8 = (self.PC & 0xFF) as u8;
                self.push_stack(v);
                self.cycle = 4;
            },
            4 => {
                let v: u8 = self.SR | 0x10;
                self.push_stack(v);
                self.cycle = 5;
            },
            5 => {
                self.arg = (self.ram.get_instruction(0xFFFE) as u16) << 8;
                self.cycle = 6;
            },
            6 => {
                self.PC = self.arg | (self.ram.get_instruction(0xFFFF) as u16);
                self.SR = self.SR | 0x10;
                self.reset_instruction();
            },
            _ => {},
        }
    }

    /// JSR: push the current program counter high-then-low, then jump to the
    /// two-byte target. 6 cycles.
    fn op_jsr(&mut self)
        requires
            old(self)@.wf(),
        ensures
            final(self)@.wf(),
            final(self)@ == crate::step::op_jsr(old(self)@),
    {
        match self.cycle {
            0 => {
                self.cycle = 1;
            },
            1 => {
                self.arg = self.ram.get_instruction(self.PC as usize) as u16;
                self.PC = pc_next(self.PC);
                self.cycle = 2;
            },
            2 => {
                self.cycle = 3;
            },
            3 => {
                let v: u8 = (self.PC >> 8) as u8;
                self.push_stack(v);
                self.cycle = 4;
            },
            4 => {
                let v: u8 = (self.PC & 0xFF) as u8;
                self.push_stack(v);
                self.cycle = 5;
            },
            5 => {
                let high: u16 = (self.ram.get_instruction(self.PC as usize) as u16) << 8;
                self.PC = high | self.arg;
                self.reset_instruction();
            },
            _ => {},
        }
    }

    /// PHP: push the status register. 3 cycles.
    fn op_php(&mut self)
        requires
            old(self)@.wf(),
        ensures
            final(self)@.wf(),
            final(self)@ == crate::step::op_php(old(self)@),
    {
        match self.cycle {
            0 => {
                self.cycle = 1;
            },
            1 => {
                self.cycle = 2;
            },
            2 => {
                let v: u8 = self.SR;
                self.push_stack(v);
                self.reset_instruction();
            },
            _ => {},
        }
    }

    /// PHA: push the accumulator. 3 cycles.
    fn op_pha(&mut self)
        requires
            old(self)@.wf(),
        ensures
            final(self)@.wf(),
            final(self)@ == crate::step::op_pha(old(self)@),
    {
        match self.cycle {
            0 => {
                self.cycle = 1;
            },
            1 => {
                self.cycle = 2;
            },
            2 => {
                let v: u8 = self.AC;
                self.push_stack(v);
                self.reset_instruction();
            },
            _ => {},
        }
    }

    /// PLP: pull the status register. 4 cycles.
    fn op_plp(&mut self)
        requires
            old(self)@.wf(),
        ensures
            final(self)@.wf(),
            final(self)@ == crate::step::op_plp(old(self)@),
    {
        match self.cycle {
            0 => {
                self.cycle = 1;
            },
            1 => {
                self.cycle = 2;
            },
            2 => {
                self.SP = if self.SP == 0xFF {
                    0
                } else {
                    self.SP + 1
                };
                self.cycle = 3;
            },
            3 => {
                self.SR = self.ram.get_instruction(0x100 + self.SP as usize);
                self.reset_instruction();
            },
            _ => {},
        }
    }

    /// PLA: pull the accumulator. 4 cycles.
    fn op_pla(&mut self)
        requires
            old(self)@.wf(),
        ensures
            final(self)@.wf(),
            final(self)@ == crate::step::op_pla(old(self)@),
    {
        match self.cycle {
            0 => {
                self.cycle = 1;
            },
            1 => {
                self.cycle = 2;
            },
            2 => {
                self.SP = if self.SP == 0xFF {
                    0
                } else {
                    self.SP + 1
                };
                self.cycle = 3;
            },
            3 => {
                self.AC = self.ram.get_instruction(0x100 + self.SP as usize);
                self.reset_instruction();
            },
            _ => {},
        }
    }

    /// TXA: the accumulator takes X. 2 cycles.
    fn op_txa(&mut self)
        requires
            old(self)@.wf(),
        ensures
            final(self)@.wf(),
            final(self)@ == crate::step::op_txa(old(self)@),
    {
        match self.cycle {
            0 => {
                self.cycle = 1;
            },
            1 => {
                self.AC = self.X;
                self.set_flag_1st_bit_zero(self.AC);
                self.set_flag_7th_bit_nagetive(self.AC);
                self.reset_instruction();
            },
            _ => {},
        }
    }

    /// TAX: X takes the accumulator. 2 cycles.
    fn op_tax(&mut self)
        requires
            old(self)@.wf(),
        ensures
            final(self)@.wf(),
            final(self)@ == crate::step::op_tax(old(self)@),
    {
        match self.cycle {
            0 => {
                self.cycle = 1;
            },
            1 => {
                self.X = self.AC;
                self.set_flag_1st_bit_zero(self.X);
                self.set_flag_7th_bit_nagetive(self.X);
                self.reset_instruction();
            },
            _ => {},
        }
    }

    /// TXS: the stack pointer takes X; no flags change. 2 cycles.
    fn op_txs(&mut self)
        requires
            old(self)@.wf(),
        ensures
            final(self)@.wf(),
            final(self)@ == crate::step::op_txs(old(self)@),
    {
        match self.cycle {
            0 => {
                self.cycle = 1;
            },
            1 => {
                self.SP = self.X;
                self.reset_instruction();
            },
            _ => {},
        }
    }

    /// INX: increment X modulo 256. 2 cycles.
    fn op_inx(&mut self)
        requires
            old(self)@.wf(),
        ensures
            final(self)@.wf(),
            final(self)@ == crate::step::op_inx(old(self)@),
    {
        match self.cycle {
            0 => {
                self.cycle = 1;
            },
            1 => {
                self.X = if self.X == 0xFF {
                    0
                } else {
                    self.X + 1
                };
                self.set_flag_1st_bit_zero(self.X);
                self.set_flag_7th_bit_nagetive(self.X);
                self.reset_instruction();
            },
            _ => {},
        }
    }

    /// SEI: set the interrupt-disable flag. 2 cycles.
    fn op_sei(&mut self)
        requires
            old(self)@.wf(),
        ensures
            final(self)@.wf(),
            final(self)@ == crate::step::op_sei(old(self)@),
    {
        match self.cycle {
            0 => {
                self.cycle = 1;
            },
            1 => {
                self.SR = self.SR | 0x04;
                self.reset_instruction();
            },
            _ => {},
        }
    }

    /// One cycle of work: when the machine is ready, fetch and latch the
    /// opcode at the program counter; then run the latched opcode's cycle
    /// machine for the current cycle. The state after the call is exactly
    /// `cpu_step` of the state before it.
    #[verifier::rlimit(100)]
    pub fn execute_next_instruction(&mut self)
        requires
            old(self)@.wf(),
        ensures
            final(self)@.wf(),
            final(self)@ == cpu_step(old(self)@),
    {
        let opcode: u8 = if self.new_instruction {
            let instruction = self.ram.get_instruction(self.PC as usize);
            self.PC = pc_next(self.PC);
            self.new_instruction(instruction);
            instruction
        } else {
            self.current_instruction
        };
        proof {
            assert(cpu_step(old(self)@) == crate::step::op_step(decode(opcode), self@));
        }
        if opcode < 0x40 {
            self.dispatch_00_3f(opcode)
        } else if opcode < 0x80 {
            self.dispatch_40_7f(opcode)
        } else if opcode < 0xC0 {
            self.dispatch_80_bf(opcode)
        } else {
            self.dispatch_c0_ff(opcode)
        }
    }

    /// Dispatch one already-latched opcode in 0x00..0x3F to its
    /// cycle machine; opcodes outside the table step silently.
    #[verifier::rlimit(100)]
    fn dispatch_00_3f(&mut self, opcode: u8)
        requires
            old(self)@.wf(),
            opcode < 64,
            old(self)@.opcode == opcode,
        ensures
            final(self)@.wf(),
            final(self)@ == crate::step::op_step(decode(opcode), old(self)@),
    {
        match opcode {
            0x00 => self.op_brk(),
            0x01 => self.addressing_mode_indirect_x_read(ReadInstr::Ora),
            0x05 => self.addressing_mode_zero_page_read(ReadInstr::Ora),
            0x06 => self.addressing_mode_zero_page_read_write(WriteInstr::AslMem),
            0x08 => self.op_php(),
            0x09 => self.addressing_mode_immediate(ReadInstr::Ora),
            0x0A => self.addressing_mode_implied_or_accumulator(AccInstr::AslAcc),
            0x0D => self.addressing_mode_absolute_read(ReadInstr::Ora),
            0x0E => self.addressing_mode_absolute_read_write(WriteInstr::AslMem),
            0x10 => self.addressing_mode_relative(BranchInstr::Bpl),
            0x11 => self.addressing_mode_indirect_y_read(ReadInstr::Ora),
            0x15 => self.addressing_mode_zero_page_with_index_read(true, ReadInstr::Ora),
            0x16 => self.addressing_mode_zero_page_with_index_read_write(true, WriteInstr::AslMem),
            0x18 => self.addressing_mode_implied_or_accumulator(AccInstr::Clc),
            0x19 => self.addressing_mode_absolute_with_index_read(false, ReadInstr::Ora),
            0x1D => self.addressing_mode_absolute_with_index_read(true, ReadInstr::Ora),
            0x1E => self.addressing_mode_absolute_with_index_read_write(true, WriteInstr::AslMem),
            0x20 => self.op_jsr(),
            0x21 => self.addressing_mode_indirect_x_read(ReadInstr::And),
            0x24 => self.addressing_mode_zero_page_read(ReadInstr::Bit),
            0x25 => self.addressing_mode_zero_page_read(ReadInstr::And),
            0x26 => self.addressing_mode_zero_page_write(WriteInstr::RolMem),
            0x28 => self.op_plp(),
            0x29 => self.addressing_mode_immediate(ReadInstr::And),
            0x2A => self.addressing_mode_implied_or_accumulator(AccInstr::RolAcc),
            0x2C => self.addressing_mode_absolute_read(ReadInstr::Bit),
            0x2D => self.addressing_mode_absolute_read(ReadInstr::And),
            0x2E => self.addressing_mode_absolute_write(WriteInstr::RolMem),
            0x30 => self.addressing_mode_relative(BranchInstr::Bmi),
            0x31 => self.addressing_mode_indirect_y_read(ReadInstr::And),
            0x35 => self.addressing_mode_zero_page_with_index_read(true, ReadInstr::And),
            0x36 => self.addressing_mode_zero_page_with_index_write(true, WriteInstr::RolMem),
            0x39 => self.addressing_mode_absolute_with_index_read(false, ReadInstr::And),
            0x3D => self.addressing_mode_absolute_with_index_read(true, ReadInstr::And),
            0x3E => self.addressing_mode_absolute_with_index_write(true, WriteInstr::RolMem),
            _ => {},
        }
    }

    /// Dispatch one already-latched opcode in 0x40..0x7F to its
    /// cycle machine; opcodes outside the table step silently.
    #[verifier::rlimit(100)]
    fn dispatch_40_7f(&mut self, opcode: u8)
        requires
            old(self)@.wf(),
            opcode < 128,
            opcode >= 64,
            old(self)@.opcode == opcode,
        ensures
            final(self)@.wf(),
            final(self)@ == crate::step::op_step(decode(opcode), old(self)@),
    {
        match opcode {
            0x41 => self.addressing_mode_indirect_x_read(ReadInstr::Eor),
            0x45 => self.addressing_mode_zero_page_read(ReadInstr::Eor),
            0x48 => self.op_pha(),
            0x49 => self.addressing_mode_immediate(ReadInstr::Eor),
            0x4D => self.addressing_mode_absolute_read(ReadInstr::Eor),
            0x50 => self.addressing_mode_relative(BranchInstr::Bvc),
            0x51 => self.addressing_mode_indirect_y_read(ReadInstr::Eor),
            0x55 => self.addressing_mode_zero_page_with_index_read(true, ReadInstr::Eor),
            0x58 => self.addressing_mode_implied_or_accumulator(AccInstr::Cli),
            0x59 => self.addressing_mode_absolute_with_index_read(false, ReadInstr::Eor),
            0x5D => self.addressing_mode_absolute_with_index_read(true, ReadInstr::Eor),
            0x61 => self.addressing_mode_indirect_x_read(ReadInstr::Adc),
            0x65 => self.addressing_mode_zero_page_read(ReadInstr::Adc),
            0x68 => self.op_pla(),
            0x69 => self.addressing_mode_immediate(ReadInstr::Adc),
            0x6D => self.addressing_mode_absolute_read(ReadInstr::Adc),
            0x70 => self.addressing_mode_relative(BranchInstr::Bvs),
            0x71 => self.addressing_mode_indirect_y_read(ReadInstr::Adc),
            0x75 => self.addressing_mode_zero_page_with_index_read(true, ReadInstr::Adc),
            0x78 => self.op_sei(),
            0x79 => self.addressing_mode_absolute_with_index_read(false, ReadInstr::Adc),
            0x7D => self.addressing_mode_absolute_with_index_read(true, ReadInstr::Adc),
            _ => {},
        }
    }

    /// Dispatch one already-latched opcode in 0x80..0xBF to its
    /// cycle machine; opcodes outside the table step silently.
    #[verifier::rlimit(100)]
    fn dispatch_80_bf(&mut self, opcode: u8)
        requires
            old(self)@.wf(),
            opcode < 192,
            opcode >= 128,
            old(self)@.opcode == opcode,
        ensures
            final(self)@.wf(),
            final(self)@ == crate::step::op_step(decode(opcode), old(self)@),
    {
        match opcode {
            0x81 => self.addressing_mode_indirect_x_write(WriteInstr::Sta),
            0x84 => self.addressing_mode_zero_page_write(WriteInstr::Sty),
            0x85 => self.addressing_mode_zero_page_write(WriteInstr::Sta),
            0x86 => self.addressing_mode_zero_page_write(WriteInstr::Stx),
            0x88 => self.addressing_mode_implied_or_accumulator(AccInstr::Dey),
            0x8A => self.op_txa(),
            0x8C => self.addressing_mode_absolute_write(WriteInstr::Sty),
            0x8D => self.addressing_mode_absolute_write(WriteInstr::Sta),
            0x8E => self.addressing_mode_absolute_write(WriteInstr::Stx),
            0x90 => self.addressing_mode_relative(BranchInstr::Bcc),
            0x91 => self.addressing_mode_indirect_y_write(WriteInstr::Sta),
            0x94 => self.addressing_mode_zero_page_with_index_write(true, WriteInstr::Sty),
            0x95 => self.addressing_mode_zero_page_with_index_write(true, WriteInstr::Sta),
            0x96 => self.addressing_mode_zero_page_with_index_write(false, WriteInstr::Stx),
            0x99 => self.addressing_mode_absolute_with_index_write(false, WriteInstr::Sta),
            0x9A => self.op_txs(),
            0x9D => self.addressing_mode_absolute_with_index_write(true, WriteInstr::Sta),
            0xA0 => self.addressing_mode_immediate(ReadInstr::Ldy),
            0xA1 => self.addressing_mode_indirect_x_read(ReadInstr::Lda),
            0xA2 => self.addressing_mode_immediate(ReadInstr::Ldx),
            0xA4 => self.addressing_mode_zero_page_read(ReadInstr::Ldy),
            0xA5 => self.addressing_mode_zero_page_read(ReadInstr::Lda),
            0xA6 => self.addressing_mode_zero_page_read(ReadInstr::Ldx),
            0xA9 => self.addressing_mode_immediate(ReadInstr::Lda),
            0xAA => self.op_tax(),
            0xAC => self.addressing_mode_absolute_read(ReadInstr::Ldy),
            0xAD => self.addressing_mode_absolute_read(ReadInstr::Lda),
            0xAE => self.addressing_mode_absolute_read(ReadInstr::Ldx),
            0xB0 => self.addressing_mode_relative(BranchInstr::Bcs),
            0xB1 => self.addressing_mode_indirect_y_read(ReadInstr::Lda),
            0xB4 => self.addressing_mode_zero_page_with_index_read(true, ReadInstr::Ldy),
            0xB5 => self.addressing_mode_zero_page_with_index_read(true, ReadInstr::Lda),
            0xB6 => self.addressing_mode_zero_page_with_index_read(false, ReadInstr::Ldx),
            0xB8 => self.addressing_mode_implied_or_accumulator(AccInstr::Clv),
            0xB9 => self.addressing_mode_absolute_with_index_read(false, ReadInstr::Lda),
            0xBC => self.addressing_mode_absolute_with_index_read(true, ReadInstr::Ldy),
            0xBD => self.addressing_mode_absolute_with_index_read(true, ReadInstr::Lda),
            0xBE => self.addressing_mode_absolute_with_index_read(false, ReadInstr::Ldx),
            _ => {},
        }
    }

    /// Dispatch one already-latched opcode in 0xC0..0xFF to its
    /// cycle machine; opcodes outside the table step silently.
    #[verifier::rlimit(100)]
    fn dispatch_c0_ff(&mut self, opcode: u8)
        requires
            old(self)@.wf(),
            opcode <= 255,
            opcode >= 192,
            old(self)@.opcode == opcode,
        ensures
            final(self)@.wf(),
            final(self)@ == crate::step::op_step(decode(opcode), old(self)@),
    {
        match opcode {
            0xC0 => self.addressing_mode_immediate(ReadInstr::Cpy),
            0xC1 => self.addressing_mode_indirect_x_read(ReadInstr::Cmp),
            0xC4 => self.addressing_mode_zero_page_read(ReadInstr::Cpy),
            0xC5 => self.addressing_mode_zero_page_read(ReadInstr::Cmp),
            0xC9 => self.addressing_mode_immediate(ReadInstr::Cmp),
            0xCA => self.addressing_mode_implied_or_accumulator(AccInstr::Dex),
            0xCC => self.addressing_mode_absolute_read(ReadInstr::Cpy),
            0xCD => self.addressing_mode_absolute_read(ReadInstr::Cmp),
            0xD0 => self.addressing_mode_relative(BranchInstr::Bne),
            0xD1 => self.addressing_mode_indirect_y_read(ReadInstr::Cmp),
            0xD5 => self.addressing_mode_zero_page_with_index_read(true, ReadInstr::Cmp),
            0xD8 => self.addressing_mode_implied_or_accumulator(AccInstr::Cld),
            0xD9 => self.addressing_mode_absolute_with_index_read(false, ReadInstr::Cmp),
            0xDD => self.addressing_mode_absolute_with_index_read(true, ReadInstr::Cmp),
            0xE0 => self.addressing_mode_immediate(ReadInstr::Cpx),
            0xE1 => self.addressing_mode_indirect_x_read(ReadInstr::Sbc),
            0xE4 => self.addressing_mode_zero_page_read(ReadInstr::Cpx),
            0xE5 => self.addressing_mode_zero_page_read(ReadInstr::Sbc),
            0xE8 => self.op_inx(),
            0xE9 => self.addressing_mode_immediate(ReadInstr::Sbc),
            0xEA => self.op_nop(),
            0xEC => self.addressing_mode_absolute_read(ReadInstr::Cpx),
            0xED => self.addressing_mode_absolute_read(ReadInstr::Sbc),
            0xF0 => self.addressing_mode_relative(BranchInstr::Beq),
            0xF1 => self.addressing_mode_indirect_y_read(ReadInstr::Sbc),
            0xF5 => self.addressing_mode_zero_page_with_index_read(true, ReadInstr::Sbc),
            0xF9 => self.addressing_mode_absolute_with_index_read(false, ReadInstr::Sbc),
            0xFD => self.addressing_mode_absolute_with_index_read(true, ReadInstr::Sbc),
            _ => {},
        }
    }

    /// NOP: 2 cycles, no effect.
    fn op_nop(&mut self)
        requires
            old(self)@.wf(),
        ensures
            final(self)@.wf(),
            final(self)@ == crate::step::op_nop(old(self)@),
    {
        match self.cycle {
            0 => {
                self.cycle = 1;
            },
            1 => {
                self.reset_instruction();
            },
            _ => {},
        }
    }
}

} // verus!
