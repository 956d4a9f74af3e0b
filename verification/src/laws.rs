//! Laws the library is answerable for, each proved once and for all inputs:
//! the add-with-carry arithmetic and its flags, the program-image round trip
//! through the bus, the memory-mirroring aliases, and the write-only-on-the-
//! final-cycle discipline of the read-modify-write modes.

use vstd::prelude::*;
use vstd::arithmetic::div_mod::{lemma_mod_division_less_than_divisor, lemma_small_mod};
use crate::memory::MemV;
use crate::state::{CpuV, pc_inc, flag_carry, flag_zero, flag_negative, flag_overflow,
    lemma_sr_flag_bits};
use crate::instructions::{ReadInstr, WriteInstr, read_instr_state, write_instr_state};
use crate::decode::{DecodedOp, decode};
use crate::step::cpu_step;

verus! {

/// Bit 7 of a raw 16-bit result agrees with bit 7 of its 8-bit truncation,
/// so the sign-mismatch overflow test reads the same on either.
proof fn lemma_overflow_bit7(raw: u16, a: u8, b: u8)
    by (bit_vector)
    ensures
        ((raw ^ (a as u16)) & (raw ^ (b as u16)) & 0x80 != 0) == ((((raw % 0x100) as u8) ^ a) & ((
        (raw % 0x100) as u8) ^ b) & 0x80 != 0),
{
}

/// Add-with-carry arithmetic, for every accumulator value, operand value and
/// status register: the accumulator takes (a + b + c) mod 256 for carry-in
/// c, carry-out holds iff a + b + c exceeds 255, overflow follows the
/// sign-mismatch formula on accumulator, operand and result, and zero and
/// negative follow the truncated sum.
pub proof fn lemma_adc_arithmetic(s: CpuV, byte: u8)
    ensures
        ({
            let c = (s.sr & 0x01) as int;
            let r = read_instr_state(ReadInstr::Adc, s, byte);
            &&& r.ac == (s.ac + byte + c) % 0x100
            &&& flag_carry(r.sr) == (s.ac + byte + c > 0xFF)
            &&& flag_overflow(r.sr) == ((r.ac ^ s.ac) & (r.ac ^ byte) & 0x80 != 0)
            &&& flag_zero(r.sr) == (r.ac == 0)
            &&& flag_negative(r.sr) == (r.ac >= 0x80)
            &&& r.x == s.x && r.y == s.y && r.pc == s.pc && r.sp == s.sp && r.mem == s.mem
        }),
{
    let c = (s.sr & 0x01) as int;
    let raw = s.ac + byte + c;
    let res = (raw % 0x100) as u8;
    let raw16 = raw as u16;
    let r = read_instr_state(ReadInstr::Adc, s, byte);
    // carry is decided first and survives the zero, overflow and negative
    // updates, which touch bits 1, 6 and 7 only
    let sr1 = crate::state::spec_set_carry(s.sr, raw16);
    let sr2 = crate::state::spec_set_zero(sr1, res);
    let sr3 = crate::state::spec_set_overflow(sr2, s.ac as u16, byte as u16, raw16);
    let sr4 = crate::state::spec_set_negative(sr3, res);
    lemma_sr_flag_bits(s.sr);
    lemma_sr_flag_bits(sr1);
    lemma_sr_flag_bits(sr2);
    lemma_sr_flag_bits(sr3);
    assert(flag_carry(r.sr) == (raw > 0xFF));
    // zero is decided second and survives the overflow and negative updates
    assert(flag_zero(r.sr) == (res == 0));
    // overflow is decided third and survives the negative update
    lemma_overflow_bit7(raw16, s.ac, byte);
    assert((raw16 % 0x100) as u8 == res);
    assert(flag_overflow(r.sr) == ((res ^ s.ac) & (res ^ byte) & 0x80 != 0));
    // negative is decided last
    assert(flag_negative(r.sr) == (res >= 0x80));
}

/// Round trip through the bus: after a program image is installed at an
/// origin in the ROM region, reading the image's span back gives the
/// identical byte sequence.
pub proof fn lemma_load_round_trip(m: MemV, image: Seq<u8>, from: int)
    requires
        m.wf(),
        0x8000 <= from,
        from + image.len() <= 0x10000,
    ensures
        forall|i: int|
            0 <= i < image.len() ==> #[trigger] m.loaded(image, from).read8(from + i) == image[i],
{
    assert forall|i: int| 0 <= i < image.len() implies #[trigger] m.loaded(image, from).read8(
        from + i,
    ) == image[i] by {
        assert(m.loaded(image, from).prg[from - 0x8000 + i] == image[i]);
    }
}

/// RAM mirroring: every address in the RAM region observes the same storage
/// as that address reduced modulo 0x800, for reads and for writes alike.
pub proof fn lemma_ram_mirror(m: MemV, at: int, data: u8)
    requires
        m.wf(),
        0x800 <= at < 0x2000,
    ensures
        m.read8(at) == m.read8(at % 0x800),
        m.write8(data, at) == m.write8(data, at % 0x800),
{
    lemma_mod_division_less_than_divisor(at, 0x800);
    lemma_small_mod((at % 0x800) as nat, 0x800);
}

/// PPU-register mirroring: every address in the mirrored span observes the
/// same storage as the corresponding register in 0x2000..0x2007, for reads
/// and for writes alike.
pub proof fn lemma_ppu_mirror(m: MemV, at: int, data: u8)
    requires
        m.wf(),
        0x2008 <= at < 0x4000,
    ensures
        m.read8(at) == m.read8(0x2000 + (at - 0x2000) % 8),
        m.write8(data, at) == m.write8(data, 0x2000 + (at - 0x2000) % 8),
{
    lemma_mod_division_less_than_divisor(at - 0x2000, 8);
    lemma_small_mod(((at - 0x2000) % 8) as nat, 8);
}

/// The state-machine contract: from the ready state, fetching any opcode the
/// dispatch table implements leaves the machine mid-instruction, so an
/// instruction always consumes at least two cycles — one fetch, then at
/// least one execute.
pub proof fn lemma_instruction_takes_at_least_two_cycles(s: CpuV)
    requires
        s.wf(),
        s.ready,
        s.cycle == 0,
        decode(s.mem.read8(s.pc as int)) != DecodedOp::Unimplemented,
    ensures
        !cpu_step(s).ready,
        cpu_step(s).cycle == 1,
{
}

/// The zero-page read-modify-write discipline: from the fetch of such an
/// opcode, memory is untouched through every cycle but the last, and on the
/// final (fifth) cycle exactly one byte — the handler's transform of the
/// content at the zero-page operand address — is written, at that address.
pub proof fn lemma_rmw_zero_page_writes_only_on_final_cycle(s: CpuV, w: WriteInstr)
    requires
        s.wf(),
        s.ready,
        s.cycle == 0,
        decode(s.mem.read8(s.pc as int)) == DecodedOp::ZeroPageReadWrite(w),
    ensures
        ({
            let s1 = cpu_step(s);
            let s2 = cpu_step(s1);
            let s3 = cpu_step(s2);
            let s4 = cpu_step(s3);
            let s5 = cpu_step(s4);
            let a = s.mem.read8(pc_inc(s.pc) as int) as u16;
            let byte = s.mem.read8(a as int);
            &&& s1.mem == s.mem && !s1.ready
            &&& s2.mem == s.mem && !s2.ready
            &&& s3.mem == s.mem && !s3.ready
            &&& s4.mem == s.mem && !s4.ready
            &&& s5.mem == s.mem.write8(write_instr_state(w, s, byte).1, a as int)
            &&& s5.ready
        }),
{
    let s1 = cpu_step(s);
    let s2 = cpu_step(s1);
    let s3 = cpu_step(s2);
    let s4 = cpu_step(s3);
    let s5 = cpu_step(s4);
    let a = s.mem.read8(pc_inc(s.pc) as int) as u16;
    let byte = s.mem.read8(a as int);
    assert(s4.arg == a && s4.sr == s.sr && s4.ac == s.ac && s4.x == s.x && s4.y == s.y);
    assert(write_instr_state(w, s4, byte).1 == write_instr_state(w, s, byte).1);
}

} // verus!
