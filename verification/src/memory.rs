//! The memory bus: one 64KB byte-addressable space split into regions, some of
//! which mirror a smaller backing store via a modulus.
//!
//! Region map (16-bit addresses):
//!   0x0000..0x1FFF  RAM, 2KB backing store, mirrored with modulus 0x0800
//!   0x2000..0x3FFF  PPU registers, 8 bytes, mirrored with modulus 8
//!   0x4000..0x5FFF  APU/IO, direct
//!   0x6000..0x7FFF  cartridge WRAM, direct
//!   0x8000..0xFFFF  program ROM, direct (kept writable)
//!
//! Reads and writes are total over the whole 16-bit address space.

use vstd::prelude::*;

verus! {

/// Mathematical model of the bus: one sequence of bytes per region.
#[verifier::ext_equal]
pub ghost struct MemV {
    pub ram: Seq<u8>,
    pub ppu: Seq<u8>,
    pub apu: Seq<u8>,
    pub wram: Seq<u8>,
    pub prg: Seq<u8>,
}

impl MemV {
    /// Each region has its fixed backing-store size.
    pub open spec fn wf(self) -> bool {
        &&& self.ram.len() == 0x800
        &&& self.ppu.len() == 8
        &&& self.apu.len() == 0x2000
        &&& self.wram.len() == 0x2000
        &&& self.prg.len() == 0x8000
    }

    /// The byte observed at an address, after region decoding and mirroring.
    pub open spec fn read8(self, at: int) -> u8 {
        if at < 0x2000 {
            self.ram[at % 0x800]
        } else if at < 0x4000 {
            self.ppu[(at - 0x2000) % 8]
        } else if at < 0x6000 {
            self.apu[at - 0x4000]
        } else if at < 0x8000 {
            self.wram[at - 0x6000]
        } else {
            self.prg[at - 0x8000]
        }
    }

    /// The bus after writing one byte at an address, after region decoding and
    /// mirroring.
    pub open spec fn write8(self, data: u8, at: int) -> MemV {
        if at < 0x2000 {
            MemV { ram: self.ram.update(at % 0x800, data), ..self }
        } else if at < 0x4000 {
            MemV { ppu: self.ppu.update((at - 0x2000) % 8, data), ..self }
        } else if at < 0x6000 {
            MemV { apu: self.apu.update(at - 0x4000, data), ..self }
        } else if at < 0x8000 {
            MemV { wram: self.wram.update(at - 0x6000, data), ..self }
        } else {
            MemV { prg: self.prg.update(at - 0x8000, data), ..self }
        }
    }

    /// The bus after copying `data` into the program-ROM region, starting at
    /// bus address `from` (which must lie in the ROM region).
    pub open spec fn loaded(self, data: Seq<u8>, from: int) -> MemV {
        MemV {
            prg: Seq::new(
                self.prg.len(),
                |i: int|
                    if from - 0x8000 <= i < from - 0x8000 + data.len() {
                        data[i - (from - 0x8000)]
                    } else {
                        self.prg[i]
                    },
            ),
            ..self
        }
    }
}

/// The memory bus, with one byte vector per region.
pub struct Memory {
    ram: Vec<u8>,
    ppu: Vec<u8>,
    apu: Vec<u8>,
    wram: Vec<u8>,
    prg: Vec<u8>,
}

impl View for Memory {
    type V = MemV;

    closed spec fn view(&self) -> MemV {
        MemV {
            ram: self.ram@,
            ppu: self.ppu@,
            apu: self.apu@,
            wram: self.wram@,
            prg: self.prg@,
        }
    }
}

/// A vector of `n` zero bytes.
fn zeroed(n: usize) -> (v: Vec<u8>)
    ensures
        v@.len() == n,
        forall|i: int| 0 <= i < n ==> v@[i] == 0u8,
{
    let mut v: Vec<u8> = Vec::new();
    while v.len() < n
        invariant
            v@.len() <= n,
            forall|i: int| 0 <= i < v@.len() ==> v@[i] == 0u8,
        decreases n - v@.len(),
    {
        v.push(0u8);
    }
    v
}

impl Memory {
    /// A bus whose every region is zeroed.
    pub fn new() -> (m: Memory)
        ensures
            m@.wf(),
            forall|at: int| 0 <= at < 0x10000 ==> m@.read8(at) == 0u8,
    {
        let m = Memory {
            ram: zeroed(0x800),
            ppu: zeroed(8),
            apu: zeroed(0x2000),
            wram: zeroed(0x2000),
            prg: zeroed(0x8000),
        };
        m
    }

    /// Copies a program image into the ROM region, starting at bus address
    /// `from`. Used once at boot with `from == 0x8000`.
    pub fn load(&mut self, prg: &Vec<u8>, from: usize)
        requires
            old(self)@.wf(),
            0x8000 <= from,
            from + prg@.len() <= 0x10000,
        ensures
            final(self)@.wf(),
            final(self)@ == old(self)@.loaded(prg@, from as int),
    {
        let base: usize = from - 0x8000;
        let mut pos: usize = 0;
        while pos < prg.len()
            invariant
                self@.wf(),
                prg@.len() <= 0x8000,
                base + prg@.len() <= 0x8000,
                pos <= prg@.len(),
                self@.ppu == old(self)@.ppu,
                self@.ram == old(self)@.ram,
                self@.apu == old(self)@.apu,
                self@.wram == old(self)@.wram,
                forall|i: int|
                    0 <= i < 0x8000 ==> self@.prg[i] == (if base <= i < base + pos {
                        prg@[i - base]
                    } else {
                        old(self)@.prg[i]
                    }),
            decreases prg@.len() - pos,
        {
            let byte: u8 = prg[pos];
            self.prg.set(base + pos, byte);
            pos = pos + 1;
        }
        proof {
            assert(final(self)@ =~= old(self)@.loaded(prg@, from as int));
        }
    }

    /// Writes one byte at a bus address, applying the region map.
    pub fn set_address(&mut self, data: u8, at: usize)
        requires
            old(self)@.wf(),
            at < 0x10000,
        ensures
            final(self)@.wf(),
            final(self)@ == old(self)@.write8(data, at as int),
    {
        if at < 0x2000 {
            self.ram.set(at % 0x800, data);
        } else if at < 0x4000 {
            self.ppu.set((at - 0x2000) % 8, data);
        } else if at < 0x6000 {
            self.apu.set(at - 0x4000, data);
        } else if at < 0x8000 {
            self.wram.set(at - 0x6000, data);
        } else {
            self.prg.set(at - 0x8000, data);
        }
    }

    /// Reads one byte at a bus address, applying the region map.
    pub fn get_instruction(&self, at: usize) -> (r: u8)
        requires
            self@.wf(),
            at < 0x10000,
        ensures
            r == self@.read8(at as int),
    {
        if at < 0x2000 {
            self.ram[at % 0x800]
        } else if at < 0x4000 {
            self.ppu[(at - 0x2000) % 8]
        } else if at < 0x6000 {
            self.apu[at - 0x4000]
        } else if at < 0x8000 {
            self.wram[at - 0x6000]
        } else {
            self.prg[at - 0x8000]
        }
    }
}

} // verus!
