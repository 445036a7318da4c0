//! The audio / input-output register slot: a stub that stores the last
//! written byte of each register and hands it back on read.

use vstd::prelude::*;

verus! {

/// Lowest bus address the slot claims.
pub const APU_BASE: u16 = 0x4000;

/// Number of byte-wide registers in the 0x4000–0x4017 range.
pub const APU_REG_COUNT: usize = 0x18;

/// Return-last-written storage for the audio and input-output registers.
pub struct Apu {
    regs: Vec<u8>,
}

impl Apu {
    /// The register bytes, indexed by `addr - 0x4000`.
    pub closed spec fn view(self) -> Seq<u8> {
        self.regs@
    }

    /// The slot always holds its full register file.
    pub open spec fn wf(self) -> bool {
        self.view().len() == APU_REG_COUNT
    }

    /// All registers cleared to zero.
    pub fn new() -> (r: Apu)
        ensures
            r.wf(),
            forall|i: int| 0 <= i < APU_REG_COUNT ==> r.view()[i] == 0,
    {
        let mut regs: Vec<u8> = Vec::new();
        let mut i: usize = 0;
        while i < APU_REG_COUNT
            invariant
                i <= APU_REG_COUNT,
                regs@.len() == i,
                forall|j: int| 0 <= j < i ==> regs@[j] == 0,
            decreases APU_REG_COUNT - i,
        {
            regs.push(0);
            i = i + 1;
        }
        Apu { regs }
    }

    /// The last byte written to the register at `addr`.
    pub fn read_reg(&self, addr: u16) -> (r: u8)
        requires
            self.wf(),
            APU_BASE <= addr < APU_BASE + APU_REG_COUNT,
        ensures
            r == self.view()[addr - APU_BASE],
    {
        self.regs[(addr - APU_BASE) as usize]
    }

    /// Store `value` in the register at `addr`.
    pub fn write_reg(&mut self, addr: u16, value: u8)
        requires
            old(self).wf(),
            APU_BASE <= addr < APU_BASE + APU_REG_COUNT,
        ensures
            final(self).view() == old(self).view().update(addr - APU_BASE, value),
    {
        self.regs.set((addr - APU_BASE) as usize, value);
    }
}

} // verus!
