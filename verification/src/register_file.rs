//! Register file: 32 general-purpose 32-bit registers with a hardwired-zero
//! register at index 0, two asynchronous read ports and one synchronous,
//! write-enable-gated write port.
use vstd::prelude::*;

use crate::bits::zero_words;

verus! {

/// 32-entry register file; index 0 always reads 0 and ignores writes.
pub struct RegisterFile {
    regs: Vec<u32>,
}

impl View for RegisterFile {
    type V = Seq<u32>;

    closed spec fn view(&self) -> Seq<u32> {
        self.regs@
    }
}

/// The register state after one clock edge: reset clears every entry;
/// otherwise a write gated by (write-enable AND destination != 0) updates
/// exactly one entry; otherwise the state is unchanged.
pub open spec fn spec_rf_tick(regs: Seq<u32>, rst: bool, addr_rd: u8, data_rd: u32, we: bool) -> Seq<
    u32,
> {
    if rst {
        Seq::new(32, |i: int| 0u32)
    } else if we && addr_rd != 0 {
        regs.update(addr_rd as int, data_rd)
    } else {
        regs
    }
}

impl RegisterFile {
    /// Well-formed: 32 entries, and the hardwired-zero invariant on index 0.
    pub open spec fn wf(&self) -> bool {
        self@.len() == 32 && self@[0] == 0
    }

    /// A fresh register file with every entry zero.
    pub fn new() -> (r: Self)
        ensures
            r.wf(),
            forall|i: int| 0 <= i < 32 ==> r@[i] == 0u32,
    {
        RegisterFile { regs: zero_words(32) }
    }

    /// Read port 1 (asynchronous).
    pub fn read_rs1(&self, addr: u8) -> (r: u32)
        requires
            self.wf(),
            addr < 32,
        ensures
            r == self@[addr as int],
            addr == 0 ==> r == 0,
    {
        if addr == 0 {
            0
        } else {
            self.regs[addr as usize]
        }
    }

    /// Read port 2 (asynchronous).
    pub fn read_rs2(&self, addr: u8) -> (r: u32)
        requires
            self.wf(),
            addr < 32,
        ensures
            r == self@[addr as int],
            addr == 0 ==> r == 0,
    {
        if addr == 0 {
            0
        } else {
            self.regs[addr as usize]
        }
    }

    /// Write port (synchronous): applied on the clock edge.
    pub fn tick(&mut self, rst: bool, addr_rd: u8, data_rd: u32, we: bool)
        requires
            old(self).wf(),
            addr_rd < 32,
        ensures
            final(self).wf(),
            final(self)@ == spec_rf_tick(old(self)@, rst, addr_rd, data_rd, we),
    {
        if rst {
            self.regs = zero_words(32);
            assert(self.regs@ =~= Seq::new(32, |i: int| 0u32));
        } else if we && addr_rd != 0 {
            self.regs.set(addr_rd as usize, data_rd);
        }
    }

    /// Inspection accessor: the current value of a register.
    pub fn get_reg(&self, index: usize) -> (r: u32)
        requires
            self.wf(),
            index < 32,
        ensures
            r == self@[index as int],
            index == 0 ==> r == 0,
    {
        if index == 0 {
            0
        } else {
            self.regs[index]
        }
    }
}

/// Law: register 0 reads 0 after any clock edge, no matter what was written,
/// including writes that target index 0 itself.
pub proof fn lemma_reg0_always_zero(regs: Seq<u32>, rst: bool, addr_rd: u8, data_rd: u32, we: bool)
    requires
        regs.len() == 32,
        regs[0] == 0,
        addr_rd < 32,
    ensures
        spec_rf_tick(regs, rst, addr_rd, data_rd, we)[0] == 0,
{
}

} // verus!
