//! Simulation memory: 1024 32-bit words (4 KB), word-aligned addressing.
//! Byte addresses are masked to the 4 KB range and right-shifted by 2 to a
//! word index. Reads are asynchronous on two logical ports (instruction and
//! data); writes apply synchronously, gated by a write-enable flag.
use vstd::prelude::*;

use crate::bits::zero_words;

verus! {

/// The word index a byte address selects: masked to the 4 KB range, then
/// divided by the word size.
pub open spec fn spec_word_index(addr: u32) -> int {
    ((addr & 0xFFF) >> 2) as int
}

/// Dual-port 4 KB word memory.
pub struct MemorySim {
    ram: Vec<u32>,
}

impl View for MemorySim {
    type V = Seq<u32>;

    closed spec fn view(&self) -> Seq<u32> {
        self.ram@
    }
}

impl MemorySim {
    /// Well-formed: exactly 1024 words.
    pub open spec fn wf(&self) -> bool {
        self@.len() == 1024
    }

    /// A fresh, zeroed memory.
    pub fn new() -> (r: Self)
        ensures
            r.wf(),
            forall|i: int| 0 <= i < 1024 ==> r@[i] == 0u32,
    {
        MemorySim { ram: zero_words(1024) }
    }

    /// Preload a program image, word by word, from index 0; words beyond
    /// the capacity are ignored.
    pub fn load_program(&mut self, program: &[u32])
        requires
            old(self).wf(),
        ensures
            final(self).wf(),
            forall|i: int|
                0 <= i < 1024 ==> final(self)@[i] == (if i < program@.len() {
                    program@[i]
                } else {
                    old(self)@[i]
                }),
    {
        let mut i: usize = 0;
        while i < program.len()
            invariant
                old(self).wf(),
                self@.len() == 1024,
                i <= program@.len(),
                forall|j: int|
                    0 <= j < 1024 ==> self@[j] == (if j < i {
                        program@[j]
                    } else {
                        old(self)@[j]
                    }),
            decreases program@.len() - i,
        {
            if i < self.ram.len() {
                self.ram.set(i, program[i]);
            }
            i = i + 1;
        }
    }

    /// Instruction port (asynchronous read).
    pub fn read_instr(&self, addr: u32) -> (r: u32)
        requires
            self.wf(),
        ensures
            r == self@[spec_word_index(addr)],
    {
        assert((addr & 0xFFF) >> 2 < 1024) by (bit_vector);
        let index = ((addr & 0xFFF) >> 2) as usize;
        self.ram[index]
    }

    /// Data port (asynchronous read).
    pub fn read_data(&self, addr: u32) -> (r: u32)
        requires
            self.wf(),
        ensures
            r == self@[spec_word_index(addr)],
    {
        assert((addr & 0xFFF) >> 2 < 1024) by (bit_vector);
        let index = ((addr & 0xFFF) >> 2) as usize;
        self.ram[index]
    }

    /// Data port write (synchronous): applies only when `we` is asserted.
    pub fn write_data(&mut self, addr: u32, data: u32, we: bool)
        requires
            old(self).wf(),
        ensures
            final(self).wf(),
            final(self)@ == (if we {
                old(self)@.update(spec_word_index(addr), data)
            } else {
                old(self)@
            }),
    {
        if we {
            assert((addr & 0xFFF) >> 2 < 1024) by (bit_vector);
            let index = ((addr & 0xFFF) >> 2) as usize;
            self.ram.set(index, data);
        }
    }
}

} // verus!
