//! Load/store unit: the pass-through memory interface of the single-cycle
//! datapath. The ALU result doubles as the memory address, the rs2 value is
//! the write data, and the control bundle's memory-write-enable gates writes.
use vstd::prelude::*;

verus! {

/// The memory-interface ports emitted each cycle.
#[derive(Debug, Clone, Copy, PartialEq, Eq, Structural)]
pub struct MemInterface {
    pub mem_addr: u32,
    pub mem_wdata: u32,
    pub mem_we: bool,
}

impl Default for MemInterface {
    fn default() -> (r: Self)
        ensures
            r.mem_addr == 0 && r.mem_wdata == 0 && !r.mem_we,
    {
        MemInterface { mem_addr: 0, mem_wdata: 0, mem_we: false }
    }
}

/// Combinational LSU: routes the execute-stage signals to the memory ports.
pub fn lsu_golden(alu_result: u32, write_data: u32, mem_write: bool) -> (r: MemInterface)
    ensures
        r.mem_addr == alu_result,
        r.mem_wdata == write_data,
        r.mem_we == mem_write,
{
    MemInterface { mem_addr: alu_result, mem_wdata: write_data, mem_we: mem_write }
}

} // verus!
