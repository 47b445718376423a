//! System integrator: one clock-step transition function composing decoder,
//! control resolver, immediate generator, register file, ALU and branch unit.
//! A step either services reset (PC to 0, registers cleared, inert memory
//! interface) or executes one instruction: decode, control resolve, register
//! read, ALU on the muxed operand, branch on the raw operands, write-back,
//! PC update, and the memory-interface outputs for the caller to apply.
use vstd::prelude::*;

use crate::alu::{alu_golden_model, spec_alu};
use crate::bits::zero_bytes;
use crate::branch::{branch_op_e, branch_unit_golden, spec_branch_from_bits, spec_branch_pred};
use crate::control::{control_unit_golden, spec_control};
use crate::decode::{
    get_funct3, get_funct7_5, get_opcode_bits, get_rd, get_rs1, get_rs2, imm_gen_golden,
    spec_funct3, spec_funct7_5, spec_imm_gen, spec_opcode_bits, spec_rd, spec_rs1, spec_rs2,
};
use crate::isa::{opcode_t, spec_opcode_from_bits};
use crate::register_file::{spec_rf_tick, RegisterFile};

verus! {

/// The architectural effect of one step: next PC, next register state, and
/// the memory-interface outputs (address, write data, write enable).
pub struct StepSpec {
    pub pc: u32,
    pub regs: Seq<u32>,
    pub alu_res: u32,
    pub wdata: u32,
    pub mem_we: bool,
}

/// Whether the step takes the branch: the branch unit's predicate on the
/// raw rs1/rs2 register values, gated by branch-enable.
pub open spec fn spec_branch_taken(regs: Seq<u32>, instr: u32) -> bool {
    let ctrl = spec_control(
        spec_opcode_from_bits(spec_opcode_bits(instr)),
        spec_funct3(instr),
        spec_funct7_5(instr),
    );
    ctrl.branch && spec_branch_pred(
        spec_branch_from_bits(spec_funct3(instr)),
        regs[spec_rs1(instr) as int],
        regs[spec_rs2(instr) as int],
    )
}

/// The transition one clock edge makes from (pc, regs) under the inputs
/// (instruction word, memory read data, reset).
pub open spec fn spec_step(pc: u32, regs: Seq<u32>, instr: u32, mem_rdata: u32, rst: bool) -> StepSpec {
    if rst {
        StepSpec { pc: 0, regs: Seq::new(32, |i: int| 0u32), alu_res: 0, wdata: 0, mem_we: false }
    } else {
        let opcode = spec_opcode_from_bits(spec_opcode_bits(instr));
        let ctrl = spec_control(opcode, spec_funct3(instr), spec_funct7_5(instr));
        let imm_ext = spec_imm_gen(instr);
        let rs1_data = regs[spec_rs1(instr) as int];
        let rs2_data = regs[spec_rs2(instr) as int];
        let alu_b = if ctrl.alu_src {
            imm_ext
        } else {
            rs2_data
        };
        let alu_res = spec_alu(ctrl.alu_control, rs1_data, alu_b);
        let wb_data = if ctrl.result_src {
            mem_rdata
        } else {
            alu_res
        };
        let next_pc = if spec_branch_taken(regs, instr) {
            ((pc + imm_ext) % 0x1_0000_0000) as u32
        } else {
            ((pc + 4) % 0x1_0000_0000) as u32
        };
        StepSpec {
            pc: next_pc,
            regs: spec_rf_tick(regs, false, spec_rd(instr), wb_data, ctrl.reg_write),
            alu_res,
            wdata: rs2_data,
            mem_we: ctrl.mem_write,
        }
    }
}

/// Golden model of the single-cycle core: PC, register file and a 4 KB
/// byte-addressed backing memory for program images.
pub struct Lx32System {
    pub pc: u32,
    pub reg_file: RegisterFile,
    pub memory: Vec<u8>,
}

/// A little-endian 32-bit word assembled from four bytes of `mem` at `a`.
pub open spec fn spec_mem_word(mem: Seq<u8>, a: int) -> u32 {
    (mem[a] + mem[a + 1] * 0x100 + mem[a + 2] * 0x1_0000 + mem[a + 3] * 0x100_0000) as u32
}

/// The word a read of the internal memory returns: little-endian at the
/// byte address when the full word is in range, 0 otherwise.
pub open spec fn spec_read_mem(mem: Seq<u8>, addr: u32) -> u32 {
    if addr + 3 < 4096 {
        spec_mem_word(mem, addr as int)
    } else {
        0
    }
}

impl Lx32System {
    /// Well-formed: a well-formed register file and a 4 KB memory.
    pub open spec fn wf(&self) -> bool {
        self.reg_file.wf() && self.memory@.len() == 4096
    }

    /// A fresh system: PC 0, registers cleared, memory zeroed.
    pub fn new() -> (r: Self)
        ensures
            r.wf(),
            r.pc == 0,
            forall|i: int| 0 <= i < 32 ==> r.reg_file@[i] == 0u32,
            forall|i: int| 0 <= i < 4096 ==> r.memory@[i] == 0u8,
    {
        Lx32System { pc: 0, reg_file: RegisterFile::new(), memory: zero_bytes(4096) }
    }

    /// Read a 32-bit little-endian word from the internal memory; reads
    /// that would cross the end of memory return 0.
    pub fn read_mem(&self, addr: u32) -> (r: u32)
        requires
            self.wf(),
        ensures
            r == spec_read_mem(self.memory@, addr),
    {
        if addr < 4093 {
            let a = addr as usize;
            let b0 = self.memory[a] as u32;
            let b1 = self.memory[a + 1] as u32;
            let b2 = self.memory[a + 2] as u32;
            let b3 = self.memory[a + 3] as u32;
            b0 + b1 * 0x100 + b2 * 0x1_0000 + b3 * 0x100_0000
        } else {
            0
        }
    }

    /// Execute one clock cycle. Returns the memory-interface outputs
    /// (ALU result as address, rs2 value as write data, write enable).
    pub fn step(&mut self, instr: u32, mem_rdata: u32, rst: bool) -> (r: (u32, u32, bool))
        requires
            old(self).wf(),
        ensures
            final(self).wf(),
            final(self).memory == old(self).memory,
            ({
                let s = spec_step(old(self).pc, old(self).reg_file@, instr, mem_rdata, rst);
                final(self).pc == s.pc && final(self).reg_file@ == s.regs && r.0 == s.alu_res
                    && r.1 == s.wdata && r.2 == s.mem_we
            }),
    {
        if rst {
            self.pc = 0;
            self.reg_file.tick(true, 0, 0, false);
            return (0, 0, false);
        }
        let opcode = opcode_t::from_bits(get_opcode_bits(instr));
        let funct3 = get_funct3(instr);
        let funct7_5 = get_funct7_5(instr);
        let branch_op = branch_op_e::from_bits(funct3);

        let ctrl = control_unit_golden(opcode, funct3, funct7_5);
        let imm_ext = imm_gen_golden(instr);

        let rs1_addr = get_rs1(instr);
        let rs2_addr = get_rs2(instr);
        let rd_addr = get_rd(instr);

        let rs1_data = self.reg_file.read_rs1(rs1_addr);
        let rs2_data = self.reg_file.read_rs2(rs2_addr);

        let alu_b = if ctrl.alu_src {
            imm_ext
        } else {
            rs2_data
        };
        let alu_res = alu_golden_model(rs1_data, alu_b, ctrl.alu_control);

        let branch_taken = branch_unit_golden(rs1_data, rs2_data, ctrl.branch, branch_op);

        let wb_data = if ctrl.result_src {
            mem_rdata
        } else {
            alu_res
        };
        self.reg_file.tick(false, rd_addr, wb_data, ctrl.reg_write);

        self.pc = if branch_taken {
            self.pc.wrapping_add(imm_ext)
        } else {
            self.pc.wrapping_add(4)
        };

        (alu_res, rs2_data, ctrl.mem_write)
    }
}

/// Law: a reset cycle forces PC to 0 and every register to 0, whatever the
/// pre-reset state and inputs were, and asserts no memory write.
pub proof fn lemma_reset_forces_zero(pc: u32, regs: Seq<u32>, instr: u32, mem_rdata: u32)
    ensures
        spec_step(pc, regs, instr, mem_rdata, true).pc == 0,
        forall|i: int| 0 <= i < 32 ==> spec_step(pc, regs, instr, mem_rdata, true).regs[i] == 0u32,
        !spec_step(pc, regs, instr, mem_rdata, true).mem_we,
{
}

/// Law: the branch decision of a step is the branch unit's predicate on the
/// raw rs1/rs2 register values gated by branch-enable; the immediate-muxed
/// ALU operand plays no part in the PC outcome.
pub proof fn lemma_step_branch_raw_operands(
    pc: u32,
    regs: Seq<u32>,
    instr: u32,
    mem_rdata: u32,
)
    ensures
        spec_step(pc, regs, instr, mem_rdata, false).pc == (if spec_branch_taken(regs, instr) {
            ((pc + spec_imm_gen(instr)) % 0x1_0000_0000) as u32
        } else {
            ((pc + 4) % 0x1_0000_0000) as u32
        }),
{
}

} // verus!
