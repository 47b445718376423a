//! Control resolver: maps (opcode, funct3, funct7-bit) to the control-signal
//! bundle that steers the datapath for one cycle. Unrecognized opcodes
//! resolve to an inert bundle: no register write, no memory write, no branch.
use vstd::prelude::*;

use crate::alu::alu_op_e;
use crate::isa::opcode_t;

verus! {

/// Per-cycle control bundle.
#[derive(Debug, Clone, Copy, PartialEq, Eq, Structural)]
pub struct CtrlSignals {
    /// ALU operation selector.
    pub alu_control: alu_op_e,
    /// Operand-B source: true selects the generated immediate, false the
    /// rs2 register value.
    pub alu_src: bool,
    /// Branch enable: true only for the branch opcode.
    pub branch: bool,
    /// Memory write enable: true only for the store opcode.
    pub mem_write: bool,
    /// Register write enable: false for store and branch (and the inert
    /// bundle), true otherwise.
    pub reg_write: bool,
    /// Write-back source: true selects memory read data (load), false the
    /// ALU result.
    pub result_src: bool,
}

/// ALU operation for the register-register and immediate ALU families:
/// funct3 selects the operation; the funct7 bit distinguishes add/sub
/// (register-register only) and logical/arithmetic right shift.
pub open spec fn spec_alu_decode(op: opcode_t, funct3: u8, funct7_5: bool) -> alu_op_e {
    match op {
        opcode_t::OP_OP => match funct3 {
            0u8 => if funct7_5 {
                alu_op_e::ALU_SUB
            } else {
                alu_op_e::ALU_ADD
            },
            1u8 => alu_op_e::ALU_SLL,
            2u8 => alu_op_e::ALU_SLT,
            3u8 => alu_op_e::ALU_SLTU,
            4u8 => alu_op_e::ALU_XOR,
            5u8 => if funct7_5 {
                alu_op_e::ALU_SRA
            } else {
                alu_op_e::ALU_SRL
            },
            6u8 => alu_op_e::ALU_OR,
            _ => alu_op_e::ALU_AND,
        },
        opcode_t::OP_OP_IMM => match funct3 {
            0u8 => alu_op_e::ALU_ADD,
            1u8 => alu_op_e::ALU_SLL,
            2u8 => alu_op_e::ALU_SLT,
            3u8 => alu_op_e::ALU_SLTU,
            4u8 => alu_op_e::ALU_XOR,
            5u8 => if funct7_5 {
                alu_op_e::ALU_SRA
            } else {
                alu_op_e::ALU_SRL
            },
            6u8 => alu_op_e::ALU_OR,
            _ => alu_op_e::ALU_AND,
        },
        opcode_t::OP_BRANCH => alu_op_e::ALU_SUB,
        _ => alu_op_e::ALU_ADD,
    }
}

/// Operand-B selects the immediate for every immediate-carrying family.
pub open spec fn spec_alu_src(op: opcode_t) -> bool {
    match op {
        opcode_t::OP_LOAD | opcode_t::OP_STORE | opcode_t::OP_OP_IMM | opcode_t::OP_LUI
            | opcode_t::OP_AUIPC | opcode_t::OP_JAL | opcode_t::OP_JALR => true,
        _ => false,
    }
}

/// Register write-back is disabled for store, branch and invalid opcodes.
pub open spec fn spec_reg_write(op: opcode_t) -> bool {
    match op {
        opcode_t::OP_STORE | opcode_t::OP_BRANCH | opcode_t::OP_INVALID => false,
        _ => true,
    }
}

/// The control bundle resolved for one (opcode, funct3, funct7-bit) triple.
pub open spec fn spec_control(op: opcode_t, funct3: u8, funct7_5: bool) -> CtrlSignals {
    CtrlSignals {
        alu_control: spec_alu_decode(op, funct3, funct7_5),
        alu_src: spec_alu_src(op),
        branch: op == opcode_t::OP_BRANCH,
        mem_write: op == opcode_t::OP_STORE,
        reg_write: spec_reg_write(op),
        result_src: op == opcode_t::OP_LOAD,
    }
}

/// Combinational control resolver.
pub fn control_unit_golden(opcode: opcode_t, funct3: u8, funct7_5: bool) -> (r: CtrlSignals)
    ensures
        r == spec_control(opcode, funct3, funct7_5),
{
    let alu_control = match opcode {
        opcode_t::OP_OP => match funct3 {
            0 => if funct7_5 {
                alu_op_e::ALU_SUB
            } else {
                alu_op_e::ALU_ADD
            },
            1 => alu_op_e::ALU_SLL,
            2 => alu_op_e::ALU_SLT,
            3 => alu_op_e::ALU_SLTU,
            4 => alu_op_e::ALU_XOR,
            5 => if funct7_5 {
                alu_op_e::ALU_SRA
            } else {
                alu_op_e::ALU_SRL
            },
            6 => alu_op_e::ALU_OR,
            _ => alu_op_e::ALU_AND,
        },
        opcode_t::OP_OP_IMM => match funct3 {
            0 => alu_op_e::ALU_ADD,
            1 => alu_op_e::ALU_SLL,
            2 => alu_op_e::ALU_SLT,
            3 => alu_op_e::ALU_SLTU,
            4 => alu_op_e::ALU_XOR,
            5 => if funct7_5 {
                alu_op_e::ALU_SRA
            } else {
                alu_op_e::ALU_SRL
            },
            6 => alu_op_e::ALU_OR,
            _ => alu_op_e::ALU_AND,
        },
        opcode_t::OP_BRANCH => alu_op_e::ALU_SUB,
        _ => alu_op_e::ALU_ADD,
    };
    let alu_src = match opcode {
        opcode_t::OP_LOAD | opcode_t::OP_STORE | opcode_t::OP_OP_IMM | opcode_t::OP_LUI
            | opcode_t::OP_AUIPC | opcode_t::OP_JAL | opcode_t::OP_JALR => true,
        _ => false,
    };
    let reg_write = match opcode {
        opcode_t::OP_STORE | opcode_t::OP_BRANCH | opcode_t::OP_INVALID => false,
        _ => true,
    };
    CtrlSignals {
        alu_control,
        alu_src,
        branch: opcode == opcode_t::OP_BRANCH,
        mem_write: opcode == opcode_t::OP_STORE,
        reg_write,
        result_src: opcode == opcode_t::OP_LOAD,
    }
}

} // verus!
