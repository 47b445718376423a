//! RV32I base-ISA opcode families. Opcodes are the low 7 bits of an
//! instruction word; unrecognized encodings map to an explicit invalid
//! opcode for which the control resolver supplies an inert bundle.
use vstd::prelude::*;

verus! {

/// The instruction families the core decodes.
#[derive(Debug, Clone, Copy, PartialEq, Eq, Structural)]
pub enum opcode_t {
    OP_LUI,
    OP_AUIPC,
    OP_JAL,
    OP_JALR,
    OP_BRANCH,
    OP_LOAD,
    OP_STORE,
    OP_OP_IMM,
    OP_OP,
    OP_INVALID,
}

/// The opcode family selected by a raw 7-bit opcode field.
pub open spec fn spec_opcode_from_bits(bits: u8) -> opcode_t {
    match bits {
        0b0110111u8 => opcode_t::OP_LUI,
        0b0010111u8 => opcode_t::OP_AUIPC,
        0b1101111u8 => opcode_t::OP_JAL,
        0b1100111u8 => opcode_t::OP_JALR,
        0b1100011u8 => opcode_t::OP_BRANCH,
        0b0000011u8 => opcode_t::OP_LOAD,
        0b0100011u8 => opcode_t::OP_STORE,
        0b0010011u8 => opcode_t::OP_OP_IMM,
        0b0110011u8 => opcode_t::OP_OP,
        _ => opcode_t::OP_INVALID,
    }
}

impl opcode_t {
    /// Decode a raw 7-bit opcode field into an instruction family.
    pub fn from_bits(bits: u8) -> (r: Self)
        ensures
            r == spec_opcode_from_bits(bits),
    {
        match bits {
            0b0110111 => Self::OP_LUI,
            0b0010111 => Self::OP_AUIPC,
            0b1101111 => Self::OP_JAL,
            0b1100111 => Self::OP_JALR,
            0b1100011 => Self::OP_BRANCH,
            0b0000011 => Self::OP_LOAD,
            0b0100011 => Self::OP_STORE,
            0b0010011 => Self::OP_OP_IMM,
            0b0110011 => Self::OP_OP,
            _ => Self::OP_INVALID,
        }
    }
}

} // verus!
