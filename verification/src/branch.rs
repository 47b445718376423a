//! Branch unit: six relational predicates over the raw register operands,
//! gated by the branch-enable control signal. Undefined 3-bit codes fall back
//! to the equality predicate.
use vstd::prelude::*;

use crate::bits::{as_signed, signed_lt};

verus! {

/// Selector for the six branch comparison predicates.
#[derive(Debug, Clone, Copy, PartialEq, Eq, Structural)]
pub enum branch_op_e {
    BR_EQ,
    BR_NE,
    BR_LT,
    BR_GE,
    BR_LTU,
    BR_GEU,
}

impl Default for branch_op_e {
    fn default() -> (r: Self)
        ensures
            r == branch_op_e::BR_EQ,
    {
        branch_op_e::BR_EQ
    }
}

/// The branch operation selected by a raw funct3 field; undefined codes
/// resolve to the equality predicate.
pub open spec fn spec_branch_from_bits(bits: u8) -> branch_op_e {
    match bits {
        0b000u8 => branch_op_e::BR_EQ,
        0b001u8 => branch_op_e::BR_NE,
        0b100u8 => branch_op_e::BR_LT,
        0b101u8 => branch_op_e::BR_GE,
        0b110u8 => branch_op_e::BR_LTU,
        0b111u8 => branch_op_e::BR_GEU,
        _ => branch_op_e::BR_EQ,
    }
}

impl branch_op_e {
    /// Decode a raw 3-bit funct3 field into a branch operation.
    pub fn from_bits(bits: u8) -> (r: Self)
        ensures
            r == spec_branch_from_bits(bits),
    {
        match bits {
            0b000 => Self::BR_EQ,
            0b001 => Self::BR_NE,
            0b100 => Self::BR_LT,
            0b101 => Self::BR_GE,
            0b110 => Self::BR_LTU,
            0b111 => Self::BR_GEU,
            _ => Self::BR_EQ,
        }
    }
}

/// The comparison each branch predicate makes on the raw register values.
pub open spec fn spec_branch_pred(op: branch_op_e, a: u32, b: u32) -> bool {
    match op {
        branch_op_e::BR_EQ => a == b,
        branch_op_e::BR_NE => a != b,
        branch_op_e::BR_LT => as_signed(a) < as_signed(b),
        branch_op_e::BR_GE => as_signed(a) >= as_signed(b),
        branch_op_e::BR_LTU => a < b,
        branch_op_e::BR_GEU => a >= b,
    }
}

/// Branch evaluation: the selected predicate on the raw rs1/rs2 values,
/// AND-gated by the branch-enable signal. The operands are never the
/// immediate-muxed ALU inputs.
pub fn branch_unit_golden(src_a: u32, src_b: u32, is_branch: bool, branch_op: branch_op_e) -> (r:
    bool)
    ensures
        r == (is_branch && spec_branch_pred(branch_op, src_a, src_b)),
{
    let compare_result: bool = match branch_op {
        branch_op_e::BR_EQ => src_a == src_b,
        branch_op_e::BR_NE => src_a != src_b,
        branch_op_e::BR_LT => signed_lt(src_a, src_b),
        branch_op_e::BR_GE => !signed_lt(src_a, src_b),
        branch_op_e::BR_LTU => src_a < src_b,
        branch_op_e::BR_GEU => src_a >= src_b,
    };
    is_branch && compare_result
}

} // verus!
