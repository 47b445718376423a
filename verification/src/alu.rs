//! Arithmetic/logic unit: the ten RV32I ALU operations over 32-bit words.
//! Addition and subtraction wrap modulo 2^32; shift amounts take only the low
//! five bits of operand B; the comparisons produce exactly 0 or 1.
use vstd::prelude::*;

use crate::bits::{as_signed, signed_lt};

verus! {

/// Selector for the ten ALU operations.
#[derive(Debug, Clone, Copy, PartialEq, Eq, Structural)]
pub enum alu_op_e {
    ALU_ADD,
    ALU_SUB,
    ALU_SLL,
    ALU_SRL,
    ALU_SRA,
    ALU_SLT,
    ALU_SLTU,
    ALU_XOR,
    ALU_OR,
    ALU_AND,
}

/// Arithmetic right shift: shift in copies of the sign bit.
pub open spec fn spec_sra(a: u32, sh: u32) -> u32 {
    if a >= 0x8000_0000 {
        (a >> sh) | !(0xFFFF_FFFFu32 >> sh)
    } else {
        a >> sh
    }
}

/// The value the ALU produces for operation `op` on operands `a` and `b`.
pub open spec fn spec_alu(op: alu_op_e, a: u32, b: u32) -> u32 {
    let sh = b & 0x1F;
    match op {
        alu_op_e::ALU_ADD => ((a + b) % 0x1_0000_0000) as u32,
        alu_op_e::ALU_SUB => ((a - b + 0x1_0000_0000) % 0x1_0000_0000) as u32,
        alu_op_e::ALU_SLL => a << sh,
        alu_op_e::ALU_SRL => a >> sh,
        alu_op_e::ALU_SRA => spec_sra(a, sh),
        alu_op_e::ALU_SLT => if as_signed(a) < as_signed(b) { 1u32 } else { 0u32 },
        alu_op_e::ALU_SLTU => if a < b { 1u32 } else { 0u32 },
        alu_op_e::ALU_XOR => a ^ b,
        alu_op_e::ALU_OR => a | b,
        alu_op_e::ALU_AND => a & b,
    }
}

/// Combinational ALU model.
pub fn alu_golden_model(src_a: u32, src_b: u32, alu_control: alu_op_e) -> (r: u32)
    ensures
        r == spec_alu(alu_control, src_a, src_b),
{
    let shamt = src_b & 0x1F;
    assert(src_b & 0x1F < 32) by (bit_vector);
    match alu_control {
        alu_op_e::ALU_ADD => src_a.wrapping_add(src_b),
        alu_op_e::ALU_SUB => src_a.wrapping_sub(src_b),
        alu_op_e::ALU_SLL => src_a << shamt,
        alu_op_e::ALU_SRL => src_a >> shamt,
        alu_op_e::ALU_SRA => {
            if src_a >= 0x8000_0000 {
                (src_a >> shamt) | !(0xFFFF_FFFFu32 >> shamt)
            } else {
                src_a >> shamt
            }
        },
        alu_op_e::ALU_SLT => {
            if signed_lt(src_a, src_b) {
                1
            } else {
                0
            }
        },
        alu_op_e::ALU_SLTU => {
            if src_a < src_b {
                1
            } else {
                0
            }
        },
        alu_op_e::ALU_XOR => src_a ^ src_b,
        alu_op_e::ALU_OR => src_a | src_b,
        alu_op_e::ALU_AND => src_a & src_b,
    }
}

/// Law: only the low five bits of operand B affect a shift; operands that
/// agree on those bits shift identically.
pub proof fn lemma_shift_uses_low5_only(op: alu_op_e, a: u32, b1: u32, b2: u32)
    requires
        b1 & 0x1F == b2 & 0x1F,
        op == alu_op_e::ALU_SLL || op == alu_op_e::ALU_SRL || op == alu_op_e::ALU_SRA,
    ensures
        spec_alu(op, a, b1) == spec_alu(op, a, b2),
{
}

/// Law: arithmetic right shift sign-extends; the result is negative exactly
/// when the input is.
pub proof fn lemma_sra_sign_extends(a: u32, b: u32)
    ensures
        (as_signed(spec_alu(alu_op_e::ALU_SRA, a, b)) < 0) == (as_signed(a) < 0),
{
    assert((a >= 0x8000_0000 ==> ((a >> (b & 0x1F)) | !(0xFFFF_FFFFu32 >> (b & 0x1F)))
        >= 0x8000_0000) && (a < 0x8000_0000 ==> (a >> (b & 0x1F)) < 0x8000_0000)) by (bit_vector);
}

} // verus!
