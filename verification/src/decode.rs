//! Field decoder and immediate generator: extraction of the opcode, funct
//! and register-index fields from a 32-bit instruction word, and the five
//! sign-extended RV32I immediate encodings, selected by opcode.
use vstd::prelude::*;

use crate::bits::{sext12, sext13, sext21};

verus! {

/// Low 7 bits: the opcode field.
pub open spec fn spec_opcode_bits(instr: u32) -> u8 {
    (instr & 0x7F) as u8
}

/// Bits 14:12: the funct3 field.
pub open spec fn spec_funct3(instr: u32) -> u8 {
    ((instr >> 12) & 0x7) as u8
}

/// Bit 30: the funct7 discriminator bit (add/sub, logical/arithmetic shift).
pub open spec fn spec_funct7_5(instr: u32) -> bool {
    (instr >> 30) & 0x1 == 1
}

/// Bits 19:15: the first source register index.
pub open spec fn spec_rs1(instr: u32) -> u8 {
    ((instr >> 15) & 0x1F) as u8
}

/// Bits 24:20: the second source register index.
pub open spec fn spec_rs2(instr: u32) -> u8 {
    ((instr >> 20) & 0x1F) as u8
}

/// Bits 11:7: the destination register index.
pub open spec fn spec_rd(instr: u32) -> u8 {
    ((instr >> 7) & 0x1F) as u8
}

/// Extract the opcode field.
pub fn get_opcode_bits(instr: u32) -> (r: u8)
    ensures
        r == spec_opcode_bits(instr),
        r < 128,
{
    assert(instr & 0x7F < 128) by (bit_vector);
    (instr & 0x7F) as u8
}

/// Extract the funct3 field.
pub fn get_funct3(instr: u32) -> (r: u8)
    ensures
        r == spec_funct3(instr),
        r < 8,
{
    assert((instr >> 12) & 0x7 < 8) by (bit_vector);
    ((instr >> 12) & 0x7) as u8
}

/// Extract the funct7 discriminator bit.
pub fn get_funct7_5(instr: u32) -> (r: bool)
    ensures
        r == spec_funct7_5(instr),
{
    (instr >> 30) & 0x1 == 1
}

/// Extract the rs1 index.
pub fn get_rs1(instr: u32) -> (r: u8)
    ensures
        r == spec_rs1(instr),
        r < 32,
{
    assert((instr >> 15) & 0x1F < 32) by (bit_vector);
    ((instr >> 15) & 0x1F) as u8
}

/// Extract the rs2 index.
pub fn get_rs2(instr: u32) -> (r: u8)
    ensures
        r == spec_rs2(instr),
        r < 32,
{
    assert((instr >> 20) & 0x1F < 32) by (bit_vector);
    ((instr >> 20) & 0x1F) as u8
}

/// Extract the rd index.
pub fn get_rd(instr: u32) -> (r: u8)
    ensures
        r == spec_rd(instr),
        r < 32,
{
    assert((instr >> 7) & 0x1F < 32) by (bit_vector);
    ((instr >> 7) & 0x1F) as u8
}

/// I-format immediate: bits 31:20, sign-extended from bit 11.
pub open spec fn spec_i_imm(instr: u32) -> u32 {
    sext12(instr >> 20)
}

/// S-format immediate: bits 31:25 over bits 11:7, sign-extended from bit 11.
pub open spec fn spec_s_imm(instr: u32) -> u32 {
    sext12((((instr >> 25) & 0x7F) << 5) | ((instr >> 7) & 0x1F))
}

/// B-format immediate: bit 31, bit 7, bits 30:25, bits 11:8, an implicit
/// zero low bit, sign-extended from bit 12.
pub open spec fn spec_b_imm(instr: u32) -> u32 {
    sext13(
        (((instr >> 31) & 0x1) << 12) | (((instr >> 7) & 0x1) << 11) | (((instr >> 25) & 0x3F)
            << 5) | (((instr >> 8) & 0xF) << 1),
    )
}

/// U-format immediate: bits 31:12 in the upper 20 bits, low 12 bits zero.
pub open spec fn spec_u_imm(instr: u32) -> u32 {
    instr & 0xFFFF_F000
}

/// J-format immediate: bit 31, bits 19:12, bit 20, bits 30:21, an implicit
/// zero low bit, sign-extended from bit 20.
pub open spec fn spec_j_imm(instr: u32) -> u32 {
    sext21(
        (((instr >> 31) & 0x1) << 20) | (((instr >> 12) & 0xFF) << 12) | (((instr >> 20) & 0x1)
            << 11) | (((instr >> 21) & 0x3FF) << 1),
    )
}

/// Extract the I-format immediate.
pub fn get_i_imm(instr: u32) -> (r: u32)
    ensures
        r == spec_i_imm(instr),
{
    let x = instr >> 20;
    if x & 0x800 == 0 {
        x
    } else {
        x | 0xFFFF_F000
    }
}

/// Extract the S-format immediate.
pub fn get_s_imm(instr: u32) -> (r: u32)
    ensures
        r == spec_s_imm(instr),
{
    let x = (((instr >> 25) & 0x7F) << 5) | ((instr >> 7) & 0x1F);
    if x & 0x800 == 0 {
        x
    } else {
        x | 0xFFFF_F000
    }
}

/// Extract the B-format immediate.
pub fn get_b_imm(instr: u32) -> (r: u32)
    ensures
        r == spec_b_imm(instr),
{
    let x = (((instr >> 31) & 0x1) << 12) | (((instr >> 7) & 0x1) << 11) | (((instr >> 25) & 0x3F)
        << 5) | (((instr >> 8) & 0xF) << 1);
    if x & 0x1000 == 0 {
        x
    } else {
        x | 0xFFFF_E000
    }
}

/// Extract the U-format immediate.
pub fn get_u_imm(instr: u32) -> (r: u32)
    ensures
        r == spec_u_imm(instr),
{
    instr & 0xFFFF_F000
}

/// Extract the J-format immediate.
pub fn get_j_imm(instr: u32) -> (r: u32)
    ensures
        r == spec_j_imm(instr),
{
    let x = (((instr >> 31) & 0x1) << 20) | (((instr >> 12) & 0xFF) << 12) | (((instr >> 20) & 0x1)
        << 11) | (((instr >> 21) & 0x3FF) << 1);
    if x & 0x10_0000 == 0 {
        x
    } else {
        x | 0xFFE0_0000
    }
}

/// The immediate the generator emits: format selected by the opcode field,
/// 0 for the register-register family and for unrecognized opcodes.
pub open spec fn spec_imm_gen(instr: u32) -> u32 {
    let op = instr & 0x7F;
    if op == 0x13 || op == 0x03 || op == 0x67 {
        spec_i_imm(instr)
    } else if op == 0x23 {
        spec_s_imm(instr)
    } else if op == 0x63 {
        spec_b_imm(instr)
    } else if op == 0x37 || op == 0x17 {
        spec_u_imm(instr)
    } else if op == 0x6F {
        spec_j_imm(instr)
    } else {
        0
    }
}

/// Opcode-driven immediate selection and sign extension.
pub fn imm_gen_golden(instr: u32) -> (r: u32)
    ensures
        r == spec_imm_gen(instr),
{
    match instr & 0x7F {
        0x13 | 0x03 | 0x67 => get_i_imm(instr),
        0x23 => get_s_imm(instr),
        0x63 => get_b_imm(instr),
        0x37 | 0x17 => get_u_imm(instr),
        0x6F => get_j_imm(instr),
        _ => 0,
    }
}

} // verus!
