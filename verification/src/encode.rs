//! Instruction encoders for the differential harness: build legally encoded
//! words of each targeted instruction family from field values. Each contract
//! pins the fields the decoder will extract, and for immediates states the
//! exact round trip back through the immediate generator.
use vstd::prelude::*;

use crate::bits::sext12;
use crate::decode::{
    spec_b_imm, spec_funct3, spec_funct7_5, spec_i_imm, spec_opcode_bits, spec_rd, spec_rs1,
    spec_rs2, spec_s_imm,
};

verus! {

/// Encode a register-register ALU instruction (R-format).
pub fn encode_r(funct7_5: bool, rs2: u8, rs1: u8, funct3: u8, rd: u8) -> (r: u32)
    requires
        rs1 < 32,
        rs2 < 32,
        rd < 32,
        funct3 < 8,
    ensures
        spec_opcode_bits(r) == 0x33,
        spec_funct3(r) == funct3,
        spec_funct7_5(r) == funct7_5,
        spec_rs1(r) == rs1,
        spec_rs2(r) == rs2,
        spec_rd(r) == rd,
{
    let f7: u32 = if funct7_5 {
        0x20
    } else {
        0
    };
    let word = (f7 << 25) | ((rs2 as u32) << 20) | ((rs1 as u32) << 15) | ((funct3 as u32) << 12)
        | ((rd as u32) << 7) | 0x33;
    proof {
        let r1 = rs1 as u32;
        let r2 = rs2 as u32;
        let f3 = funct3 as u32;
        let rdv = rd as u32;
        assert((word & 0x7F) == 0x33 && ((word >> 12) & 0x7) == f3 && ((word >> 30) & 0x1) == (
        if f7 == 0x20 {
            1u32
        } else {
            0u32
        }) && ((word >> 15) & 0x1F) == r1 && ((word >> 20) & 0x1F) == r2 && ((word >> 7) & 0x1F)
            == rdv) by (bit_vector)
            requires
                word == (f7 << 25) | (r2 << 20) | (r1 << 15) | (f3 << 12) | (rdv << 7) | 0x33,
                r1 < 32,
                r2 < 32,
                rdv < 32,
                f3 < 8,
                f7 == 0x20 || f7 == 0,
        ;
    }
    word
}

/// Encode an immediate ALU instruction (I-format, ALU-immediate opcode).
/// An immediate already representable in signed 12 bits round-trips exactly
/// through the immediate generator.
pub fn encode_op_imm(imm: u32, rs1: u8, funct3: u8, rd: u8) -> (r: u32)
    requires
        rs1 < 32,
        rd < 32,
        funct3 < 8,
    ensures
        spec_opcode_bits(r) == 0x13,
        spec_funct3(r) == funct3,
        spec_rs1(r) == rs1,
        spec_rd(r) == rd,
        spec_i_imm(r) == sext12(imm & 0xFFF),
        r >> 20 == imm & 0xFFF,
        (imm < 2048 || imm >= 0xFFFF_F800) ==> spec_i_imm(r) == imm,
{
    let word = ((imm & 0xFFF) << 20) | ((rs1 as u32) << 15) | ((funct3 as u32) << 12) | ((
    rd as u32) << 7) | 0x13;
    proof {
        let r1 = rs1 as u32;
        let f3 = funct3 as u32;
        let rdv = rd as u32;
        assert((word & 0x7F) == 0x13 && ((word >> 12) & 0x7) == f3 && ((word >> 15) & 0x1F) == r1
            && ((word >> 7) & 0x1F) == rdv && (word >> 20) == (imm & 0xFFF) && (imm < 2048 ==> ((imm
            & 0xFFF) & 0x800) == 0 && (imm & 0xFFF) == imm) && (imm >= 0xFFFF_F800 ==> ((imm
            & 0xFFF) & 0x800) != 0 && ((imm & 0xFFF) | 0xFFFF_F000) == imm)) by (bit_vector)
            requires
                word == ((imm & 0xFFF) << 20) | (r1 << 15) | (f3 << 12) | (rdv << 7) | 0x13,
                r1 < 32,
                rdv < 32,
                f3 < 8,
        ;
    }
    word
}

/// Encode a load-word instruction (I-format, load opcode, funct3 = 2).
pub fn encode_lw(rd: u8, rs1: u8, imm: u32) -> (r: u32)
    requires
        rs1 < 32,
        rd < 32,
    ensures
        spec_opcode_bits(r) == 0x03,
        spec_funct3(r) == 2,
        spec_rs1(r) == rs1,
        spec_rd(r) == rd,
        spec_i_imm(r) == sext12(imm & 0xFFF),
        r >> 20 == imm & 0xFFF,
        (imm < 2048 || imm >= 0xFFFF_F800) ==> spec_i_imm(r) == imm,
{
    let word = ((imm & 0xFFF) << 20) | ((rs1 as u32) << 15) | (0x2u32 << 12) | ((rd as u32) << 7)
        | 0x03;
    proof {
        let r1 = rs1 as u32;
        let rdv = rd as u32;
        assert((word & 0x7F) == 0x03 && ((word >> 12) & 0x7) == 2 && ((word >> 15) & 0x1F) == r1
            && ((word >> 7) & 0x1F) == rdv && (word >> 20) == (imm & 0xFFF) && (imm < 2048 ==> ((imm
            & 0xFFF) & 0x800) == 0 && (imm & 0xFFF) == imm) && (imm >= 0xFFFF_F800 ==> ((imm
            & 0xFFF) & 0x800) != 0 && ((imm & 0xFFF) | 0xFFFF_F000) == imm)) by (bit_vector)
            requires
                word == ((imm & 0xFFF) << 20) | (r1 << 15) | (0x2u32 << 12) | (rdv << 7) | 0x03,
                r1 < 32,
                rdv < 32,
        ;
    }
    word
}

/// Encode a store-word instruction (S-format, funct3 = 2).
pub fn encode_sw(rs1: u8, rs2: u8, imm: u32) -> (r: u32)
    requires
        rs1 < 32,
        rs2 < 32,
    ensures
        spec_opcode_bits(r) == 0x23,
        spec_funct3(r) == 2,
        spec_rs1(r) == rs1,
        spec_rs2(r) == rs2,
        spec_s_imm(r) == sext12(imm & 0xFFF),
        ((((r >> 25) & 0x7F) << 5) | ((r >> 7) & 0x1F)) == imm & 0xFFF,
        (imm < 2048 || imm >= 0xFFFF_F800) ==> spec_s_imm(r) == imm,
{
    let imm12 = imm & 0xFFF;
    let word = (((imm12 >> 5) & 0x7F) << 25) | ((rs2 as u32) << 20) | ((rs1 as u32) << 15) | (
    0x2u32 << 12) | ((imm12 & 0x1F) << 7) | 0x23;
    proof {
        let r1 = rs1 as u32;
        let r2 = rs2 as u32;
        assert((word & 0x7F) == 0x23 && ((word >> 12) & 0x7) == 2 && ((word >> 15) & 0x1F) == r1
            && ((word >> 20) & 0x1F) == r2 && ((((word >> 25) & 0x7F) << 5) | ((word >> 7) & 0x1F))
            == (imm & 0xFFF) && (imm < 2048 ==> ((imm & 0xFFF) & 0x800) == 0 && (imm & 0xFFF)
            == imm) && (imm >= 0xFFFF_F800 ==> ((imm & 0xFFF) & 0x800) != 0 && ((imm & 0xFFF)
            | 0xFFFF_F000) == imm)) by (bit_vector)
            requires
                word == ((((imm & 0xFFF) >> 5) & 0x7F) << 25) | (r2 << 20) | (r1 << 15) | (0x2u32
                    << 12) | (((imm & 0xFFF) & 0x1F) << 7) | 0x23,
                r1 < 32,
                r2 < 32,
        ;
    }
    word
}

/// Encode a conditional branch (B-format). An even offset representable in
/// signed 13 bits round-trips exactly through the immediate generator.
pub fn encode_b(offset: u32, rs1: u8, rs2: u8, funct3: u8) -> (r: u32)
    requires
        rs1 < 32,
        rs2 < 32,
        funct3 < 8,
    ensures
        spec_opcode_bits(r) == 0x63,
        spec_funct3(r) == funct3,
        spec_rs1(r) == rs1,
        spec_rs2(r) == rs2,
        (offset & 1 == 0 && (offset < 4096 || offset >= 0xFFFF_F000)) ==> spec_b_imm(r) == offset,
{
    let word = (((offset >> 12) & 0x1) << 31) | (((offset >> 5) & 0x3F) << 25) | ((rs2 as u32)
        << 20) | ((rs1 as u32) << 15) | ((funct3 as u32) << 12) | (((offset >> 1) & 0xF) << 8) | ((
    (offset >> 11) & 0x1) << 7) | 0x63;
    proof {
        let r1 = rs1 as u32;
        let r2 = rs2 as u32;
        let f3 = funct3 as u32;
        assert((word & 0x7F) == 0x63 && ((word >> 12) & 0x7) == f3 && ((word >> 15) & 0x1F) == r1
            && ((word >> 20) & 0x1F) == r2 && ((offset & 1 == 0 && (offset < 4096 || offset
            >= 0xFFFF_F000)) ==> ({
            let imm_field = (((word >> 31) & 0x1) << 12) | (((word >> 7) & 0x1) << 11) | (((word >> 25)
                & 0x3F) << 5) | (((word >> 8) & 0xF) << 1);
            if imm_field & 0x1000 == 0 {
                imm_field
            } else {
                imm_field | 0xFFFF_E000u32
            }
        }) == offset)) by (bit_vector)
            requires
                word == (((offset >> 12) & 0x1) << 31) | (((offset >> 5) & 0x3F) << 25) | (r2 << 20)
                    | (r1 << 15) | (f3 << 12) | (((offset >> 1) & 0xF) << 8) | (((offset >> 11)
                    & 0x1) << 7) | 0x63,
                r1 < 32,
                r2 < 32,
                f3 < 8,
        ;
    }
    word
}

} // verus!
