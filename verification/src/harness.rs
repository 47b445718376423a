//! Differential harness logic: synthesis of randomized instruction words per
//! instruction family, the per-cycle comparison record, and the exact
//! equality predicates that decide whether a cycle passed or which error
//! aborts the run. Stepping the external reference core is the caller's
//! job; every decision about the outcome is made here.
use vstd::prelude::*;

use crate::decode::{get_opcode_bits, spec_funct3, spec_opcode_bits, spec_rd, spec_rs1, spec_rs2};
use crate::encode::{encode_b, encode_lw, encode_op_imm, encode_r, encode_sw};
use crate::lsu::MemInterface;
use crate::rng::draw_range;

verus! {

/// Paired per-cycle snapshots of the golden model and the reference core,
/// with the iteration index and the driving instruction word.
#[derive(Debug, Clone, Copy, PartialEq, Eq, Structural)]
pub struct CmpRecord {
    pub iteration: u32,
    pub instr: u32,
    pub gold_pc: u32,
    pub ref_pc: u32,
    pub gold_reg: u32,
    pub ref_reg: u32,
    pub gold_mem: MemInterface,
    pub ref_mem: MemInterface,
}

/// Which subset of architectural state the unit under test compares.
#[derive(Debug, Clone, Copy, PartialEq, Eq, Structural)]
pub struct CmpSelect {
    pub pc: bool,
    pub reg: bool,
    pub mem: bool,
}

/// The errors that abort a harness run, each carrying its diagnostic data.
#[derive(Debug, Clone, Copy, PartialEq, Eq, Structural)]
pub enum HarnessError {
    /// Register 0 observed non-zero: a modeling bug, not a user error.
    InvariantViolation { record: CmpRecord },
    /// PC or register value disagreement after a step.
    StateMismatch { record: CmpRecord },
    /// Memory-interface signals disagree after a step.
    MemoryMismatch { record: CmpRecord },
    /// A generator produced an instruction outside its intended family.
    EncodingMisuse { instr: u32, expected_opcode: u8 },
}

/// The selected PC and register values agree.
pub open spec fn spec_core_match(rec: CmpRecord, sel: CmpSelect) -> bool {
    (sel.pc ==> rec.gold_pc == rec.ref_pc) && (sel.reg ==> rec.gold_reg == rec.ref_reg)
}

/// The selected memory-interface signals agree.
pub open spec fn spec_mem_match(rec: CmpRecord, sel: CmpSelect) -> bool {
    sel.mem ==> rec.gold_mem == rec.ref_mem
}

/// Exact (bitwise) comparison of one cycle's records: Ok exactly when every
/// selected piece of state agrees; a PC/register disagreement reports
/// StateMismatch, a memory-interface disagreement MemoryMismatch.
pub fn compare_cycle(rec: &CmpRecord, sel: CmpSelect) -> (r: Result<(), HarnessError>)
    ensures
        r is Ok <==> (spec_core_match(*rec, sel) && spec_mem_match(*rec, sel)),
        !spec_core_match(*rec, sel) ==> r == Err::<(), HarnessError>(
            HarnessError::StateMismatch { record: *rec },
        ),
        spec_core_match(*rec, sel) && !spec_mem_match(*rec, sel) ==> r == Err::<(), HarnessError>(
            HarnessError::MemoryMismatch { record: *rec },
        ),
{
    if sel.pc && rec.gold_pc != rec.ref_pc {
        return Err(HarnessError::StateMismatch { record: *rec });
    }
    if sel.reg && rec.gold_reg != rec.ref_reg {
        return Err(HarnessError::StateMismatch { record: *rec });
    }
    if sel.mem && !(rec.gold_mem.mem_addr == rec.ref_mem.mem_addr && rec.gold_mem.mem_wdata
        == rec.ref_mem.mem_wdata && rec.gold_mem.mem_we == rec.ref_mem.mem_we) {
        return Err(HarnessError::MemoryMismatch { record: *rec });
    }
    Ok(())
}

/// Defensive hardwired-zero check on both models: Ok exactly when both
/// read register 0 as 0.
pub fn check_zero_invariant(gold_x0: u32, ref_x0: u32, rec: &CmpRecord) -> (r: Result<
    (),
    HarnessError,
>)
    ensures
        r is Ok <==> (gold_x0 == 0 && ref_x0 == 0),
        !(gold_x0 == 0 && ref_x0 == 0) ==> r == Err::<(), HarnessError>(
            HarnessError::InvariantViolation { record: *rec },
        ),
{
    if gold_x0 == 0 && ref_x0 == 0 {
        Ok(())
    } else {
        Err(HarnessError::InvariantViolation { record: *rec })
    }
}

/// Defensive family check on a synthesized word: Ok exactly when its
/// opcode field is the targeted family's.
pub fn check_encoding(instr: u32, expected_opcode: u8) -> (r: Result<(), HarnessError>)
    ensures
        r is Ok <==> spec_opcode_bits(instr) == expected_opcode,
        spec_opcode_bits(instr) != expected_opcode ==> r == Err::<(), HarnessError>(
            HarnessError::EncodingMisuse { instr, expected_opcode },
        ),
{
    if get_opcode_bits(instr) == expected_opcode {
        Ok(())
    } else {
        Err(HarnessError::EncodingMisuse { instr, expected_opcode })
    }
}

/// Draw one of the funct3 codes the ALU-immediate fuzz family exercises
/// (add, set-less-than, xor, or, and).
pub fn pick_alu_funct3(rng: &mut rand::rngs::StdRng) -> (r: u8)
    ensures
        r == 0 || r == 2 || r == 4 || r == 6 || r == 7,
{
    match draw_range(rng, 0, 5) {
        0 => 0,
        1 => 2,
        2 => 4,
        3 => 6,
        _ => 7,
    }
}

/// Draw one of the six branch funct3 codes.
pub fn pick_branch_funct3(rng: &mut rand::rngs::StdRng) -> (r: u8)
    ensures
        r == 0 || r == 1 || r == 4 || r == 5 || r == 6 || r == 7,
{
    match draw_range(rng, 0, 6) {
        0 => 0,
        1 => 1,
        2 => 4,
        3 => 5,
        4 => 6,
        _ => 7,
    }
}

/// Synthesize a register-register ALU instruction with register indices
/// drawn from the configured ranges.
pub fn synth_r_instr(rng: &mut rand::rngs::StdRng, rd_lo: u32, rd_hi: u32, rs_lo: u32, rs_hi: u32) -> (r:
    u32)
    requires
        rd_lo < rd_hi <= 32,
        rs_lo < rs_hi <= 32,
    ensures
        spec_opcode_bits(r) == 0x33,
        rd_lo <= spec_rd(r) < rd_hi,
        rs_lo <= spec_rs1(r) < rs_hi,
        rs_lo <= spec_rs2(r) < rs_hi,
{
    let rd = draw_range(rng, rd_lo, rd_hi) as u8;
    let rs1 = draw_range(rng, rs_lo, rs_hi) as u8;
    let rs2 = draw_range(rng, rs_lo, rs_hi) as u8;
    let funct3 = draw_range(rng, 0, 8) as u8;
    let funct7_5 = draw_range(rng, 0, 2) == 1;
    encode_r(funct7_5, rs2, rs1, funct3, rd)
}

/// Synthesize an immediate ALU instruction: registers and the raw 12-bit
/// immediate field drawn from the configured ranges, funct3 from the ALU
/// fuzz set.
pub fn synth_op_imm_instr(
    rng: &mut rand::rngs::StdRng,
    rd_lo: u32,
    rd_hi: u32,
    rs_lo: u32,
    rs_hi: u32,
    imm_lo: u32,
    imm_hi: u32,
) -> (r: u32)
    requires
        rd_lo < rd_hi <= 32,
        rs_lo < rs_hi <= 32,
        imm_lo < imm_hi <= 4096,
    ensures
        spec_opcode_bits(r) == 0x13,
        rd_lo <= spec_rd(r) < rd_hi,
        rs_lo <= spec_rs1(r) < rs_hi,
        imm_lo <= r >> 20 < imm_hi,
        spec_funct3(r) == 0 || spec_funct3(r) == 2 || spec_funct3(r) == 4 || spec_funct3(r) == 6
            || spec_funct3(r) == 7,
{
    let rd = draw_range(rng, rd_lo, rd_hi) as u8;
    let rs1 = draw_range(rng, rs_lo, rs_hi) as u8;
    let imm = draw_range(rng, imm_lo, imm_hi);
    let funct3 = pick_alu_funct3(rng);
    assert(imm < 4096 ==> imm & 0xFFF == imm) by (bit_vector);
    encode_op_imm(imm, rs1, funct3, rd)
}

/// Synthesize a load-word instruction with a 12-bit immediate field drawn
/// from the configured range.
pub fn synth_lw_instr(
    rng: &mut rand::rngs::StdRng,
    rd_lo: u32,
    rd_hi: u32,
    rs_lo: u32,
    rs_hi: u32,
    imm_lo: u32,
    imm_hi: u32,
) -> (r: u32)
    requires
        rd_lo < rd_hi <= 32,
        rs_lo < rs_hi <= 32,
        imm_lo < imm_hi <= 4096,
    ensures
        spec_opcode_bits(r) == 0x03,
        spec_funct3(r) == 2,
        rd_lo <= spec_rd(r) < rd_hi,
        rs_lo <= spec_rs1(r) < rs_hi,
        imm_lo <= r >> 20 < imm_hi,
{
    let rd = draw_range(rng, rd_lo, rd_hi) as u8;
    let rs1 = draw_range(rng, rs_lo, rs_hi) as u8;
    let imm = draw_range(rng, imm_lo, imm_hi);
    assert(imm < 4096 ==> imm & 0xFFF == imm) by (bit_vector);
    encode_lw(rd, rs1, imm)
}

/// Synthesize a store-word instruction with a 12-bit immediate field drawn
/// from the configured range.
pub fn synth_sw_instr(
    rng: &mut rand::rngs::StdRng,
    rs_lo: u32,
    rs_hi: u32,
    imm_lo: u32,
    imm_hi: u32,
) -> (r: u32)
    requires
        rs_lo < rs_hi <= 32,
        imm_lo < imm_hi <= 4096,
    ensures
        spec_opcode_bits(r) == 0x23,
        spec_funct3(r) == 2,
        rs_lo <= spec_rs1(r) < rs_hi,
        rs_lo <= spec_rs2(r) < rs_hi,
{
    let rs1 = draw_range(rng, rs_lo, rs_hi) as u8;
    let rs2 = draw_range(rng, rs_lo, rs_hi) as u8;
    let imm = draw_range(rng, imm_lo, imm_hi);
    assert(imm < 4096 ==> imm & 0xFFF == imm) by (bit_vector);
    encode_sw(rs1, rs2, imm)
}

/// Synthesize a conditional branch: registers drawn from the configured
/// range, the branch condition from the six codes, and an even offset drawn
/// over `offset_codes` 13-bit codes (the low half positive, the high half
/// negative once past 4096).
pub fn synth_b_instr(
    rng: &mut rand::rngs::StdRng,
    rs_lo: u32,
    rs_hi: u32,
    offset_codes: u32,
) -> (r: u32)
    requires
        rs_lo < rs_hi <= 32,
        1 <= offset_codes <= 4096,
    ensures
        spec_opcode_bits(r) == 0x63,
        rs_lo <= spec_rs1(r) < rs_hi,
        rs_lo <= spec_rs2(r) < rs_hi,
        spec_funct3(r) == 0 || spec_funct3(r) == 1 || spec_funct3(r) == 4 || spec_funct3(r) == 5
            || spec_funct3(r) == 6 || spec_funct3(r) == 7,
{
    let rs1 = draw_range(rng, rs_lo, rs_hi) as u8;
    let rs2 = draw_range(rng, rs_lo, rs_hi) as u8;
    let funct3 = pick_branch_funct3(rng);
    let k = draw_range(rng, 0, offset_codes);
    let raw = k << 1;
    let offset = if raw & 0x1000 == 0 {
        raw
    } else {
        raw | 0xFFFF_E000
    };
    encode_b(offset, rs1, rs2, funct3)
}

} // verus!
