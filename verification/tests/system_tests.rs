use lx32_validator::encode::{encode_b, encode_lw};
use lx32_validator::lx32_system::Lx32System;

#[test]
fn addi_from_reset_state() {
    // ADDI x1, x0, 1 from PC 0 with all-zero registers
    let mut sys = Lx32System::new();
    let (alu_res, wdata, mem_we) = sys.step(0x0010_0093, 0, false);
    assert_eq!(sys.pc, 4);
    assert_eq!(sys.reg_file.read_rs1(1), 1);
    for i in 2..32u8 {
        assert_eq!(sys.reg_file.read_rs1(i), 0);
    }
    assert_eq!(sys.reg_file.read_rs1(0), 0);
    assert_eq!(alu_res, 1);
    assert_eq!(wdata, 0);
    assert!(!mem_we);
}

#[test]
fn store_word_emits_memory_interface() {
    // SW x1, 0(x2) with x1 = 0xDEADBEEF and x2 = 0
    let mut sys = Lx32System::new();
    sys.reg_file.tick(false, 1, 0xDEAD_BEEF, true);
    let (addr, wdata, mem_we) = sys.step(0x0011_2023, 0, false);
    assert_eq!(addr, 0);
    assert_eq!(wdata, 0xDEAD_BEEF);
    assert!(mem_we);
    assert_eq!(sys.pc, 4);
    // a store writes no register
    assert_eq!(sys.reg_file.read_rs1(1), 0xDEAD_BEEF);
    assert_eq!(sys.reg_file.read_rs1(0), 0);
}

#[test]
fn reset_forces_pc_and_registers_to_zero() {
    let mut sys = Lx32System::new();
    sys.reg_file.tick(false, 9, 0x1234_5678, true);
    sys.step(0x0010_0093, 0, false);
    assert_ne!(sys.pc, 0);
    let (addr, wdata, mem_we) = sys.step(0xFFFF_FFFF, 0xFFFF_FFFF, true);
    assert_eq!(sys.pc, 0);
    for i in 0..32u8 {
        assert_eq!(sys.reg_file.read_rs1(i), 0);
    }
    assert_eq!(addr, 0);
    assert_eq!(wdata, 0);
    assert!(!mem_we);
}

#[test]
fn taken_branch_adds_its_offset_to_pc() {
    // BEQ x0, x0, +64 always compares equal
    let mut sys = Lx32System::new();
    let beq = encode_b(64, 0, 0, 0);
    sys.step(beq, 0, false);
    assert_eq!(sys.pc, 64);
}

#[test]
fn untaken_branch_advances_pc_by_four() {
    // BNE x0, x0, +64 never compares unequal
    let mut sys = Lx32System::new();
    let bne = encode_b(64, 0, 0, 1);
    sys.step(bne, 0, false);
    assert_eq!(sys.pc, 4);
}

#[test]
fn backward_branch_wraps_through_the_pc() {
    // run one plain instruction to PC 4, then BEQ x0, x0, -4
    let mut sys = Lx32System::new();
    sys.step(0x0010_0093, 0, false);
    assert_eq!(sys.pc, 4);
    let beq_back = encode_b(0xFFFF_FFFC, 0, 0, 0);
    sys.step(beq_back, 0, false);
    assert_eq!(sys.pc, 0);
}

#[test]
fn load_writes_memory_data_back() {
    // LW x3, 0(x0) hands the caller-supplied memory word to x3
    let mut sys = Lx32System::new();
    let lw = encode_lw(3, 0, 0);
    let (addr, _, mem_we) = sys.step(lw, 0xCAFE_BABE, false);
    assert_eq!(sys.reg_file.read_rs1(3), 0xCAFE_BABE);
    assert_eq!(addr, 0);
    assert!(!mem_we);
}

#[test]
fn branch_compares_raw_registers_not_the_immediate() {
    // BLT x1, x2, +8 with x1 = 5, x2 = 9: the comparison must see 5 < 9,
    // even though operand B of the ALU is the immediate that cycle.
    let mut sys = Lx32System::new();
    sys.reg_file.tick(false, 1, 5, true);
    sys.reg_file.tick(false, 2, 9, true);
    let blt = encode_b(8, 1, 2, 4);
    sys.step(blt, 0, false);
    assert_eq!(sys.pc, 8);
}

#[test]
fn read_mem_assembles_little_endian_words() {
    let mut sys = Lx32System::new();
    sys.memory[0] = 0xEF;
    sys.memory[1] = 0xBE;
    sys.memory[2] = 0xAD;
    sys.memory[3] = 0xDE;
    assert_eq!(sys.read_mem(0), 0xDEAD_BEEF);
    assert_eq!(sys.read_mem(4), 0);
    // a read that would cross the end of memory returns 0
    assert_eq!(sys.read_mem(4093), 0);
    assert_eq!(sys.read_mem(0xFFFF_FFFF), 0);
}

#[test]
fn r_type_subtract_executes() {
    // x1 = 5, x2 = 12; SUB x3, x2, x1
    let mut sys = Lx32System::new();
    sys.reg_file.tick(false, 1, 5, true);
    sys.reg_file.tick(false, 2, 12, true);
    let sub: u32 = (0x20 << 25) | (1 << 20) | (2 << 15) | (0 << 12) | (3 << 7) | 0x33;
    let (alu_res, wdata, mem_we) = sys.step(sub, 0, false);
    assert_eq!(sys.reg_file.read_rs1(3), 7);
    assert_eq!(alu_res, 7);
    assert_eq!(wdata, 5);
    assert!(!mem_we);
}
