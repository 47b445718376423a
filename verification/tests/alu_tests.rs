use lx32_validator::alu::{alu_golden_model, alu_op_e};

#[test]
fn add_wraps_modulo_2_32() {
    assert_eq!(alu_golden_model(0xFFFF_FFFF, 1, alu_op_e::ALU_ADD), 0x0000_0000);
    assert_eq!(alu_golden_model(7, 5, alu_op_e::ALU_ADD), 12);
    assert_eq!(alu_golden_model(0x8000_0000, 0x8000_0000, alu_op_e::ALU_ADD), 0);
}

#[test]
fn sub_wraps_modulo_2_32() {
    assert_eq!(alu_golden_model(0, 1, alu_op_e::ALU_SUB), 0xFFFF_FFFF);
    assert_eq!(alu_golden_model(12, 5, alu_op_e::ALU_SUB), 7);
}

#[test]
fn shifts_use_only_low_five_bits_of_b() {
    assert_eq!(alu_golden_model(1, 0x20, alu_op_e::ALU_SLL), 1);
    assert_eq!(alu_golden_model(1, 0x00, alu_op_e::ALU_SLL), 1);
    assert_eq!(alu_golden_model(1, 0x21, alu_op_e::ALU_SLL), 2);
    assert_eq!(alu_golden_model(0x8000_0000, 0x3F, alu_op_e::ALU_SRL), 1);
}

#[test]
fn logical_shifts() {
    assert_eq!(alu_golden_model(0x1, 4, alu_op_e::ALU_SLL), 0x10);
    assert_eq!(alu_golden_model(0xF000_0000, 4, alu_op_e::ALU_SRL), 0x0F00_0000);
    assert_eq!(alu_golden_model(0x8000_0000, 31, alu_op_e::ALU_SRL), 1);
}

#[test]
fn arithmetic_shift_right_sign_extends() {
    assert_eq!(alu_golden_model(0x8000_0000, 4, alu_op_e::ALU_SRA), 0xF800_0000);
    assert_eq!(alu_golden_model(0x7000_0000, 4, alu_op_e::ALU_SRA), 0x0700_0000);
    assert_eq!(alu_golden_model(0xFFFF_FFFF, 31, alu_op_e::ALU_SRA), 0xFFFF_FFFF);
    assert_eq!(alu_golden_model(0x8000_0000, 0, alu_op_e::ALU_SRA), 0x8000_0000);
}

#[test]
fn set_less_than_signed() {
    // -1 < 0 signed
    assert_eq!(alu_golden_model(0xFFFF_FFFF, 0, alu_op_e::ALU_SLT), 1);
    assert_eq!(alu_golden_model(0, 0xFFFF_FFFF, alu_op_e::ALU_SLT), 0);
    assert_eq!(alu_golden_model(3, 7, alu_op_e::ALU_SLT), 1);
    assert_eq!(alu_golden_model(7, 3, alu_op_e::ALU_SLT), 0);
    assert_eq!(alu_golden_model(5, 5, alu_op_e::ALU_SLT), 0);
}

#[test]
fn set_less_than_unsigned() {
    assert_eq!(alu_golden_model(0xFFFF_FFFF, 0, alu_op_e::ALU_SLTU), 0);
    assert_eq!(alu_golden_model(0, 0xFFFF_FFFF, alu_op_e::ALU_SLTU), 1);
    assert_eq!(alu_golden_model(5, 5, alu_op_e::ALU_SLTU), 0);
}

#[test]
fn bitwise_operations() {
    assert_eq!(alu_golden_model(0xF0F0_F0F0, 0x0F0F_0F0F, alu_op_e::ALU_XOR), 0xFFFF_FFFF);
    assert_eq!(alu_golden_model(0xF0F0_F0F0, 0x0F0F_0F0F, alu_op_e::ALU_OR), 0xFFFF_FFFF);
    assert_eq!(alu_golden_model(0xF0F0_F0F0, 0x0F0F_0F0F, alu_op_e::ALU_AND), 0);
    assert_eq!(alu_golden_model(0xFF00_FF00, 0xFFFF_0000, alu_op_e::ALU_AND), 0xFF00_0000);
}
