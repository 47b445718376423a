use lx32_validator::branch::{branch_op_e, branch_unit_golden};

#[test]
fn equality_predicates() {
    assert!(branch_unit_golden(5, 5, true, branch_op_e::BR_EQ));
    assert!(!branch_unit_golden(5, 6, true, branch_op_e::BR_EQ));
    assert!(branch_unit_golden(5, 6, true, branch_op_e::BR_NE));
    assert!(!branch_unit_golden(5, 5, true, branch_op_e::BR_NE));
}

#[test]
fn signed_predicates() {
    // -1 < 0 signed
    assert!(branch_unit_golden(0xFFFF_FFFF, 0, true, branch_op_e::BR_LT));
    assert!(!branch_unit_golden(0, 0xFFFF_FFFF, true, branch_op_e::BR_LT));
    assert!(branch_unit_golden(0, 0xFFFF_FFFF, true, branch_op_e::BR_GE));
    assert!(branch_unit_golden(5, 5, true, branch_op_e::BR_GE));
}

#[test]
fn unsigned_predicates() {
    assert!(!branch_unit_golden(0xFFFF_FFFF, 0, true, branch_op_e::BR_LTU));
    assert!(branch_unit_golden(0, 0xFFFF_FFFF, true, branch_op_e::BR_LTU));
    assert!(branch_unit_golden(0xFFFF_FFFF, 0, true, branch_op_e::BR_GEU));
    assert!(branch_unit_golden(7, 7, true, branch_op_e::BR_GEU));
}

#[test]
fn branch_enable_gates_every_predicate() {
    // the predicate holds, but branch-enable is low
    assert!(!branch_unit_golden(5, 5, false, branch_op_e::BR_EQ));
    assert!(!branch_unit_golden(5, 6, false, branch_op_e::BR_NE));
    assert!(!branch_unit_golden(0xFFFF_FFFF, 0, false, branch_op_e::BR_LT));
    assert!(!branch_unit_golden(0, 0xFFFF_FFFF, false, branch_op_e::BR_GE));
    assert!(!branch_unit_golden(0, 1, false, branch_op_e::BR_LTU));
    assert!(!branch_unit_golden(1, 0, false, branch_op_e::BR_GEU));
}

#[test]
fn from_bits_decodes_the_six_codes() {
    assert_eq!(branch_op_e::from_bits(0b000), branch_op_e::BR_EQ);
    assert_eq!(branch_op_e::from_bits(0b001), branch_op_e::BR_NE);
    assert_eq!(branch_op_e::from_bits(0b100), branch_op_e::BR_LT);
    assert_eq!(branch_op_e::from_bits(0b101), branch_op_e::BR_GE);
    assert_eq!(branch_op_e::from_bits(0b110), branch_op_e::BR_LTU);
    assert_eq!(branch_op_e::from_bits(0b111), branch_op_e::BR_GEU);
}

#[test]
fn from_bits_defaults_to_eq() {
    assert_eq!(branch_op_e::from_bits(0b010), branch_op_e::BR_EQ);
    assert_eq!(branch_op_e::from_bits(0b011), branch_op_e::BR_EQ);
    assert_eq!(branch_op_e::from_bits(0xFF), branch_op_e::BR_EQ);
    assert_eq!(branch_op_e::default(), branch_op_e::BR_EQ);
}
