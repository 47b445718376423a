use lx32_validator::memory_sim::MemorySim;
use lx32_validator::reg_generic::RegGeneric;
use lx32_validator::register_file::RegisterFile;

#[test]
fn register_file_starts_zeroed_and_reads_back_writes() {
    let mut rf = RegisterFile::new();
    for i in 0..32u8 {
        assert_eq!(rf.read_rs1(i), 0);
        assert_eq!(rf.read_rs2(i), 0);
    }
    rf.tick(false, 5, 0xDEAD_BEEF, true);
    assert_eq!(rf.read_rs1(5), 0xDEAD_BEEF);
    assert_eq!(rf.read_rs2(5), 0xDEAD_BEEF);
    assert_eq!(rf.get_reg(5), 0xDEAD_BEEF);
    assert_eq!(rf.read_rs1(6), 0);
}

#[test]
fn register_file_write_without_enable_is_ignored() {
    let mut rf = RegisterFile::new();
    rf.tick(false, 7, 0x1234_5678, false);
    assert_eq!(rf.read_rs1(7), 0);
}

#[test]
fn register_zero_ignores_writes() {
    let mut rf = RegisterFile::new();
    rf.tick(false, 0, 0xFFFF_FFFF, true);
    assert_eq!(rf.read_rs1(0), 0);
    assert_eq!(rf.read_rs2(0), 0);
    assert_eq!(rf.get_reg(0), 0);
}

#[test]
fn register_file_reset_clears_all_entries() {
    let mut rf = RegisterFile::new();
    for i in 1..32u8 {
        rf.tick(false, i, 0xAAAA_0000 + i as u32, true);
    }
    rf.tick(true, 3, 0x5555_5555, true);
    for i in 0..32u8 {
        assert_eq!(rf.read_rs1(i), 0);
    }
}

#[test]
fn generic_register_reset_write_hold() {
    let mut r = RegGeneric::new(32);
    assert_eq!(r.data_out, 0);
    r.tick(false, true, 0xCAFE_BABE);
    assert_eq!(r.data_out, 0xCAFE_BABE);
    r.tick(false, false, 0x1111_1111);
    assert_eq!(r.data_out, 0xCAFE_BABE);
    r.tick(true, true, 0x2222_2222);
    assert_eq!(r.data_out, 0);
}

#[test]
fn generic_register_masks_to_width() {
    let mut r = RegGeneric::new(8);
    r.tick(false, true, 0x1FF);
    assert_eq!(r.data_out, 0xFF);
    let mut r1 = RegGeneric::new(1);
    r1.tick(false, true, 0xFFFF_FFFE);
    assert_eq!(r1.data_out, 0);
}

#[test]
fn memory_starts_zeroed_and_reads_back_writes() {
    let mut m = MemorySim::new();
    assert_eq!(m.read_data(0), 0);
    assert_eq!(m.read_instr(0), 0);
    m.write_data(8, 0xDEAD_BEEF, true);
    assert_eq!(m.read_data(8), 0xDEAD_BEEF);
    assert_eq!(m.read_instr(8), 0xDEAD_BEEF);
    // word addressing: byte addresses 8..11 hit the same word
    assert_eq!(m.read_data(9), 0xDEAD_BEEF);
    assert_eq!(m.read_data(11), 0xDEAD_BEEF);
    assert_eq!(m.read_data(12), 0);
}

#[test]
fn memory_write_without_enable_is_ignored() {
    let mut m = MemorySim::new();
    m.write_data(16, 0x1234_5678, false);
    assert_eq!(m.read_data(16), 0);
}

#[test]
fn memory_masks_addresses_to_its_range() {
    let mut m = MemorySim::new();
    m.write_data(4, 0x0BAD_F00D, true);
    // 0x1004 maps onto the same word after masking to the 4 KB range
    assert_eq!(m.read_data(0x1004), 0x0BAD_F00D);
    assert_eq!(m.read_instr(0xFFFF_F004), 0x0BAD_F00D);
}

#[test]
fn memory_load_program_fills_from_word_zero() {
    let mut m = MemorySim::new();
    m.write_data(12, 0x5555_5555, true);
    m.load_program(&[0x0010_0093, 0x0020_0113]);
    assert_eq!(m.read_instr(0), 0x0010_0093);
    assert_eq!(m.read_instr(4), 0x0020_0113);
    // untouched words keep their contents
    assert_eq!(m.read_instr(12), 0x5555_5555);
}
