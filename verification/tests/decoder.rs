use ruscy_v::arch::decoder::{DecodeError, Instruction};

#[test]
fn test_decode32() {
    // LB x14, 267(x3)
    assert_eq!(Instruction::decode32(0x10B18703, false), Ok(Instruction::LB { rd: 14, rs1: 3, imm: 267 }));

    // ADDI x30, x20, -1036
    assert_eq!(Instruction::decode32(0xBF4A0F13, false), Ok(Instruction::ADDI { rd: 30, rs1: 20, imm: -1036 }));

    // ORI x10, x12, -33
    assert_eq!(Instruction::decode32(0xFDF66513, false), Ok(Instruction::ORI { rd: 10, rs1: 12, imm: -33 }));

    // SB x18, -1654(x6)
    assert_eq!(Instruction::decode32(0x99230523, false), Ok(Instruction::SB { rs1: 6, rs2: 18, imm: -1654 }));

    // SH x27, -1069(x21)
    assert_eq!(Instruction::decode32(0xBDBA99A3, false), Ok(Instruction::SH { rs1: 21, rs2: 27, imm: -1069 }));

    // SW x5, 1951(x8)
    assert_eq!(Instruction::decode32(0x78542FA3, false), Ok(Instruction::SW { rs1: 8, rs2: 5, imm: 1951 }));

    // BEQ x19, x14, 438
    assert_eq!(Instruction::decode32(0x36E98663, false), Ok(Instruction::BEQ { rs1: 19, rs2: 14, imm: 876 }));

    // BGE x7, x11, 2015
    assert_eq!(Instruction::decode32(0x7AB3DFE3, false), Ok(Instruction::BGE { rs1: 7, rs2: 11, imm: 4030 }));

    // BLTU x17, x6, -885
    assert_eq!(Instruction::decode32(0x9108EBE3, false), Ok(Instruction::BLTU { rs1: 17, rs2: 16, imm: -1770 }));

    // JAL x9, -1760(-3520)
    assert_eq!(Instruction::decode32(0xA40FF4EF, false), Ok(Instruction::JAL { rd: 9, imm: -3520 }));
}

#[test]
fn words_that_are_not_full_width_are_refused() {
    assert_eq!(Instruction::decode32(0x00000000, false), Err(DecodeError::UnsupportedLength));
    assert_eq!(Instruction::decode32(0x00000000, true), Err(DecodeError::UnsupportedLength));
    // A valid ADDI with each of the three other values in bits 1:0.
    assert_eq!(Instruction::decode32(0xBF4A0F10, false), Err(DecodeError::UnsupportedLength));
    assert_eq!(Instruction::decode32(0xBF4A0F11, false), Err(DecodeError::UnsupportedLength));
    assert_eq!(Instruction::decode32(0xBF4A0F12, true), Err(DecodeError::UnsupportedLength));
    assert_eq!(Instruction::decode32(0xFFFFFFFE, true), Err(DecodeError::UnsupportedLength));
}

#[test]
fn environment_instructions_are_single_words() {
    assert_eq!(Instruction::decode32(0x00000073, false), Ok(Instruction::ECALL));
    assert_eq!(Instruction::decode32(0x00010073, false), Ok(Instruction::EBREAK));
    assert_eq!(Instruction::decode32(0x00000073, true), Ok(Instruction::ECALL));
    assert_eq!(Instruction::decode32(0x00010073, true), Ok(Instruction::EBREAK));
    // Any other word with the same opcode and funct3.
    assert_eq!(Instruction::decode32(0x00100073, false), Err(DecodeError::MalformedSystem));
    assert_eq!(Instruction::decode32(0x000000F3, false), Err(DecodeError::MalformedSystem));
    assert_eq!(Instruction::decode32(0x00008073, true), Err(DecodeError::MalformedSystem));
    assert_eq!(Instruction::decode32(0xFFF00073, true), Err(DecodeError::MalformedSystem));
}

#[test]
fn fences_need_their_unused_fields_clear() {
    assert_eq!(Instruction::decode32(0x0330000F, false), Ok(Instruction::FENCE { succ: 3, pred: 3 }));
    assert_eq!(Instruction::decode32(0x0F50000F, true), Ok(Instruction::FENCE { succ: 5, pred: 15 }));
    assert_eq!(Instruction::decode32(0x0000000F, false), Ok(Instruction::FENCE { succ: 0, pred: 0 }));
    assert_eq!(Instruction::decode32(0x0000100F, false), Ok(Instruction::FENCE_I));
    assert_eq!(Instruction::decode32(0x0000100F, true), Ok(Instruction::FENCE_I));
    // rd set, rs1 set, bits 31:28 set.
    assert_eq!(Instruction::decode32(0x0330008F, false), Err(DecodeError::MalformedFence));
    assert_eq!(Instruction::decode32(0x0330800F, false), Err(DecodeError::MalformedFence));
    assert_eq!(Instruction::decode32(0x1330000F, false), Err(DecodeError::MalformedFence));
    // FENCE.I with an immediate, with rd, with rs1.
    assert_eq!(Instruction::decode32(0x0010100F, false), Err(DecodeError::MalformedFence));
    assert_eq!(Instruction::decode32(0x0000108F, true), Err(DecodeError::MalformedFence));
    assert_eq!(Instruction::decode32(0x0000900F, true), Err(DecodeError::MalformedFence));
    // Another funct3 under the same opcode.
    assert_eq!(Instruction::decode32(0x0000200F, false), Err(DecodeError::MalformedFence));
    assert_eq!(Instruction::decode32(0x0000700F, true), Err(DecodeError::MalformedFence));
}

#[test]
fn upper_immediates_are_stored_shifted() {
    assert_eq!(Instruction::decode32(0xFFFFF0B7, false), Ok(Instruction::LUI { rd: 1, imm: -4096 }));
    assert_eq!(Instruction::decode32(0x000010B7, false), Ok(Instruction::LUI { rd: 1, imm: 4096 }));
    assert_eq!(Instruction::decode32(0x80000297, true), Ok(Instruction::AUIPC { rd: 5, imm: -2147483648 }));
    assert_eq!(Instruction::decode32(0x7FFFFFB7, true), Ok(Instruction::LUI { rd: 31, imm: 0x7FFFF000 }));
}

#[test]
fn jumps_and_loads() {
    assert_eq!(Instruction::decode32(0x004100E7, false), Ok(Instruction::JALR { rd: 1, rs1: 2, imm: 4 }));
    assert_eq!(Instruction::decode32(0x004110E7, false), Err(DecodeError::UnknownEncoding));
    assert_eq!(Instruction::decode32(0xFFFF9F83, false), Ok(Instruction::LH { rd: 31, rs1: 31, imm: -1 }));
    assert_eq!(Instruction::decode32(0x00002003, false), Ok(Instruction::LW { rd: 0, rs1: 0, imm: 0 }));
    assert_eq!(Instruction::decode32(0xFF85C503, false), Ok(Instruction::LBU { rd: 10, rs1: 11, imm: -8 }));
    assert_eq!(Instruction::decode32(0x00315083, true), Ok(Instruction::LHU { rd: 1, rs1: 2, imm: 3 }));
    assert_eq!(Instruction::decode32(0x0085F503, true), Err(DecodeError::UnknownEncoding));
}

#[test]
fn branches_with_an_unused_funct3_are_unknown() {
    // BEQ x19, x14, 876 with funct3 2 and 3.
    assert_eq!(Instruction::decode32(0x36E9A663, false), Err(DecodeError::UnknownEncoding));
    assert_eq!(Instruction::decode32(0x36E9B663, true), Err(DecodeError::UnknownEncoding));
    assert_eq!(Instruction::decode32(0x36E99663, false), Ok(Instruction::BNE { rs1: 19, rs2: 14, imm: 876 }));
    assert_eq!(Instruction::decode32(0x36E9C663, false), Ok(Instruction::BLT { rs1: 19, rs2: 14, imm: 876 }));
    assert_eq!(Instruction::decode32(0x36E9F663, true), Ok(Instruction::BGEU { rs1: 19, rs2: 14, imm: 876 }));
}

#[test]
fn doubleword_accesses_exist_only_for_64_bit_registers() {
    assert_eq!(Instruction::decode32(0x0085B503, true), Ok(Instruction::LD { rd: 10, rs1: 11, imm: 8 }));
    assert_eq!(Instruction::decode32(0x0085B503, false), Err(DecodeError::UnknownEncoding));
    assert_eq!(Instruction::decode32(0x0085E503, true), Ok(Instruction::LWU { rd: 10, rs1: 11, imm: 8 }));
    assert_eq!(Instruction::decode32(0x0085E503, false), Err(DecodeError::UnknownEncoding));
    assert_eq!(Instruction::decode32(0x00543823, true), Ok(Instruction::SD { rs1: 8, rs2: 5, imm: 16 }));
    assert_eq!(Instruction::decode32(0x00543823, false), Err(DecodeError::UnknownEncoding));
    assert_eq!(Instruction::decode32(0x00544823, true), Err(DecodeError::UnknownEncoding));
}

#[test]
fn operations_on_an_immediate() {
    assert_eq!(Instruction::decode32(0x80042393, false), Ok(Instruction::SLTI { rd: 7, rs1: 8, imm: -2048 }));
    assert_eq!(Instruction::decode32(0x7FF43393, false), Ok(Instruction::SLTIU { rd: 7, rs1: 8, imm: 2047 }));
    assert_eq!(Instruction::decode32(0xFFF44393, true), Ok(Instruction::XORI { rd: 7, rs1: 8, imm: -1 }));
    assert_eq!(Instruction::decode32(0x0FF47393, true), Ok(Instruction::ANDI { rd: 7, rs1: 8, imm: 255 }));
}

#[test]
fn shifts_by_a_constant_use_the_width_of_the_registers() {
    assert_eq!(Instruction::decode32(0x00311093, false), Ok(Instruction::SLLI { rd: 1, rs1: 2, shamt: 3 }));
    assert_eq!(Instruction::decode32(0x00311093, true), Ok(Instruction::SLLI { rd: 1, rs1: 2, shamt: 3 }));
    // Bit 25 set: the sixth bit of the shift amount, for 64-bit registers only.
    assert_eq!(Instruction::decode32(0x02311093, true), Ok(Instruction::SLLI { rd: 1, rs1: 2, shamt: 35 }));
    assert_eq!(Instruction::decode32(0x02311093, false), Err(DecodeError::UnknownEncoding));
    assert_eq!(Instruction::decode32(0x02315093, true), Ok(Instruction::SRLI { rd: 1, rs1: 2, shamt: 35 }));
    assert_eq!(Instruction::decode32(0x02315093, false), Err(DecodeError::UnknownEncoding));
    assert_eq!(Instruction::decode32(0x00315093, false), Ok(Instruction::SRLI { rd: 1, rs1: 2, shamt: 3 }));
    assert_eq!(Instruction::decode32(0x40315093, false), Ok(Instruction::SRAI { rd: 1, rs1: 2, shamt: 3 }));
    assert_eq!(Instruction::decode32(0x40315093, true), Ok(Instruction::SRAI { rd: 1, rs1: 2, shamt: 3 }));
    assert_eq!(Instruction::decode32(0x41F15093, false), Ok(Instruction::SRAI { rd: 1, rs1: 2, shamt: 31 }));
    // The second pattern of SRAI for 64-bit registers.
    assert_eq!(Instruction::decode32(0x20315093, true), Ok(Instruction::SRAI { rd: 1, rs1: 2, shamt: 3 }));
    assert_eq!(Instruction::decode32(0x20315093, false), Err(DecodeError::UnknownEncoding));
    // No other funct7 selects a shift.
    assert_eq!(Instruction::decode32(0x42315093, true), Err(DecodeError::UnknownEncoding));
    assert_eq!(Instruction::decode32(0x04311093, true), Err(DecodeError::UnknownEncoding));
    assert_eq!(Instruction::decode32(0x04311093, false), Err(DecodeError::UnknownEncoding));
}

#[test]
fn word_operations_on_an_immediate() {
    assert_eq!(Instruction::decode32(0xFFF1009B, true), Ok(Instruction::ADDIW { rd: 1, rs1: 2, imm: -1 }));
    assert_eq!(Instruction::decode32(0xFFF1009B, false), Err(DecodeError::UnknownEncoding));
    assert_eq!(Instruction::decode32(0x0031109B, true), Ok(Instruction::SLLIW { rd: 1, rs1: 2, shamt: 3 }));
    assert_eq!(Instruction::decode32(0x0031509B, true), Ok(Instruction::SRLIW { rd: 1, rs1: 2, shamt: 3 }));
    assert_eq!(Instruction::decode32(0x4031509B, true), Ok(Instruction::SRAIW { rd: 1, rs1: 2, shamt: 3 }));
    assert_eq!(Instruction::decode32(0x0031109B, false), Err(DecodeError::UnknownEncoding));
    assert_eq!(Instruction::decode32(0x0231109B, true), Err(DecodeError::UnknownEncoding));
    assert_eq!(Instruction::decode32(0x0031209B, true), Err(DecodeError::UnknownEncoding));
}

#[test]
fn operations_on_two_registers() {
    assert_eq!(Instruction::decode32(0x005201B3, false), Ok(Instruction::ADD { rd: 3, rs1: 4, rs2: 5 }));
    assert_eq!(Instruction::decode32(0x405201B3, false), Ok(Instruction::SUB { rd: 3, rs1: 4, rs2: 5 }));
    assert_eq!(Instruction::decode32(0x005211B3, false), Ok(Instruction::SLL { rd: 3, rs1: 4, rs2: 5 }));
    assert_eq!(Instruction::decode32(0x005221B3, false), Ok(Instruction::SLT { rd: 3, rs1: 4, rs2: 5 }));
    assert_eq!(Instruction::decode32(0x005231B3, false), Ok(Instruction::SLTU { rd: 3, rs1: 4, rs2: 5 }));
    assert_eq!(Instruction::decode32(0x005241B3, true), Ok(Instruction::XOR { rd: 3, rs1: 4, rs2: 5 }));
    assert_eq!(Instruction::decode32(0x005251B3, true), Ok(Instruction::SRL { rd: 3, rs1: 4, rs2: 5 }));
    assert_eq!(Instruction::decode32(0x405251B3, true), Ok(Instruction::SRA { rd: 3, rs1: 4, rs2: 5 }));
    assert_eq!(Instruction::decode32(0x005261B3, true), Ok(Instruction::OR { rd: 3, rs1: 4, rs2: 5 }));
    assert_eq!(Instruction::decode32(0x005271B3, true), Ok(Instruction::AND { rd: 3, rs1: 4, rs2: 5 }));
    // The same opcode and funct3 with another funct7.
    assert_eq!(Instruction::decode32(0x025201B3, false), Err(DecodeError::UnknownEncoding));
    assert_eq!(Instruction::decode32(0x405211B3, true), Err(DecodeError::UnknownEncoding));
}

#[test]
fn word_operations_on_two_registers() {
    assert_eq!(Instruction::decode32(0x005201BB, true), Ok(Instruction::ADDW { rd: 3, rs1: 4, rs2: 5 }));
    assert_eq!(Instruction::decode32(0x405201BB, true), Ok(Instruction::SUBW { rd: 3, rs1: 4, rs2: 5 }));
    assert_eq!(Instruction::decode32(0x005211BB, true), Ok(Instruction::SLLW { rd: 3, rs1: 4, rs2: 5 }));
    assert_eq!(Instruction::decode32(0x005251BB, true), Ok(Instruction::SRLW { rd: 3, rs1: 4, rs2: 5 }));
    assert_eq!(Instruction::decode32(0x405251BB, true), Ok(Instruction::SRAW { rd: 3, rs1: 4, rs2: 5 }));
    assert_eq!(Instruction::decode32(0x005201BB, false), Err(DecodeError::UnknownEncoding));
    assert_eq!(Instruction::decode32(0x005221BB, true), Err(DecodeError::UnknownEncoding));
}

#[test]
fn accesses_to_control_and_status_registers() {
    assert_eq!(Instruction::decode32(0x300110F3, false), Ok(Instruction::CSRRW { rd: 1, rs1: 2, csr: 0x300 }));
    assert_eq!(Instruction::decode32(0x300120F3, false), Ok(Instruction::CSRRS { rd: 1, rs1: 2, csr: 0x300 }));
    assert_eq!(Instruction::decode32(0xFFF130F3, true), Ok(Instruction::CSRRC { rd: 1, rs1: 2, csr: 0xFFF }));
    assert_eq!(Instruction::decode32(0x300150F3, true), Ok(Instruction::CSRRWI { rd: 1, zimm: 2, csr: 0x300 }));
    assert_eq!(Instruction::decode32(0x300FE0F3, true), Ok(Instruction::CSRRSI { rd: 1, zimm: 31, csr: 0x300 }));
    assert_eq!(Instruction::decode32(0x300170F3, false), Ok(Instruction::CSRRCI { rd: 1, zimm: 2, csr: 0x300 }));
    assert_eq!(Instruction::decode32(0x00004073, false), Err(DecodeError::UnknownEncoding));
}

#[test]
fn opcodes_outside_the_base_set_are_unknown() {
    // A floating-point load, and the word with all bits set.
    assert_eq!(Instruction::decode32(0x00002007, false), Err(DecodeError::UnknownEncoding));
    assert_eq!(Instruction::decode32(0x00002007, true), Err(DecodeError::UnknownEncoding));
    assert_eq!(Instruction::decode32(0xFFFFFFFF, true), Err(DecodeError::UnknownEncoding));
    // An atomic operation and a multiply.
    assert_eq!(Instruction::decode32(0x0000202F, true), Err(DecodeError::UnknownEncoding));
    assert_eq!(Instruction::decode32(0x025201B3, true), Err(DecodeError::UnknownEncoding));
}
