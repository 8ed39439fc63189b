//! What each instruction word means.
//!
//! [`decoded`] is the table of the base integer instruction set, one entry
//! per mnemonic: the values of opcode, `funct3` and `funct7` that select the
//! mnemonic, and the fields and immediate that become its operands.

use crate::arch::constants::funct3;
use crate::arch::constants::funct7;
use crate::arch::constants::opcode;
use crate::arch::decoder::DecodeError;
use crate::arch::decoder::Instruction;
use crate::arch::fields::{
    csr_field, funct3_field, funct7_field, is_full_width, opcode_field, pred_field, rd_field,
    rs1_field, rs2_field, shamt_field, succ_field, top_nibble,
};
use crate::arch::immediates::{b_imm, i_imm, j_imm, s_imm, u_imm};
use vstd::prelude::*;

verus! {

/// The second `funct7` pattern that selects `SLLI` where registers are 64
/// bits wide: bit 25 of the word is the top bit of the six-bit shift amount.
pub const SLLI_WIDE: u8 = 0b0000001;

/// The second `funct7` pattern that selects `SRLI` where registers are 64
/// bits wide: bit 25 of the word is the top bit of the six-bit shift amount.
pub const SRLI_WIDE: u8 = 0b0000001;

/// The second `funct7` pattern that selects `SRAI` where registers are 64
/// bits wide.
pub const SRAI_WIDE: u8 = 0b0010000;

/// The one word that is `ECALL`.
pub const ECALL_WORD: u32 = 0x0000_0073;

/// The one word that is `EBREAK`.
pub const EBREAK_WORD: u32 = 0x0001_0073;

/// `funct7` selects a shift by a constant whose pattern is `narrow`: it is
/// that pattern or, where registers are 64 bits wide, the pattern `wide`.
pub open spec fn selects_shift(rv64: bool, f7: u8, narrow: u8, wide: u8) -> bool {
    f7 == narrow || (rv64 && f7 == wide)
}

/// `word` has the form of a `FENCE`: `rd`, `rs1`, `funct3` and bits 31:28
/// are all zero.
pub open spec fn is_fence(word: u32) -> bool {
    &&& rd_field(word) == 0
    &&& rs1_field(word) == 0
    &&& funct3_field(word) == funct3::FENCE
    &&& top_nibble(word) == 0
}

/// `word` has the form of a `FENCE.I`: `funct3` is 1, and `rd`, `rs1` and
/// the immediate are zero.
pub open spec fn is_fence_i(word: u32) -> bool {
    &&& rd_field(word) == 0
    &&& rs1_field(word) == 0
    &&& funct3_field(word) == funct3::FENCE_I
    &&& i_imm(word) == 0
}

/// Opcode, `funct3` and `funct7` together select an entry of the table.
///
/// Behind the opcode of the fences, and behind the `funct3` of the
/// environment instructions, this does not yet make an instruction: there
/// the rest of the word decides.
pub open spec fn known_encoding(rv64: bool, op: u8, f3: u8, f7: u8) -> bool {
    ||| op == opcode::LUI
    ||| op == opcode::AUIPC
    ||| op == opcode::JAL
    ||| op == opcode::JALR && f3 == funct3::JALR
    ||| op == opcode::BRANCH && {
        ||| f3 == funct3::BEQ
        ||| f3 == funct3::BNE
        ||| f3 == funct3::BLT
        ||| f3 == funct3::BGE
        ||| f3 == funct3::BLTU
        ||| f3 == funct3::BGEU
    }
    ||| op == opcode::LOAD && {
        ||| f3 == funct3::LB
        ||| f3 == funct3::LH
        ||| f3 == funct3::LW
        ||| f3 == funct3::LBU
        ||| f3 == funct3::LHU
        ||| rv64 && f3 == funct3::LWU
        ||| rv64 && f3 == funct3::LD
    }
    ||| op == opcode::STORE && {
        ||| f3 == funct3::SB
        ||| f3 == funct3::SH
        ||| f3 == funct3::SW
        ||| rv64 && f3 == funct3::SD
    }
    ||| op == opcode::OP_IMM && {
        ||| f3 == funct3::ADDI
        ||| f3 == funct3::SLTI
        ||| f3 == funct3::SLTIU
        ||| f3 == funct3::XORI
        ||| f3 == funct3::ORI
        ||| f3 == funct3::ANDI
        ||| f3 == funct3::SLLI && selects_shift(rv64, f7, funct7::SLLI, SLLI_WIDE)
        ||| f3 == funct3::SRLI && selects_shift(rv64, f7, funct7::SRLI, SRLI_WIDE)
        ||| f3 == funct3::SRAI && selects_shift(rv64, f7, funct7::SRAI, SRAI_WIDE)
    }
    ||| rv64 && op == opcode::OP_IMM_32 && {
        ||| f3 == funct3::ADDIW
        ||| f3 == funct3::SLLIW && f7 == funct7::SLLIW
        ||| f3 == funct3::SRLIW && f7 == funct7::SRLIW
        ||| f3 == funct3::SRAIW && f7 == funct7::SRAIW
    }
    ||| op == opcode::OP && {
        ||| f7 == 0b0000000 && f3 < 8
        ||| f7 == 0b0100000 && (f3 == funct3::SUB || f3 == funct3::SRA)
    }
    ||| rv64 && op == opcode::OP_32 && {
        ||| f7 == 0b0000000 && (f3 == funct3::ADDW || f3 == funct3::SLLW || f3 == funct3::SRLW)
        ||| f7 == 0b0100000 && (f3 == funct3::SUBW || f3 == funct3::SRAW)
    }
    ||| op == opcode::MISC_MEM
    ||| op == opcode::SYSTEM && f3 < 8 && f3 != 0b100
}

/// The instruction that `word` encodes, or the reason why it encodes none.
/// `rv64` selects the instruction set for 64-bit registers, which has more
/// instructions and a six-bit shift amount.
pub open spec fn decoded(word: u32, rv64: bool) -> Result<Instruction, DecodeError> {
    let op = opcode_field(word);
    let f3 = funct3_field(word);
    let f7 = funct7_field(word);
    let rd = rd_field(word);
    let rs1 = rs1_field(word);
    let rs2 = rs2_field(word);
    let csr = csr_field(word);
    let i = i_imm(word) as i16;
    let s = s_imm(word) as i16;
    let b = b_imm(word) as i16;
    let narrow = shamt_field(word, false);
    let shamt = shamt_field(word, rv64);
    if !is_full_width(word) {
        Err(DecodeError::UnsupportedLength)
    } else if op == opcode::LUI {
        Ok(Instruction::LUI { rd, imm: u_imm(word) as i32 })
    } else if op == opcode::AUIPC {
        Ok(Instruction::AUIPC { rd, imm: u_imm(word) as i32 })
    } else if op == opcode::JAL {
        Ok(Instruction::JAL { rd, imm: j_imm(word) as i32 })
    } else if op == opcode::JALR && f3 == funct3::JALR {
        Ok(Instruction::JALR { rd, rs1, imm: i })
    } else if op == opcode::BRANCH && f3 == funct3::BEQ {
        Ok(Instruction::BEQ { rs1, rs2, imm: b })
    } else if op == opcode::BRANCH && f3 == funct3::BNE {
        Ok(Instruction::BNE { rs1, rs2, imm: b })
    } else if op == opcode::BRANCH && f3 == funct3::BLT {
        Ok(Instruction::BLT { rs1, rs2, imm: b })
    } else if op == opcode::BRANCH && f3 == funct3::BGE {
        Ok(Instruction::BGE { rs1, rs2, imm: b })
    } else if op == opcode::BRANCH && f3 == funct3::BLTU {
        Ok(Instruction::BLTU { rs1, rs2, imm: b })
    } else if op == opcode::BRANCH && f3 == funct3::BGEU {
        Ok(Instruction::BGEU { rs1, rs2, imm: b })
    } else if op == opcode::LOAD && f3 == funct3::LB {
        Ok(Instruction::LB { rd, rs1, imm: i })
    } else if op == opcode::LOAD && f3 == funct3::LH {
        Ok(Instruction::LH { rd, rs1, imm: i })
    } else if op == opcode::LOAD && f3 == funct3::LW {
        Ok(Instruction::LW { rd, rs1, imm: i })
    } else if op == opcode::LOAD && f3 == funct3::LBU {
        Ok(Instruction::LBU { rd, rs1, imm: i })
    } else if op == opcode::LOAD && f3 == funct3::LHU {
        Ok(Instruction::LHU { rd, rs1, imm: i })
    } else if rv64 && op == opcode::LOAD && f3 == funct3::LWU {
        Ok(Instruction::LWU { rd, rs1, imm: i })
    } else if rv64 && op == opcode::LOAD && f3 == funct3::LD {
        Ok(Instruction::LD { rd, rs1, imm: i })
    } else if op == opcode::STORE && f3 == funct3::SB {
        Ok(Instruction::SB { rs1, rs2, imm: s })
    } else if op == opcode::STORE && f3 == funct3::SH {
        Ok(Instruction::SH { rs1, rs2, imm: s })
    } else if op == opcode::STORE && f3 == funct3::SW {
        Ok(Instruction::SW { rs1, rs2, imm: s })
    } else if rv64 && op == opcode::STORE && f3 == funct3::SD {
        Ok(Instruction::SD { rs1, rs2, imm: s })
    } else if op == opcode::OP_IMM && f3 == funct3::ADDI {
        Ok(Instruction::ADDI { rd, rs1, imm: i })
    } else if op == opcode::OP_IMM && f3 == funct3::SLTI {
        Ok(Instruction::SLTI { rd, rs1, imm: i })
    } else if op == opcode::OP_IMM && f3 == funct3::SLTIU {
        Ok(Instruction::SLTIU { rd, rs1, imm: i })
    } else if op == opcode::OP_IMM && f3 == funct3::XORI {
        Ok(Instruction::XORI { rd, rs1, imm: i })
    } else if op == opcode::OP_IMM && f3 == funct3::ORI {
        Ok(Instruction::ORI { rd, rs1, imm: i })
    } else if op == opcode::OP_IMM && f3 == funct3::ANDI {
        Ok(Instruction::ANDI { rd, rs1, imm: i })
    } else if op == opcode::OP_IMM && f3 == funct3::SLLI && selects_shift(rv64, f7, funct7::SLLI, SLLI_WIDE)
    {
        Ok(Instruction::SLLI { rd, rs1, shamt })
    } else if op == opcode::OP_IMM && f3 == funct3::SRLI && selects_shift(rv64, f7, funct7::SRLI, SRLI_WIDE)
    {
        Ok(Instruction::SRLI { rd, rs1, shamt })
    } else if op == opcode::OP_IMM && f3 == funct3::SRAI && selects_shift(rv64, f7, funct7::SRAI, SRAI_WIDE)
    {
        Ok(Instruction::SRAI { rd, rs1, shamt })
    } else if rv64 && op == opcode::OP_IMM_32 && f3 == funct3::ADDIW {
        Ok(Instruction::ADDIW { rd, rs1, imm: i })
    } else if rv64 && op == opcode::OP_IMM_32 && f3 == funct3::SLLIW && f7 == funct7::SLLIW {
        Ok(Instruction::SLLIW { rd, rs1, shamt: narrow })
    } else if rv64 && op == opcode::OP_IMM_32 && f3 == funct3::SRLIW && f7 == funct7::SRLIW {
        Ok(Instruction::SRLIW { rd, rs1, shamt: narrow })
    } else if rv64 && op == opcode::OP_IMM_32 && f3 == funct3::SRAIW && f7 == funct7::SRAIW {
        Ok(Instruction::SRAIW { rd, rs1, shamt: narrow })
    } else if op == opcode::OP && f3 == funct3::ADD && f7 == funct7::ADD {
        Ok(Instruction::ADD { rd, rs1, rs2 })
    } else if op == opcode::OP && f3 == funct3::SUB && f7 == funct7::SUB {
        Ok(Instruction::SUB { rd, rs1, rs2 })
    } else if op == opcode::OP && f3 == funct3::SLL && f7 == funct7::SLL {
        Ok(Instruction::SLL { rd, rs1, rs2 })
    } else if op == opcode::OP && f3 == funct3::SLT && f7 == funct7::SLT {
        Ok(Instruction::SLT { rd, rs1, rs2 })
    } else if op == opcode::OP && f3 == funct3::SLTU && f7 == funct7::SLTU {
        Ok(Instruction::SLTU { rd, rs1, rs2 })
    } else if op == opcode::OP && f3 == funct3::XOR && f7 == funct7::XOR {
        Ok(Instruction::XOR { rd, rs1, rs2 })
    } else if op == opcode::OP && f3 == funct3::SRL && f7 == funct7::SRL {
        Ok(Instruction::SRL { rd, rs1, rs2 })
    } else if op == opcode::OP && f3 == funct3::SRA && f7 == funct7::SRA {
        Ok(Instruction::SRA { rd, rs1, rs2 })
    } else if op == opcode::OP && f3 == funct3::OR && f7 == funct7::OR {
        Ok(Instruction::OR { rd, rs1, rs2 })
    } else if op == opcode::OP && f3 == funct3::AND && f7 == funct7::AND {
        Ok(Instruction::AND { rd, rs1, rs2 })
    } else if rv64 && op == opcode::OP_32 && f3 == funct3::ADDW && f7 == funct7::ADDW {
        Ok(Instruction::ADDW { rd, rs1, rs2 })
    } else if rv64 && op == opcode::OP_32 && f3 == funct3::SUBW && f7 == funct7::SUBW {
        Ok(Instruction::SUBW { rd, rs1, rs2 })
    } else if rv64 && op == opcode::OP_32 && f3 == funct3::SLLW && f7 == funct7::SLLW {
        Ok(Instruction::SLLW { rd, rs1, rs2 })
    } else if rv64 && op == opcode::OP_32 && f3 == funct3::SRLW && f7 == funct7::SRLW {
        Ok(Instruction::SRLW { rd, rs1, rs2 })
    } else if rv64 && op == opcode::OP_32 && f3 == funct3::SRAW && f7 == funct7::SRAW {
        Ok(Instruction::SRAW { rd, rs1, rs2 })
    } else if op == opcode::MISC_MEM {
        if is_fence(word) {
            Ok(Instruction::FENCE { succ: succ_field(word), pred: pred_field(word) })
        } else if is_fence_i(word) {
            Ok(Instruction::FENCE_I)
        } else {
            Err(DecodeError::MalformedFence)
        }
    } else if op == opcode::SYSTEM && f3 == funct3::ECALL {
        if word == ECALL_WORD {
            Ok(Instruction::ECALL)
        } else if word == EBREAK_WORD {
            Ok(Instruction::EBREAK)
        } else {
            Err(DecodeError::MalformedSystem)
        }
    } else if op == opcode::SYSTEM && f3 == funct3::CSRRW {
        Ok(Instruction::CSRRW { rd, rs1, csr })
    } else if op == opcode::SYSTEM && f3 == funct3::CSRRS {
        Ok(Instruction::CSRRS { rd, rs1, csr })
    } else if op == opcode::SYSTEM && f3 == funct3::CSRRC {
        Ok(Instruction::CSRRC { rd, rs1, csr })
    } else if op == opcode::SYSTEM && f3 == funct3::CSRRWI {
        Ok(Instruction::CSRRWI { rd, zimm: rs1, csr })
    } else if op == opcode::SYSTEM && f3 == funct3::CSRRSI {
        Ok(Instruction::CSRRSI { rd, zimm: rs1, csr })
    } else if op == opcode::SYSTEM && f3 == funct3::CSRRCI {
        Ok(Instruction::CSRRCI { rd, zimm: rs1, csr })
    } else {
        Err(DecodeError::UnknownEncoding)
    }
}

} // verus!
