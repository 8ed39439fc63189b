//! The instruction model and the decoder's entry point.

use crate::arch::constants::funct3;
use crate::arch::constants::funct7;
use crate::arch::constants::opcode;
use crate::arch::encoding::{
    decoded, selects_shift, EBREAK_WORD, ECALL_WORD, SLLI_WIDE, SRAI_WIDE, SRLI_WIDE,
};
use crate::arch::fields::{
    csr_of, funct3_of, funct7_of, has_full_width, is_full_width, opcode_field, opcode_of, pred_of,
    rd_of, rs1_of, rs2_of, shamt_of, succ_of, top_nibble_of,
};
use crate::arch::immediates::{get_i_imm12, get_jal_imm20, get_s_imm12, get_sb_imm12, get_u_imm20};
use crate::arch::laws::lemma_decoded_is_well_formed;
use vstd::prelude::*;

verus! {

/// Rounding mode of a floating-point instruction.
#[derive(PartialEq, Eq, Structural, Debug, Clone, Copy)]
pub enum FpRoundingMode {
    RoundToNearest,
    RoundTowardsZero,
    RoundDown,
    RoundUp,
    RoundToNearestTieMaxMagnitude,
    DynamicRounding,
    Invalid,
}

/// Why a word is not an instruction.
#[derive(PartialEq, Eq, Structural, Debug, Clone, Copy)]
pub enum DecodeError {
    /// Bits 1:0 of the word are not `11`: the word does not start a 32-bit
    /// instruction.
    UnsupportedLength,
    /// Opcode, `funct3` and `funct7` together name no instruction of the
    /// selected register width.
    UnknownEncoding,
    /// The opcode is that of the memory-ordering instructions, but the rest
    /// of the word is neither a `FENCE` nor a `FENCE.I`.
    MalformedFence,
    /// The word has the opcode and `funct3` of the environment instructions,
    /// but is neither `ECALL` nor `EBREAK`.
    MalformedSystem,
}

/// One decoded instruction.
///
/// Register fields (`rd`, `rs1`, `rs2`, `rs3`) are register numbers from 0
/// to 31. Every `imm` holds the immediate as a signed number, sign-extended
/// and with the shift of its format applied, never the encoded bits.
#[allow(inconsistent_fields)]
#[derive(PartialEq, Eq, Structural, Debug, Clone, Copy)]
pub enum Instruction {
    // Base integer instructions.
    LUI { rd: u8, imm: i32 },
    AUIPC { rd: u8, imm: i32 },
    JAL { rd: u8, imm: i32 },
    JALR { rd: u8, rs1: u8, imm: i16 },
    BEQ { rs1: u8, rs2: u8, imm: i16 },
    BNE { rs1: u8, rs2: u8, imm: i16 },
    BLT { rs1: u8, rs2: u8, imm: i16 },
    BGE { rs1: u8, rs2: u8, imm: i16 },
    BLTU { rs1: u8, rs2: u8, imm: i16 },
    BGEU { rs1: u8, rs2: u8, imm: i16 },
    LB { rd: u8, rs1: u8, imm: i16 },
    LH { rd: u8, rs1: u8, imm: i16 },
    LW { rd: u8, rs1: u8, imm: i16 },
    LBU { rd: u8, rs1: u8, imm: i16 },
    LHU { rd: u8, rs1: u8, imm: i16 },
    SB { rs1: u8, rs2: u8, imm: i16 },
    SH { rs1: u8, rs2: u8, imm: i16 },
    SW { rs1: u8, rs2: u8, imm: i16 },
    ADDI { rd: u8, rs1: u8, imm: i16 },
    SLTI { rd: u8, rs1: u8, imm: i16 },
    SLTIU { rd: u8, rs1: u8, imm: i16 },
    XORI { rd: u8, rs1: u8, imm: i16 },
    ORI { rd: u8, rs1: u8, imm: i16 },
    ANDI { rd: u8, rs1: u8, imm: i16 },
    SLLI { rd: u8, rs1: u8, shamt: u8 },
    SRLI { rd: u8, rs1: u8, shamt: u8 },
    SRAI { rd: u8, rs1: u8, shamt: u8 },
    ADD { rd: u8, rs1: u8, rs2: u8 },
    SUB { rd: u8, rs1: u8, rs2: u8 },
    SLL { rd: u8, rs1: u8, rs2: u8 },
    SLT { rd: u8, rs1: u8, rs2: u8 },
    SLTU { rd: u8, rs1: u8, rs2: u8 },
    XOR { rd: u8, rs1: u8, rs2: u8 },
    SRL { rd: u8, rs1: u8, rs2: u8 },
    SRA { rd: u8, rs1: u8, rs2: u8 },
    OR { rd: u8, rs1: u8, rs2: u8 },
    AND { rd: u8, rs1: u8, rs2: u8 },
    FENCE { succ: u8, pred: u8 },
    FENCE_I,
    ECALL,
    EBREAK,
    CSRRW { rd: u8, rs1: u8, csr: u16 },
    CSRRS { rd: u8, rs1: u8, csr: u16 },
    CSRRC { rd: u8, rs1: u8, csr: u16 },
    CSRRWI { rd: u8, zimm: u8, csr: u16 },
    CSRRSI { rd: u8, zimm: u8, csr: u16 },
    CSRRCI { rd: u8, zimm: u8, csr: u16 },
    // Base integer instructions of the 64-bit variant.
    LWU { rd: u8, rs1: u8, imm: i16 },
    LD { rd: u8, rs1: u8, imm: i16 },
    SD { rs1: u8, rs2: u8, imm: i16 },
    ADDIW { rd: u8, rs1: u8, imm: i16 },
    SLLIW { rd: u8, rs1: u8, shamt: u8 },
    SRLIW { rd: u8, rs1: u8, shamt: u8 },
    SRAIW { rd: u8, rs1: u8, shamt: u8 },
    ADDW { rd: u8, rs1: u8, rs2: u8 },
    SUBW { rd: u8, rs1: u8, rs2: u8 },
    SLLW { rd: u8, rs1: u8, rs2: u8 },
    SRLW { rd: u8, rs1: u8, rs2: u8 },
    SRAW { rd: u8, rs1: u8, rs2: u8 },
    // Multiply and divide.
    MUL { rd: u8, rs1: u8, rs2: u8 },
    MULH { rd: u8, rs1: u8, rs2: u8 },
    MULHSU { rd: u8, rs1: u8, rs2: u8 },
    MULHU { rd: u8, rs1: u8, rs2: u8 },
    DIV { rd: u8, rs1: u8, rs2: u8 },
    DIVU { rd: u8, rs1: u8, rs2: u8 },
    REM { rd: u8, rs1: u8, rs2: u8 },
    REMU { rd: u8, rs1: u8, rs2: u8 },
    // Multiply and divide on 32-bit words, 64-bit variant.
    MULW { rd: u8, rs1: u8, rs2: u8 },
    DIVW { rd: u8, rs1: u8, rs2: u8 },
    DIVUW { rd: u8, rs1: u8, rs2: u8 },
    REMW { rd: u8, rs1: u8, rs2: u8 },
    REMUW { rd: u8, rs1: u8, rs2: u8 },
    // Atomic memory operations on words.
    LR_W { rd: u8, rs1: u8, aq: bool, rl: bool },
    SC_W { rd: u8, rs1: u8, aq: bool, rl: bool },
    AMOSWAP_W { rd: u8, rs1: u8, rs2: u8, aq: bool, rl: bool },
    AMOADD_W { rd: u8, rs1: u8, rs2: u8, aq: bool, rl: bool },
    AMOXOR_W { rd: u8, rs1: u8, rs2: u8, aq: bool, rl: bool },
    AMOAND_W { rd: u8, rs1: u8, rs2: u8, aq: bool, rl: bool },
    AMOOR_W { rd: u8, rs1: u8, rs2: u8, aq: bool, rl: bool },
    AMOMIN_W { rd: u8, rs1: u8, rs2: u8, aq: bool, rl: bool },
    AMOMAX_W { rd: u8, rs1: u8, rs2: u8, aq: bool, rl: bool },
    AMOMINU_W { rd: u8, rs1: u8, rs2: u8, aq: bool, rl: bool },
    AMOMAXU_W { rd: u8, rs1: u8, rs2: u8, aq: bool, rl: bool },
    // Atomic memory operations on doublewords.
    LR_D { rd: u8, rs1: u8, aq: bool, rl: bool },
    SC_D { rd: u8, rs1: u8, aq: bool, rl: bool },
    AMOSWAP_D { rd: u8, rs1: u8, rs2: u8, aq: bool, rl: bool },
    AMOADD_D { rd: u8, rs1: u8, rs2: u8, aq: bool, rl: bool },
    AMOXOR_D { rd: u8, rs1: u8, rs2: u8, aq: bool, rl: bool },
    AMOAND_D { rd: u8, rs1: u8, rs2: u8, aq: bool, rl: bool },
    AMOOR_D { rd: u8, rs1: u8, rs2: u8, aq: bool, rl: bool },
    AMOMIN_D { rd: u8, rs1: u8, rs2: u8, aq: bool, rl: bool },
    AMOMAX_D { rd: u8, rs1: u8, rs2: u8, aq: bool, rl: bool },
    AMOMINU_D { rd: u8, rs1: u8, rs2: u8, aq: bool, rl: bool },
    AMOMAXU_D { rd: u8, rs1: u8, rs2: u8, aq: bool, rl: bool },
    // Single-precision floating point.
    FLW { rd: u8, rs1: u8, imm: i16 },
    FSW { rd: u8, rs1: u8, imm: i16 },
    FMADD_S { rd: u8, rs1: u8, rs2: u8, rs3: u8, rm: FpRoundingMode },
    FMSUB_S { rd: u8, rs1: u8, rs2: u8, rs3: u8, rm: FpRoundingMode },
    FNMSUB_S { rd: u8, rs1: u8, rs2: u8, rs3: u8, rm: FpRoundingMode },
    FNMADD_S { rd: u8, rs1: u8, rs2: u8, rs3: u8, rm: FpRoundingMode },
    FADD_S { rd: u8, rs1: u8, rs2: u8, rm: FpRoundingMode },
    FSUB_S { rd: u8, rs1: u8, rs2: u8, rm: FpRoundingMode },
    FMUL_S { rd: u8, rs1: u8, rs2: u8, rm: FpRoundingMode },
    FDIV_S { rd: u8, rs1: u8, rs2: u8, rm: FpRoundingMode },
    FSQRT_S { rd: u8, rs1: u8, rm: FpRoundingMode },
    FSGNJ_S { rd: u8, rs1: u8, rs2: u8 },
    FSGNJN_S { rd: u8, rs1: u8, rs2: u8 },
    FSGNJX_S { rd: u8, rs1: u8, rs2: u8 },
    FMIN_S { rd: u8, rs1: u8, rs2: u8 },
    FMAX_S { rd: u8, rs1: u8, rs2: u8 },
    FCVT_W_S { rd: u8, rs1: u8, rm: FpRoundingMode },
    FCVT_WU_S { rd: u8, rs1: u8, rm: FpRoundingMode },
    FMV_X_S { rd: u8, rs1: u8 },
    FEQ_S { rd: u8, rs1: u8, rs2: u8 },
    FLT_S { rd: u8, rs1: u8, rs2: u8 },
    FLE_S { rd: u8, rs1: u8, rs2: u8 },
    FCLASS_S { rd: u8, rs1: u8 },
    FCVT_S_W { rd: u8, rs1: u8, rm: FpRoundingMode },
    FCVT_S_WU { rd: u8, rs1: u8, rm: FpRoundingMode },
    FMV_S_X { rd: u8, rs1: u8 },
    // Single-precision conversions of the 64-bit variant.
    FCVT_L_S { rd: u8, rs1: u8, rm: FpRoundingMode },
    FCVT_LU_S { rd: u8, rs1: u8, rm: FpRoundingMode },
    FCVT_S_L { rd: u8, rs1: u8, rm: FpRoundingMode },
    FCVT_S_LU { rd: u8, rs1: u8, rm: FpRoundingMode },
    // Double-precision floating point.
    FLD { rd: u8, rs1: u8, imm: i16 },
    FSD { rd: u8, rs1: u8, imm: i16 },
    FMADD_D { rd: u8, rs1: u8, rs2: u8, rs3: u8, rm: FpRoundingMode },
    FMSUB_D { rd: u8, rs1: u8, rs2: u8, rs3: u8, rm: FpRoundingMode },
    FNMSUB_D { rd: u8, rs1: u8, rs2: u8, rs3: u8, rm: FpRoundingMode },
    FNMADD_D { rd: u8, rs1: u8, rs2: u8, rs3: u8, rm: FpRoundingMode },
    FADD_D { rd: u8, rs1: u8, rs2: u8, rm: FpRoundingMode },
    FSUB_D { rd: u8, rs1: u8, rs2: u8, rm: FpRoundingMode },
    FMUL_D { rd: u8, rs1: u8, rs2: u8, rm: FpRoundingMode },
    FDIV_D { rd: u8, rs1: u8, rs2: u8, rm: FpRoundingMode },
    FSQRT_D { rd: u8, rs1: u8, rm: FpRoundingMode },
    FSGNJ_D { rd: u8, rs1: u8, rs2: u8 },
    FSGNJN_D { rd: u8, rs1: u8, rs2: u8 },
    FSGNJX_D { rd: u8, rs1: u8, rs2: u8 },
    FMIN_D { rd: u8, rs1: u8, rs2: u8 },
    FMAX_D { rd: u8, rs1: u8, rs2: u8 },
    FCVT_S_D { rd: u8, rs1: u8, rm: FpRoundingMode },
    FCVT_D_S { rd: u8, rs1: u8, rm: FpRoundingMode },
    FEQ_D { rd: u8, rs1: u8, rs2: u8 },
    FLT_D { rd: u8, rs1: u8, rs2: u8 },
    FLE_D { rd: u8, rs1: u8, rs2: u8 },
    FCLASS_D { rd: u8, rs1: u8 },
    FCVT_W_D { rd: u8, rs1: u8, rm: FpRoundingMode },
    FCVT_WU_D { rd: u8, rs1: u8, rm: FpRoundingMode },
    FCVT_D_W { rd: u8, rs1: u8, rm: FpRoundingMode },
    FCVT_D_WU { rd: u8, rs1: u8, rm: FpRoundingMode },
    // Double-precision conversions and moves of the 64-bit variant.
    FCVT_L_D { rd: u8, rs1: u8, rm: FpRoundingMode },
    FCVT_LU_D { rd: u8, rs1: u8, rm: FpRoundingMode },
    FMV_X_D { rd: u8, rs1: u8 },
    FCVT_D_L { rd: u8, rs1: u8, rm: FpRoundingMode },
    FCVT_D_LU { rd: u8, rs1: u8, rm: FpRoundingMode },
    FMV_D_X { rd: u8, rs1: u8 },
}

impl Instruction {
    /// Decodes one 32-bit instruction word. With `rv64` the word is read as
    /// an instruction for 64-bit registers, without it as one for 32-bit
    /// registers.
    ///
    /// The result is the entry of the table [`decoded`] for the word: the
    /// instruction with its operands, or the reason why the word is none.
    /// The operands of an instruction that comes out are in the ranges of
    /// its format.
    pub fn decode32(instr: u32, rv64: bool) -> (r: Result<Instruction, DecodeError>)
        ensures
            r == decoded(instr, rv64),
            r matches Ok(ins) ==> ins.wf(),
    {
        proof {
            lemma_decoded_is_well_formed(instr, rv64);
        }
        if !has_full_width(instr) {
            return Err(DecodeError::UnsupportedLength);
        }
        match opcode_of(instr) {
            opcode::LUI => Ok(Instruction::LUI { rd: rd_of(instr), imm: get_u_imm20(instr) }),
            opcode::AUIPC => Ok(Instruction::AUIPC { rd: rd_of(instr), imm: get_u_imm20(instr) }),
            opcode::JAL => Ok(Instruction::JAL { rd: rd_of(instr), imm: get_jal_imm20(instr) }),
            opcode::JALR => decode_jalr(instr),
            opcode::BRANCH => decode_branch(instr),
            opcode::LOAD => decode_load(instr, rv64),
            opcode::STORE => decode_store(instr, rv64),
            opcode::OP_IMM => decode_op_imm(instr, rv64),
            opcode::OP_IMM_32 => decode_op_imm_32(instr, rv64),
            opcode::OP => decode_op(instr),
            opcode::OP_32 => decode_op_32(instr, rv64),
            opcode::MISC_MEM => decode_misc_mem(instr),
            opcode::SYSTEM => decode_system(instr),
            _ => Err(DecodeError::UnknownEncoding),
        }
    }
}

/// Decodes a word whose opcode is `JALR`.
fn decode_jalr(word: u32) -> (r: Result<Instruction, DecodeError>)
    requires
        is_full_width(word),
        opcode_field(word) == opcode::JALR,
    ensures
        forall|rv64: bool| r == #[trigger] decoded(word, rv64),
{
    match funct3_of(word) {
        funct3::JALR => Ok(
            Instruction::JALR { rd: rd_of(word), rs1: rs1_of(word), imm: get_i_imm12(word) },
        ),
        _ => Err(DecodeError::UnknownEncoding),
    }
}

/// Decodes a word whose opcode is `BRANCH`.
fn decode_branch(word: u32) -> (r: Result<Instruction, DecodeError>)
    requires
        is_full_width(word),
        opcode_field(word) == opcode::BRANCH,
    ensures
        forall|rv64: bool| r == #[trigger] decoded(word, rv64),
{
    let rs1: u8 = rs1_of(word);
    let rs2: u8 = rs2_of(word);
    let imm: i16 = get_sb_imm12(word);
    match funct3_of(word) {
        funct3::BEQ => Ok(Instruction::BEQ { rs1, rs2, imm }),
        funct3::BNE => Ok(Instruction::BNE { rs1, rs2, imm }),
        funct3::BLT => Ok(Instruction::BLT { rs1, rs2, imm }),
        funct3::BGE => Ok(Instruction::BGE { rs1, rs2, imm }),
        funct3::BLTU => Ok(Instruction::BLTU { rs1, rs2, imm }),
        funct3::BGEU => Ok(Instruction::BGEU { rs1, rs2, imm }),
        _ => Err(DecodeError::UnknownEncoding),
    }
}

/// Decodes a word whose opcode is `LOAD`.
fn decode_load(word: u32, rv64: bool) -> (r: Result<Instruction, DecodeError>)
    requires
        is_full_width(word),
        opcode_field(word) == opcode::LOAD,
    ensures
        r == decoded(word, rv64),
{
    let rd: u8 = rd_of(word);
    let rs1: u8 = rs1_of(word);
    let imm: i16 = get_i_imm12(word);
    match funct3_of(word) {
        funct3::LB => Ok(Instruction::LB { rd, rs1, imm }),
        funct3::LH => Ok(Instruction::LH { rd, rs1, imm }),
        funct3::LW => Ok(Instruction::LW { rd, rs1, imm }),
        funct3::LBU => Ok(Instruction::LBU { rd, rs1, imm }),
        funct3::LHU => Ok(Instruction::LHU { rd, rs1, imm }),
        funct3::LWU if rv64 => Ok(Instruction::LWU { rd, rs1, imm }),
        funct3::LD if rv64 => Ok(Instruction::LD { rd, rs1, imm }),
        _ => Err(DecodeError::UnknownEncoding),
    }
}

/// Decodes a word whose opcode is `STORE`.
fn decode_store(word: u32, rv64: bool) -> (r: Result<Instruction, DecodeError>)
    requires
        is_full_width(word),
        opcode_field(word) == opcode::STORE,
    ensures
        r == decoded(word, rv64),
{
    let rs1: u8 = rs1_of(word);
    let rs2: u8 = rs2_of(word);
    let imm: i16 = get_s_imm12(word);
    match funct3_of(word) {
        funct3::SB => Ok(Instruction::SB { rs1, rs2, imm }),
        funct3::SH => Ok(Instruction::SH { rs1, rs2, imm }),
        funct3::SW => Ok(Instruction::SW { rs1, rs2, imm }),
        funct3::SD if rv64 => Ok(Instruction::SD { rs1, rs2, imm }),
        _ => Err(DecodeError::UnknownEncoding),
    }
}

/// Tells whether `f7` selects the shift by a constant whose patterns are
/// `narrow` and, for 64-bit registers only, `wide`.
fn shift_selected(rv64: bool, f7: u8, narrow: u8, wide: u8) -> (selected: bool)
    ensures
        selected == selects_shift(rv64, f7, narrow, wide),
{
    f7 == narrow || (rv64 && f7 == wide)
}

/// Decodes a word whose opcode is `OP_IMM`: an operation on a register and
/// an immediate, or a shift by a constant.
fn decode_op_imm(word: u32, rv64: bool) -> (r: Result<Instruction, DecodeError>)
    requires
        is_full_width(word),
        opcode_field(word) == opcode::OP_IMM,
    ensures
        r == decoded(word, rv64),
{
    let rd: u8 = rd_of(word);
    let rs1: u8 = rs1_of(word);
    let f7: u8 = funct7_of(word);
    let imm: i16 = get_i_imm12(word);
    let shamt: u8 = shamt_of(word, rv64);
    match funct3_of(word) {
        funct3::ADDI => Ok(Instruction::ADDI { rd, rs1, imm }),
        funct3::SLTI => Ok(Instruction::SLTI { rd, rs1, imm }),
        funct3::SLTIU => Ok(Instruction::SLTIU { rd, rs1, imm }),
        funct3::XORI => Ok(Instruction::XORI { rd, rs1, imm }),
        funct3::ORI => Ok(Instruction::ORI { rd, rs1, imm }),
        funct3::ANDI => Ok(Instruction::ANDI { rd, rs1, imm }),
        funct3::SLLI => {
            if shift_selected(rv64, f7, funct7::SLLI, SLLI_WIDE) {
                Ok(Instruction::SLLI { rd, rs1, shamt })
            } else {
                Err(DecodeError::UnknownEncoding)
            }
        },
        // The two right shifts share `funct3` and differ in `funct7`.
        funct3::SRLI => {
            if shift_selected(rv64, f7, funct7::SRLI, SRLI_WIDE) {
                Ok(Instruction::SRLI { rd, rs1, shamt })
            } else if shift_selected(rv64, f7, funct7::SRAI, SRAI_WIDE) {
                Ok(Instruction::SRAI { rd, rs1, shamt })
            } else {
                Err(DecodeError::UnknownEncoding)
            }
        },
        _ => Err(DecodeError::UnknownEncoding),
    }
}

/// Decodes a word whose opcode is `OP_IMM_32`: the operations on the lower
/// 32 bits of a 64-bit register and an immediate.
fn decode_op_imm_32(word: u32, rv64: bool) -> (r: Result<Instruction, DecodeError>)
    requires
        is_full_width(word),
        opcode_field(word) == opcode::OP_IMM_32,
    ensures
        r == decoded(word, rv64),
{
    if !rv64 {
        return Err(DecodeError::UnknownEncoding);
    }
    let rd: u8 = rd_of(word);
    let rs1: u8 = rs1_of(word);
    let shamt: u8 = shamt_of(word, false);
    match (funct3_of(word), funct7_of(word)) {
        (funct3::ADDIW, _) => Ok(Instruction::ADDIW { rd, rs1, imm: get_i_imm12(word) }),
        (funct3::SLLIW, funct7::SLLIW) => Ok(Instruction::SLLIW { rd, rs1, shamt }),
        (funct3::SRLIW, funct7::SRLIW) => Ok(Instruction::SRLIW { rd, rs1, shamt }),
        (funct3::SRAIW, funct7::SRAIW) => Ok(Instruction::SRAIW { rd, rs1, shamt }),
        _ => Err(DecodeError::UnknownEncoding),
    }
}

/// Decodes a word whose opcode is `OP`: the operations on two registers.
fn decode_op(word: u32) -> (r: Result<Instruction, DecodeError>)
    requires
        is_full_width(word),
        opcode_field(word) == opcode::OP,
    ensures
        forall|rv64: bool| r == #[trigger] decoded(word, rv64),
{
    let rd: u8 = rd_of(word);
    let rs1: u8 = rs1_of(word);
    let rs2: u8 = rs2_of(word);
    match (funct3_of(word), funct7_of(word)) {
        (funct3::ADD, funct7::ADD) => Ok(Instruction::ADD { rd, rs1, rs2 }),
        (funct3::SUB, funct7::SUB) => Ok(Instruction::SUB { rd, rs1, rs2 }),
        (funct3::SLL, funct7::SLL) => Ok(Instruction::SLL { rd, rs1, rs2 }),
        (funct3::SLT, funct7::SLT) => Ok(Instruction::SLT { rd, rs1, rs2 }),
        (funct3::SLTU, funct7::SLTU) => Ok(Instruction::SLTU { rd, rs1, rs2 }),
        (funct3::XOR, funct7::XOR) => Ok(Instruction::XOR { rd, rs1, rs2 }),
        (funct3::SRL, funct7::SRL) => Ok(Instruction::SRL { rd, rs1, rs2 }),
        (funct3::SRA, funct7::SRA) => Ok(Instruction::SRA { rd, rs1, rs2 }),
        (funct3::OR, funct7::OR) => Ok(Instruction::OR { rd, rs1, rs2 }),
        (funct3::AND, funct7::AND) => Ok(Instruction::AND { rd, rs1, rs2 }),
        _ => Err(DecodeError::UnknownEncoding),
    }
}

/// Decodes a word whose opcode is `OP_32`: the operations on the lower 32
/// bits of two 64-bit registers.
fn decode_op_32(word: u32, rv64: bool) -> (r: Result<Instruction, DecodeError>)
    requires
        is_full_width(word),
        opcode_field(word) == opcode::OP_32,
    ensures
        r == decoded(word, rv64),
{
    if !rv64 {
        return Err(DecodeError::UnknownEncoding);
    }
    let rd: u8 = rd_of(word);
    let rs1: u8 = rs1_of(word);
    let rs2: u8 = rs2_of(word);
    match (funct3_of(word), funct7_of(word)) {
        (funct3::ADDW, funct7::ADDW) => Ok(Instruction::ADDW { rd, rs1, rs2 }),
        (funct3::SUBW, funct7::SUBW) => Ok(Instruction::SUBW { rd, rs1, rs2 }),
        (funct3::SLLW, funct7::SLLW) => Ok(Instruction::SLLW { rd, rs1, rs2 }),
        (funct3::SRLW, funct7::SRLW) => Ok(Instruction::SRLW { rd, rs1, rs2 }),
        (funct3::SRAW, funct7::SRAW) => Ok(Instruction::SRAW { rd, rs1, rs2 }),
        _ => Err(DecodeError::UnknownEncoding),
    }
}

/// Decodes a word whose opcode is `MISC_MEM`. Here `funct3` alone does not
/// decide: the fields that a fence leaves unused must be zero as well.
fn decode_misc_mem(word: u32) -> (r: Result<Instruction, DecodeError>)
    requires
        is_full_width(word),
        opcode_field(word) == opcode::MISC_MEM,
    ensures
        forall|rv64: bool| r == #[trigger] decoded(word, rv64),
{
    let f3: u8 = funct3_of(word);
    if rd_of(word) != 0 || rs1_of(word) != 0 {
        Err(DecodeError::MalformedFence)
    } else if f3 == funct3::FENCE && top_nibble_of(word) == 0 {
        Ok(Instruction::FENCE { succ: succ_of(word), pred: pred_of(word) })
    } else if f3 == funct3::FENCE_I && get_i_imm12(word) == 0 {
        Ok(Instruction::FENCE_I)
    } else {
        Err(DecodeError::MalformedFence)
    }
}

/// Decodes a word whose opcode is `SYSTEM`: an environment call or
/// breakpoint, which is one fixed word each, or an access to a control and
/// status register.
fn decode_system(word: u32) -> (r: Result<Instruction, DecodeError>)
    requires
        is_full_width(word),
        opcode_field(word) == opcode::SYSTEM,
    ensures
        forall|rv64: bool| r == #[trigger] decoded(word, rv64),
{
    let rd: u8 = rd_of(word);
    let rs1: u8 = rs1_of(word);
    let csr: u16 = csr_of(word);
    match funct3_of(word) {
        funct3::ECALL => {
            if word == ECALL_WORD {
                Ok(Instruction::ECALL)
            } else if word == EBREAK_WORD {
                Ok(Instruction::EBREAK)
            } else {
                Err(DecodeError::MalformedSystem)
            }
        },
        funct3::CSRRW => Ok(Instruction::CSRRW { rd, rs1, csr }),
        funct3::CSRRS => Ok(Instruction::CSRRS { rd, rs1, csr }),
        funct3::CSRRC => Ok(Instruction::CSRRC { rd, rs1, csr }),
        funct3::CSRRWI => Ok(Instruction::CSRRWI { rd, zimm: rs1, csr }),
        funct3::CSRRSI => Ok(Instruction::CSRRSI { rd, zimm: rs1, csr }),
        funct3::CSRRCI => Ok(Instruction::CSRRCI { rd, zimm: rs1, csr }),
        _ => Err(DecodeError::UnknownEncoding),
    }
}

} // verus!
