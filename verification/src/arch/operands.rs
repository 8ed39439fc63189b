//! The operands of an instruction, read off the instruction model.

use crate::arch::decoder::Instruction;
use vstd::prelude::*;

verus! {

impl Instruction {
    /// The destination register, for the instructions that have one.
    pub open spec fn rd(self) -> Option<u8> {
        match self {
            Instruction::LUI { rd, .. }
            | Instruction::AUIPC { rd, .. }
            | Instruction::JAL { rd, .. }
            | Instruction::JALR { rd, .. }
            | Instruction::LB { rd, .. }
            | Instruction::LH { rd, .. }
            | Instruction::LW { rd, .. }
            | Instruction::LBU { rd, .. }
            | Instruction::LHU { rd, .. }
            | Instruction::ADDI { rd, .. }
            | Instruction::SLTI { rd, .. }
            | Instruction::SLTIU { rd, .. }
            | Instruction::XORI { rd, .. }
            | Instruction::ORI { rd, .. }
            | Instruction::ANDI { rd, .. }
            | Instruction::SLLI { rd, .. }
            | Instruction::SRLI { rd, .. }
            | Instruction::SRAI { rd, .. }
            | Instruction::ADD { rd, .. }
            | Instruction::SUB { rd, .. }
            | Instruction::SLL { rd, .. }
            | Instruction::SLT { rd, .. }
            | Instruction::SLTU { rd, .. }
            | Instruction::XOR { rd, .. }
            | Instruction::SRL { rd, .. }
            | Instruction::SRA { rd, .. }
            | Instruction::OR { rd, .. }
            | Instruction::AND { rd, .. }
            | Instruction::CSRRW { rd, .. }
            | Instruction::CSRRS { rd, .. }
            | Instruction::CSRRC { rd, .. }
            | Instruction::CSRRWI { rd, .. }
            | Instruction::CSRRSI { rd, .. }
            | Instruction::CSRRCI { rd, .. }
            | Instruction::LWU { rd, .. }
            | Instruction::LD { rd, .. }
            | Instruction::ADDIW { rd, .. }
            | Instruction::SLLIW { rd, .. }
            | Instruction::SRLIW { rd, .. }
            | Instruction::SRAIW { rd, .. }
            | Instruction::ADDW { rd, .. }
            | Instruction::SUBW { rd, .. }
            | Instruction::SLLW { rd, .. }
            | Instruction::SRLW { rd, .. }
            | Instruction::SRAW { rd, .. }
            | Instruction::MUL { rd, .. }
            | Instruction::MULH { rd, .. }
            | Instruction::MULHSU { rd, .. }
            | Instruction::MULHU { rd, .. }
            | Instruction::DIV { rd, .. }
            | Instruction::DIVU { rd, .. }
            | Instruction::REM { rd, .. }
            | Instruction::REMU { rd, .. }
            | Instruction::MULW { rd, .. }
            | Instruction::DIVW { rd, .. }
            | Instruction::DIVUW { rd, .. }
            | Instruction::REMW { rd, .. }
            | Instruction::REMUW { rd, .. }
            | Instruction::LR_W { rd, .. }
            | Instruction::SC_W { rd, .. }
            | Instruction::AMOSWAP_W { rd, .. }
            | Instruction::AMOADD_W { rd, .. }
            | Instruction::AMOXOR_W { rd, .. }
            | Instruction::AMOAND_W { rd, .. }
            | Instruction::AMOOR_W { rd, .. }
            | Instruction::AMOMIN_W { rd, .. }
            | Instruction::AMOMAX_W { rd, .. }
            | Instruction::AMOMINU_W { rd, .. }
            | Instruction::AMOMAXU_W { rd, .. }
            | Instruction::LR_D { rd, .. }
            | Instruction::SC_D { rd, .. }
            | Instruction::AMOSWAP_D { rd, .. }
            | Instruction::AMOADD_D { rd, .. }
            | Instruction::AMOXOR_D { rd, .. }
            | Instruction::AMOAND_D { rd, .. }
            | Instruction::AMOOR_D { rd, .. }
            | Instruction::AMOMIN_D { rd, .. }
            | Instruction::AMOMAX_D { rd, .. }
            | Instruction::AMOMINU_D { rd, .. }
            | Instruction::AMOMAXU_D { rd, .. }
            | Instruction::FLW { rd, .. }
            | Instruction::FSW { rd, .. }
            | Instruction::FMADD_S { rd, .. }
            | Instruction::FMSUB_S { rd, .. }
            | Instruction::FNMSUB_S { rd, .. }
            | Instruction::FNMADD_S { rd, .. }
            | Instruction::FADD_S { rd, .. }
            | Instruction::FSUB_S { rd, .. }
            | Instruction::FMUL_S { rd, .. }
            | Instruction::FDIV_S { rd, .. }
            | Instruction::FSQRT_S { rd, .. }
            | Instruction::FSGNJ_S { rd, .. }
            | Instruction::FSGNJN_S { rd, .. }
            | Instruction::FSGNJX_S { rd, .. }
            | Instruction::FMIN_S { rd, .. }
            | Instruction::FMAX_S { rd, .. }
            | Instruction::FCVT_W_S { rd, .. }
            | Instruction::FCVT_WU_S { rd, .. }
            | Instruction::FMV_X_S { rd, .. }
            | Instruction::FEQ_S { rd, .. }
            | Instruction::FLT_S { rd, .. }
            | Instruction::FLE_S { rd, .. }
            | Instruction::FCLASS_S { rd, .. }
            | Instruction::FCVT_S_W { rd, .. }
            | Instruction::FCVT_S_WU { rd, .. }
            | Instruction::FMV_S_X { rd, .. }
            | Instruction::FCVT_L_S { rd, .. }
            | Instruction::FCVT_LU_S { rd, .. }
            | Instruction::FCVT_S_L { rd, .. }
            | Instruction::FCVT_S_LU { rd, .. }
            | Instruction::FLD { rd, .. }
            | Instruction::FSD { rd, .. }
            | Instruction::FMADD_D { rd, .. }
            | Instruction::FMSUB_D { rd, .. }
            | Instruction::FNMSUB_D { rd, .. }
            | Instruction::FNMADD_D { rd, .. }
            | Instruction::FADD_D { rd, .. }
            | Instruction::FSUB_D { rd, .. }
            | Instruction::FMUL_D { rd, .. }
            | Instruction::FDIV_D { rd, .. }
            | Instruction::FSQRT_D { rd, .. }
            | Instruction::FSGNJ_D { rd, .. }
            | Instruction::FSGNJN_D { rd, .. }
            | Instruction::FSGNJX_D { rd, .. }
            | Instruction::FMIN_D { rd, .. }
            | Instruction::FMAX_D { rd, .. }
            | Instruction::FCVT_S_D { rd, .. }
            | Instruction::FCVT_D_S { rd, .. }
            | Instruction::FEQ_D { rd, .. }
            | Instruction::FLT_D { rd, .. }
            | Instruction::FLE_D { rd, .. }
            | Instruction::FCLASS_D { rd, .. }
            | Instruction::FCVT_W_D { rd, .. }
            | Instruction::FCVT_WU_D { rd, .. }
            | Instruction::FCVT_D_W { rd, .. }
            | Instruction::FCVT_D_WU { rd, .. }
            | Instruction::FCVT_L_D { rd, .. }
            | Instruction::FCVT_LU_D { rd, .. }
            | Instruction::FMV_X_D { rd, .. }
            | Instruction::FCVT_D_L { rd, .. }
            | Instruction::FCVT_D_LU { rd, .. }
            | Instruction::FMV_D_X { rd, .. } => Some(rd),
            _ => None,
        }
    }

    /// The first source register, for the instructions that have one.
    pub open spec fn rs1(self) -> Option<u8> {
        match self {
            Instruction::JALR { rs1, .. }
            | Instruction::BEQ { rs1, .. }
            | Instruction::BNE { rs1, .. }
            | Instruction::BLT { rs1, .. }
            | Instruction::BGE { rs1, .. }
            | Instruction::BLTU { rs1, .. }
            | Instruction::BGEU { rs1, .. }
            | Instruction::LB { rs1, .. }
            | Instruction::LH { rs1, .. }
            | Instruction::LW { rs1, .. }
            | Instruction::LBU { rs1, .. }
            | Instruction::LHU { rs1, .. }
            | Instruction::SB { rs1, .. }
            | Instruction::SH { rs1, .. }
            | Instruction::SW { rs1, .. }
            | Instruction::ADDI { rs1, .. }
            | Instruction::SLTI { rs1, .. }
            | Instruction::SLTIU { rs1, .. }
            | Instruction::XORI { rs1, .. }
            | Instruction::ORI { rs1, .. }
            | Instruction::ANDI { rs1, .. }
            | Instruction::SLLI { rs1, .. }
            | Instruction::SRLI { rs1, .. }
            | Instruction::SRAI { rs1, .. }
            | Instruction::ADD { rs1, .. }
            | Instruction::SUB { rs1, .. }
            | Instruction::SLL { rs1, .. }
            | Instruction::SLT { rs1, .. }
            | Instruction::SLTU { rs1, .. }
            | Instruction::XOR { rs1, .. }
            | Instruction::SRL { rs1, .. }
            | Instruction::SRA { rs1, .. }
            | Instruction::OR { rs1, .. }
            | Instruction::AND { rs1, .. }
            | Instruction::CSRRW { rs1, .. }
            | Instruction::CSRRS { rs1, .. }
            | Instruction::CSRRC { rs1, .. }
            | Instruction::LWU { rs1, .. }
            | Instruction::LD { rs1, .. }
            | Instruction::SD { rs1, .. }
            | Instruction::ADDIW { rs1, .. }
            | Instruction::SLLIW { rs1, .. }
            | Instruction::SRLIW { rs1, .. }
            | Instruction::SRAIW { rs1, .. }
            | Instruction::ADDW { rs1, .. }
            | Instruction::SUBW { rs1, .. }
            | Instruction::SLLW { rs1, .. }
            | Instruction::SRLW { rs1, .. }
            | Instruction::SRAW { rs1, .. }
            | Instruction::MUL { rs1, .. }
            | Instruction::MULH { rs1, .. }
            | Instruction::MULHSU { rs1, .. }
            | Instruction::MULHU { rs1, .. }
            | Instruction::DIV { rs1, .. }
            | Instruction::DIVU { rs1, .. }
            | Instruction::REM { rs1, .. }
            | Instruction::REMU { rs1, .. }
            | Instruction::MULW { rs1, .. }
            | Instruction::DIVW { rs1, .. }
            | Instruction::DIVUW { rs1, .. }
            | Instruction::REMW { rs1, .. }
            | Instruction::REMUW { rs1, .. }
            | Instruction::LR_W { rs1, .. }
            | Instruction::SC_W { rs1, .. }
            | Instruction::AMOSWAP_W { rs1, .. }
            | Instruction::AMOADD_W { rs1, .. }
            | Instruction::AMOXOR_W { rs1, .. }
            | Instruction::AMOAND_W { rs1, .. }
            | Instruction::AMOOR_W { rs1, .. }
            | Instruction::AMOMIN_W { rs1, .. }
            | Instruction::AMOMAX_W { rs1, .. }
            | Instruction::AMOMINU_W { rs1, .. }
            | Instruction::AMOMAXU_W { rs1, .. }
            | Instruction::LR_D { rs1, .. }
            | Instruction::SC_D { rs1, .. }
            | Instruction::AMOSWAP_D { rs1, .. }
            | Instruction::AMOADD_D { rs1, .. }
            | Instruction::AMOXOR_D { rs1, .. }
            | Instruction::AMOAND_D { rs1, .. }
            | Instruction::AMOOR_D { rs1, .. }
            | Instruction::AMOMIN_D { rs1, .. }
            | Instruction::AMOMAX_D { rs1, .. }
            | Instruction::AMOMINU_D { rs1, .. }
            | Instruction::AMOMAXU_D { rs1, .. }
            | Instruction::FLW { rs1, .. }
            | Instruction::FSW { rs1, .. }
            | Instruction::FMADD_S { rs1, .. }
            | Instruction::FMSUB_S { rs1, .. }
            | Instruction::FNMSUB_S { rs1, .. }
            | Instruction::FNMADD_S { rs1, .. }
            | Instruction::FADD_S { rs1, .. }
            | Instruction::FSUB_S { rs1, .. }
            | Instruction::FMUL_S { rs1, .. }
            | Instruction::FDIV_S { rs1, .. }
            | Instruction::FSQRT_S { rs1, .. }
            | Instruction::FSGNJ_S { rs1, .. }
            | Instruction::FSGNJN_S { rs1, .. }
            | Instruction::FSGNJX_S { rs1, .. }
            | Instruction::FMIN_S { rs1, .. }
            | Instruction::FMAX_S { rs1, .. }
            | Instruction::FCVT_W_S { rs1, .. }
            | Instruction::FCVT_WU_S { rs1, .. }
            | Instruction::FMV_X_S { rs1, .. }
            | Instruction::FEQ_S { rs1, .. }
            | Instruction::FLT_S { rs1, .. }
            | Instruction::FLE_S { rs1, .. }
            | Instruction::FCLASS_S { rs1, .. }
            | Instruction::FCVT_S_W { rs1, .. }
            | Instruction::FCVT_S_WU { rs1, .. }
            | Instruction::FMV_S_X { rs1, .. }
            | Instruction::FCVT_L_S { rs1, .. }
            | Instruction::FCVT_LU_S { rs1, .. }
            | Instruction::FCVT_S_L { rs1, .. }
            | Instruction::FCVT_S_LU { rs1, .. }
            | Instruction::FLD { rs1, .. }
            | Instruction::FSD { rs1, .. }
            | Instruction::FMADD_D { rs1, .. }
            | Instruction::FMSUB_D { rs1, .. }
            | Instruction::FNMSUB_D { rs1, .. }
            | Instruction::FNMADD_D { rs1, .. }
            | Instruction::FADD_D { rs1, .. }
            | Instruction::FSUB_D { rs1, .. }
            | Instruction::FMUL_D { rs1, .. }
            | Instruction::FDIV_D { rs1, .. }
            | Instruction::FSQRT_D { rs1, .. }
            | Instruction::FSGNJ_D { rs1, .. }
            | Instruction::FSGNJN_D { rs1, .. }
            | Instruction::FSGNJX_D { rs1, .. }
            | Instruction::FMIN_D { rs1, .. }
            | Instruction::FMAX_D { rs1, .. }
            | Instruction::FCVT_S_D { rs1, .. }
            | Instruction::FCVT_D_S { rs1, .. }
            | Instruction::FEQ_D { rs1, .. }
            | Instruction::FLT_D { rs1, .. }
            | Instruction::FLE_D { rs1, .. }
            | Instruction::FCLASS_D { rs1, .. }
            | Instruction::FCVT_W_D { rs1, .. }
            | Instruction::FCVT_WU_D { rs1, .. }
            | Instruction::FCVT_D_W { rs1, .. }
            | Instruction::FCVT_D_WU { rs1, .. }
            | Instruction::FCVT_L_D { rs1, .. }
            | Instruction::FCVT_LU_D { rs1, .. }
            | Instruction::FMV_X_D { rs1, .. }
            | Instruction::FCVT_D_L { rs1, .. }
            | Instruction::FCVT_D_LU { rs1, .. }
            | Instruction::FMV_D_X { rs1, .. } => Some(rs1),
            _ => None,
        }
    }

    /// The second source register, for the instructions that have one.
    pub open spec fn rs2(self) -> Option<u8> {
        match self {
            Instruction::BEQ { rs2, .. }
            | Instruction::BNE { rs2, .. }
            | Instruction::BLT { rs2, .. }
            | Instruction::BGE { rs2, .. }
            | Instruction::BLTU { rs2, .. }
            | Instruction::BGEU { rs2, .. }
            | Instruction::SB { rs2, .. }
            | Instruction::SH { rs2, .. }
            | Instruction::SW { rs2, .. }
            | Instruction::ADD { rs2, .. }
            | Instruction::SUB { rs2, .. }
            | Instruction::SLL { rs2, .. }
            | Instruction::SLT { rs2, .. }
            | Instruction::SLTU { rs2, .. }
            | Instruction::XOR { rs2, .. }
            | Instruction::SRL { rs2, .. }
            | Instruction::SRA { rs2, .. }
            | Instruction::OR { rs2, .. }
            | Instruction::AND { rs2, .. }
            | Instruction::SD { rs2, .. }
            | Instruction::ADDW { rs2, .. }
            | Instruction::SUBW { rs2, .. }
            | Instruction::SLLW { rs2, .. }
            | Instruction::SRLW { rs2, .. }
            | Instruction::SRAW { rs2, .. }
            | Instruction::MUL { rs2, .. }
            | Instruction::MULH { rs2, .. }
            | Instruction::MULHSU { rs2, .. }
            | Instruction::MULHU { rs2, .. }
            | Instruction::DIV { rs2, .. }
            | Instruction::DIVU { rs2, .. }
            | Instruction::REM { rs2, .. }
            | Instruction::REMU { rs2, .. }
            | Instruction::MULW { rs2, .. }
            | Instruction::DIVW { rs2, .. }
            | Instruction::DIVUW { rs2, .. }
            | Instruction::REMW { rs2, .. }
            | Instruction::REMUW { rs2, .. }
            | Instruction::AMOSWAP_W { rs2, .. }
            | Instruction::AMOADD_W { rs2, .. }
            | Instruction::AMOXOR_W { rs2, .. }
            | Instruction::AMOAND_W { rs2, .. }
            | Instruction::AMOOR_W { rs2, .. }
            | Instruction::AMOMIN_W { rs2, .. }
            | Instruction::AMOMAX_W { rs2, .. }
            | Instruction::AMOMINU_W { rs2, .. }
            | Instruction::AMOMAXU_W { rs2, .. }
            | Instruction::AMOSWAP_D { rs2, .. }
            | Instruction::AMOADD_D { rs2, .. }
            | Instruction::AMOXOR_D { rs2, .. }
            | Instruction::AMOAND_D { rs2, .. }
            | Instruction::AMOOR_D { rs2, .. }
            | Instruction::AMOMIN_D { rs2, .. }
            | Instruction::AMOMAX_D { rs2, .. }
            | Instruction::AMOMINU_D { rs2, .. }
            | Instruction::AMOMAXU_D { rs2, .. }
            | Instruction::FMADD_S { rs2, .. }
            | Instruction::FMSUB_S { rs2, .. }
            | Instruction::FNMSUB_S { rs2, .. }
            | Instruction::FNMADD_S { rs2, .. }
            | Instruction::FADD_S { rs2, .. }
            | Instruction::FSUB_S { rs2, .. }
            | Instruction::FMUL_S { rs2, .. }
            | Instruction::FDIV_S { rs2, .. }
            | Instruction::FSGNJ_S { rs2, .. }
            | Instruction::FSGNJN_S { rs2, .. }
            | Instruction::FSGNJX_S { rs2, .. }
            | Instruction::FMIN_S { rs2, .. }
            | Instruction::FMAX_S { rs2, .. }
            | Instruction::FEQ_S { rs2, .. }
            | Instruction::FLT_S { rs2, .. }
            | Instruction::FLE_S { rs2, .. }
            | Instruction::FMADD_D { rs2, .. }
            | Instruction::FMSUB_D { rs2, .. }
            | Instruction::FNMSUB_D { rs2, .. }
            | Instruction::FNMADD_D { rs2, .. }
            | Instruction::FADD_D { rs2, .. }
            | Instruction::FSUB_D { rs2, .. }
            | Instruction::FMUL_D { rs2, .. }
            | Instruction::FDIV_D { rs2, .. }
            | Instruction::FSGNJ_D { rs2, .. }
            | Instruction::FSGNJN_D { rs2, .. }
            | Instruction::FSGNJX_D { rs2, .. }
            | Instruction::FMIN_D { rs2, .. }
            | Instruction::FMAX_D { rs2, .. }
            | Instruction::FEQ_D { rs2, .. }
            | Instruction::FLT_D { rs2, .. }
            | Instruction::FLE_D { rs2, .. } => Some(rs2),
            _ => None,
        }
    }

    /// The third source register, for the instructions that have one.
    pub open spec fn rs3(self) -> Option<u8> {
        match self {
            Instruction::FMADD_S { rs3, .. }
            | Instruction::FMSUB_S { rs3, .. }
            | Instruction::FNMSUB_S { rs3, .. }
            | Instruction::FNMADD_S { rs3, .. }
            | Instruction::FMADD_D { rs3, .. }
            | Instruction::FMSUB_D { rs3, .. }
            | Instruction::FNMSUB_D { rs3, .. }
            | Instruction::FNMADD_D { rs3, .. } => Some(rs3),
            _ => None,
        }
    }

    /// The operands are in the ranges that the instruction formats give
    /// them: a register number is below 32; a shift amount has six bits, or
    /// five where the operation is on 32-bit words; the address of a control
    /// and status register has twelve bits; an immediate lies in the range
    /// of its format, with the zero low bits that the format implies.
    pub open spec fn wf(self) -> bool {
        &&& self.rd() matches Some(rd) ==> rd < 32
        &&& self.rs1() matches Some(rs1) ==> rs1 < 32
        &&& self.rs2() matches Some(rs2) ==> rs2 < 32
        &&& self.rs3() matches Some(rs3) ==> rs3 < 32
        &&& match self {
            Instruction::LUI { imm, .. }
            | Instruction::AUIPC { imm, .. } => imm % 0x1000 == 0,
            Instruction::JAL { imm, .. } => -1048576 <= imm <= 1048574 && imm % 2 == 0,
            Instruction::BEQ { imm, .. }
            | Instruction::BNE { imm, .. }
            | Instruction::BLT { imm, .. }
            | Instruction::BGE { imm, .. }
            | Instruction::BLTU { imm, .. }
            | Instruction::BGEU { imm, .. } => -4096 <= imm <= 4094 && imm % 2 == 0,
            Instruction::SB { imm, .. }
            | Instruction::SH { imm, .. }
            | Instruction::SW { imm, .. }
            | Instruction::SD { imm, .. }
            | Instruction::FSW { imm, .. }
            | Instruction::FSD { imm, .. }
            | Instruction::JALR { imm, .. }
            | Instruction::LB { imm, .. }
            | Instruction::LH { imm, .. }
            | Instruction::LW { imm, .. }
            | Instruction::LBU { imm, .. }
            | Instruction::LHU { imm, .. }
            | Instruction::ADDI { imm, .. }
            | Instruction::SLTI { imm, .. }
            | Instruction::SLTIU { imm, .. }
            | Instruction::XORI { imm, .. }
            | Instruction::ORI { imm, .. }
            | Instruction::ANDI { imm, .. }
            | Instruction::LWU { imm, .. }
            | Instruction::LD { imm, .. }
            | Instruction::ADDIW { imm, .. }
            | Instruction::FLW { imm, .. }
            | Instruction::FLD { imm, .. } => -2048 <= imm <= 2047,
            Instruction::SLLI { shamt, .. }
            | Instruction::SRLI { shamt, .. }
            | Instruction::SRAI { shamt, .. } => shamt < 64,
            Instruction::SLLIW { shamt, .. }
            | Instruction::SRLIW { shamt, .. }
            | Instruction::SRAIW { shamt, .. } => shamt < 32,
            Instruction::CSRRW { csr, .. }
            | Instruction::CSRRS { csr, .. }
            | Instruction::CSRRC { csr, .. } => csr < 4096,
            Instruction::CSRRWI { zimm, csr, .. }
            | Instruction::CSRRSI { zimm, csr, .. }
            | Instruction::CSRRCI { zimm, csr, .. } => zimm < 32 && csr < 4096,
            Instruction::FENCE { succ, pred } => succ < 16 && pred < 16,
            _ => true,
        }
    }
}

} // verus!
