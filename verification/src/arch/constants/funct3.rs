//! The `funct3` field (bits 14:12) of the base integer instructions.

use vstd::prelude::*;

verus! {

pub const JALR: u8 = 0b000;
pub const BEQ: u8 = 0b000;
pub const BNE: u8 = 0b001;
pub const BLT: u8 = 0b100;
pub const BGE: u8 = 0b101;
pub const BLTU: u8 = 0b110;
pub const BGEU: u8 = 0b111;
pub const LB: u8 = 0b000;
pub const LH: u8 = 0b001;
pub const LW: u8 = 0b010;
pub const LD: u8 = 0b011;
pub const LBU: u8 = 0b100;
pub const LHU: u8 = 0b101;
pub const LWU: u8 = 0b110;
pub const SB: u8 = 0b000;
pub const SH: u8 = 0b001;
pub const SW: u8 = 0b010;
pub const SD: u8 = 0b011;
pub const ADDI: u8 = 0b000;
pub const ADDIW: u8 = 0b000;
pub const SLTI: u8 = 0b010;
pub const SLTIU: u8 = 0b011;
pub const XORI: u8 = 0b100;
pub const ORI: u8 = 0b110;
pub const ANDI: u8 = 0b111;
pub const SLLI: u8 = 0b001;
pub const SLLIW: u8 = 0b001;
pub const SRLI: u8 = 0b101;
pub const SRLIW: u8 = 0b101;
pub const SRAI: u8 = 0b101;
pub const SRAIW: u8 = 0b101;
pub const ADD: u8 = 0b000;
pub const ADDW: u8 = 0b000;
pub const SUB: u8 = 0b000;
pub const SUBW: u8 = 0b000;
pub const SLL: u8 = 0b001;
pub const SLLW: u8 = 0b001;
pub const SLT: u8 = 0b010;
pub const SLTU: u8 = 0b011;
pub const XOR: u8 = 0b100;
pub const SRL: u8 = 0b101;
pub const SRLW: u8 = 0b101;
pub const SRA: u8 = 0b101;
pub const SRAW: u8 = 0b101;
pub const OR: u8 = 0b110;
pub const AND: u8 = 0b111;
pub const FENCE: u8 = 0b000;
pub const FENCE_I: u8 = 0b001;
pub const ECALL: u8 = 0b000;
pub const EBREAK: u8 = 0b000;
pub const CSRRW: u8 = 0b001;
pub const CSRRS: u8 = 0b010;
pub const CSRRC: u8 = 0b011;
pub const CSRRWI: u8 = 0b101;
pub const CSRRSI: u8 = 0b110;
pub const CSRRCI: u8 = 0b111;

} // verus!
