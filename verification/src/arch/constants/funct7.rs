//! The `funct7` field (bits 31:25) of the base integer instructions.

use vstd::prelude::*;

verus! {

pub const SLLI: u8 = 0b0000000;
pub const SLLIW: u8 = 0b0000000;
pub const SRLI: u8 = 0b0000000;
pub const SRLIW: u8 = 0b0000000;
pub const SRAI: u8 = 0b0100000;
pub const SRAIW: u8 = 0b0100000;
pub const ADD: u8 = 0b0000000;
pub const ADDW: u8 = 0b0000000;
pub const SUB: u8 = 0b0100000;
pub const SUBW: u8 = 0b0100000;
pub const SLL: u8 = 0b0000000;
pub const SLLW: u8 = 0b0000000;
pub const SLT: u8 = 0b0000000;
pub const SLTU: u8 = 0b0000000;
pub const XOR: u8 = 0b0000000;
pub const SRL: u8 = 0b0000000;
pub const SRLW: u8 = 0b0000000;
pub const SRA: u8 = 0b0100000;
pub const SRAW: u8 = 0b0100000;
pub const OR: u8 = 0b0000000;
pub const AND: u8 = 0b0000000;

} // verus!
