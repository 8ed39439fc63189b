//! Major opcodes: bits 6:2 of a full-width instruction word.
//!
//! Bits 1:0 are left out; they are `11` in every 32-bit instruction.

use vstd::prelude::*;

verus! {

pub const LOAD: u8 = 0b00000;
pub const LOAD_FP: u8 = 0b00001;
pub const MISC_MEM: u8 = 0b00011;
pub const OP_IMM: u8 = 0b00100;
pub const AUIPC: u8 = 0b00101;
pub const OP_IMM_32: u8 = 0b00110;
pub const STORE: u8 = 0b01000;
pub const STORE_FP: u8 = 0b01001;
pub const AMO: u8 = 0b01011;
pub const OP: u8 = 0b01100;
pub const LUI: u8 = 0b01101;
pub const OP_32: u8 = 0b01110;
pub const MADD: u8 = 0b10000;
pub const MSUB: u8 = 0b10001;
pub const NMSUB: u8 = 0b10010;
pub const NMADD: u8 = 0b10011;
pub const OP_FP: u8 = 0b10100;
pub const BRANCH: u8 = 0b11000;
pub const JALR: u8 = 0b11001;
pub const JAL: u8 = 0b11011;
pub const SYSTEM: u8 = 0b11100;

} // verus!
