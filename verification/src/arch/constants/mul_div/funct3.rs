//! The `funct3` field (bits 14:12) of the multiply and divide instructions.

use vstd::prelude::*;

verus! {

pub const MUL: u8 = 0b000;
pub const MULH: u8 = 0b001;
pub const MULHSU: u8 = 0b010;
pub const MULHU: u8 = 0b011;
pub const DIV: u8 = 0b100;
pub const DIVU: u8 = 0b101;
pub const REM: u8 = 0b110;
pub const REMU: u8 = 0b111;
pub const MULW: u8 = 0b000;
pub const DIVW: u8 = 0b100;
pub const DIVUW: u8 = 0b101;
pub const REMW: u8 = 0b110;
pub const REMUW: u8 = 0b111;

} // verus!
