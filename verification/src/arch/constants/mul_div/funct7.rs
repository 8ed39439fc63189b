//! The `funct7` field (bits 31:25) of the multiply and divide instructions.

use vstd::prelude::*;

verus! {

pub const MUL: u8 = 0b0000001;
pub const MULH: u8 = 0b0000001;
pub const MULHSU: u8 = 0b0000001;
pub const MULHU: u8 = 0b0000001;
pub const DIV: u8 = 0b0000001;
pub const DIVU: u8 = 0b0000001;
pub const REM: u8 = 0b0000001;
pub const REMU: u8 = 0b0000001;
pub const MULW: u8 = 0b0000001;
pub const DIVW: u8 = 0b0000001;
pub const DIVUW: u8 = 0b0000001;
pub const REMW: u8 = 0b0000001;
pub const REMUW: u8 = 0b0000001;

} // verus!
