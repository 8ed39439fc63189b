//! The `funct3` field (bits 14:12) of the single-precision instructions
//! that do not carry a rounding mode there.

use vstd::prelude::*;

verus! {

pub const FLW: u8 = 0b010;
pub const FSW: u8 = 0b010;
pub const FSGNJ_S: u8 = 0b000;
pub const FSGNJN_S: u8 = 0b001;
pub const FSGNJX_S: u8 = 0b010;
pub const FMIN_S: u8 = 0b000;
pub const FMAX_S: u8 = 0b001;
pub const FMV_X_S: u8 = 0b000;
pub const FEQ_S: u8 = 0b010;
pub const FLT_S: u8 = 0b001;
pub const FLE_S: u8 = 0b000;
pub const FCLASS_S: u8 = 0b001;
pub const FMV_S_X: u8 = 0b000;

} // verus!
