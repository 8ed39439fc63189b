//! The `funct3` field (bits 14:12) of the double-precision instructions
//! that do not carry a rounding mode there.

use vstd::prelude::*;

verus! {

pub const FLD: u8 = 0b011;
pub const FSD: u8 = 0b011;
pub const FSGNJ_D: u8 = 0b000;
pub const FSGNJN_D: u8 = 0b001;
pub const FSGNJX_D: u8 = 0b010;
pub const FMIN_D: u8 = 0b000;
pub const FMAX_D: u8 = 0b001;
pub const FEQ_D: u8 = 0b010;
pub const FLT_D: u8 = 0b001;
pub const FLE_D: u8 = 0b000;
pub const FCLASS_D: u8 = 0b001;

} // verus!
