//! The `rs2` field (bits 24:20) of the single-precision instructions that
//! use it to select an operation.

use vstd::prelude::*;

verus! {

pub const FSQRT_S: u8 = 0b00000;
pub const FCVT_W_S: u8 = 0b00000;
pub const FCVT_WU_S: u8 = 0b00001;
pub const FMV_X_S: u8 = 0b00000;
pub const FCLASS_S: u8 = 0b00000;
pub const FCVT_S_W: u8 = 0b00000;
pub const FCVT_S_WU: u8 = 0b00001;
pub const FMV_S_X: u8 = 0b00000;

} // verus!
