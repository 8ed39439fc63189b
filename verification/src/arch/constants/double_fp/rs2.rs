//! The `rs2` field (bits 24:20) of the double-precision instructions that
//! use it to select an operation.

use vstd::prelude::*;

verus! {

pub const FSQRT_D: u8 = 0b00000;
pub const FCVT_S_D: u8 = 0b00001;
pub const FCVT_D_S: u8 = 0b00000;
pub const FCLASS_D: u8 = 0b00000;
pub const FCVT_W_D: u8 = 0b00000;
pub const FCVT_WU_D: u8 = 0b00001;
pub const FCVT_D_W: u8 = 0b00000;
pub const FCVT_D_WU: u8 = 0b00001;

} // verus!
