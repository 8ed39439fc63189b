//! The `funct7` field (bits 31:25) of the single-precision instructions.

use vstd::prelude::*;

verus! {

pub const FADD_S: u8 = 0b0000000;
pub const FSUB_S: u8 = 0b0000100;
pub const FMUL_S: u8 = 0b0001000;
pub const FDIV_S: u8 = 0b0001100;
pub const FSQRT_S: u8 = 0b0101100;
pub const FSGNJ_S: u8 = 0b0010000;
pub const FSGNJN_S: u8 = 0b0010000;
pub const FSGNJX_S: u8 = 0b0010000;
pub const FMIN_S: u8 = 0b0010100;
pub const FMAX_S: u8 = 0b0010100;
pub const FCVT_W_S: u8 = 0b1100000;
pub const FCVT_WU_S: u8 = 0b1100000;
pub const FMV_X_S: u8 = 0b1110000;
pub const FEQ_S: u8 = 0b1010000;
pub const FLT_S: u8 = 0b1010000;
pub const FLE_S: u8 = 0b1010000;
pub const FCLASS_S: u8 = 0b1110000;
pub const FCVT_S_W: u8 = 0b1101000;
pub const FCVT_S_WU: u8 = 0b1101000;
pub const FMV_S_X: u8 = 0b1111000;

} // verus!
