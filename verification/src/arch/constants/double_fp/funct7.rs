//! The `funct7` field (bits 31:25) of the double-precision instructions.

use vstd::prelude::*;

verus! {

pub const FADD_D: u8 = 0b0000001;
pub const FSUB_D: u8 = 0b0000101;
pub const FMUL_D: u8 = 0b0001001;
pub const FDIV_D: u8 = 0b0001101;
pub const FSQRT_D: u8 = 0b0101101;
pub const FSGNJ_D: u8 = 0b0010001;
pub const FSGNJN_D: u8 = 0b0010001;
pub const FSGNJX_D: u8 = 0b0010001;
pub const FMIN_D: u8 = 0b0010101;
pub const FMAX_D: u8 = 0b0010101;
pub const FCVT_S_D: u8 = 0b0100000;
pub const FCVT_D_S: u8 = 0b0100001;
pub const FEQ_D: u8 = 0b1010001;
pub const FLT_D: u8 = 0b1010001;
pub const FLE_D: u8 = 0b1010001;
pub const FCLASS_D: u8 = 0b1110001;
pub const FCVT_W_D: u8 = 0b1100001;
pub const FCVT_WU_D: u8 = 0b1100001;
pub const FCVT_D_W: u8 = 0b1101001;
pub const FCVT_D_WU: u8 = 0b1101001;

} // verus!
