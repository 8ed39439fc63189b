//! The `funct5` field (bits 31:27) of the atomic instructions.

use vstd::prelude::*;

verus! {

pub const LR_W: u8 = 0b00010;
pub const SC_W: u8 = 0b00011;
pub const AMOSWAP_W: u8 = 0b00001;
pub const AMOADD_W: u8 = 0b00000;
pub const AMOXOR_W: u8 = 0b00100;
pub const AMOAND_W: u8 = 0b01100;
pub const AMOOR_W: u8 = 0b01000;
pub const AMOMIN_W: u8 = 0b10000;
pub const AMOMAX_W: u8 = 0b10100;
pub const AMOMINU_W: u8 = 0b11000;
pub const AMOMAXU_W: u8 = 0b11100;

} // verus!
