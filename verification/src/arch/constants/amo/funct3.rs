//! The `funct3` field (bits 14:12) of the atomic instructions.

use vstd::prelude::*;

verus! {

pub const LR_W: u8 = 0b010;
pub const SC_W: u8 = 0b010;
pub const AMOSWAP_W: u8 = 0b010;
pub const AMOADD_W: u8 = 0b010;
pub const AMOXOR_W: u8 = 0b010;
pub const AMOAND_W: u8 = 0b010;
pub const AMOOR_W: u8 = 0b010;
pub const AMOMIN_W: u8 = 0b010;
pub const AMOMAX_W: u8 = 0b010;
pub const AMOMINU_W: u8 = 0b010;
pub const AMOMAXU_W: u8 = 0b010;

} // verus!
