//! The field catalog: the bit pattern that each mnemonic has in each field of
//! the instruction word.
//!
//! The values are those that the RISC-V instruction set fixes. One module
//! holds one field; the extensions have a module each.

pub mod opcode;
pub mod funct3;
pub mod funct7;
pub mod mul_div;
pub mod amo;
pub mod single_fp;
pub mod double_fp;
