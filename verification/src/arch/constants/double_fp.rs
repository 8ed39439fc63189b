//! Field values of the double-precision floating-point extension.

pub mod funct3;
pub mod rs2;
pub mod funct7;
