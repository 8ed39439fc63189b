//! Field values of the single-precision floating-point extension.

pub mod funct3;
pub mod rs2;
pub mod funct7;
