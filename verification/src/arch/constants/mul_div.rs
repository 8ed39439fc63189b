//! Field values of the multiply and divide extension.

pub mod funct3;
pub mod funct7;
