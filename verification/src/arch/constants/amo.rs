//! Field values of the atomic memory extension.

pub mod funct3;
pub mod funct5;
