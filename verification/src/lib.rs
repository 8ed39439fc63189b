//! Decoder for 32-bit RISC-V machine words.
//!
//! The crate turns a raw instruction word into a typed [`arch::decoder::Instruction`]
//! and proves, for every word, which instruction or which error comes out.
#![allow(non_camel_case_types)]

pub mod arch;
