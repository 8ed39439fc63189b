//! The instruction-set front end: field catalog, bit fields, immediates and the decoder.

pub mod constants;
pub mod decoder;
pub mod encoding;
pub mod fields;
pub mod hart;
pub mod immediates;
pub mod laws;
pub mod operands;
