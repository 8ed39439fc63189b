//! The fixed-position fields of a 32-bit instruction word.
//!
//! A field that starts at bit `p` and is `n` bits wide is the number
//! `(word / 2^p) mod 2^n`. The spec functions say so; the executable
//! functions compute it with a shift and a mask.

use vstd::prelude::*;

verus! {

/// Bits 1:0 are `11`: the word is one 32-bit instruction.
pub open spec fn is_full_width(word: u32) -> bool {
    word % 4 == 3
}

/// Bits 6:2, the major opcode.
pub open spec fn opcode_field(word: u32) -> u8 {
    ((word / 0x4) % 0x20) as u8
}

/// Bits 11:7, the destination register.
pub open spec fn rd_field(word: u32) -> u8 {
    ((word / 0x80) % 0x20) as u8
}

/// Bits 14:12.
pub open spec fn funct3_field(word: u32) -> u8 {
    ((word / 0x1000) % 0x8) as u8
}

/// Bits 19:15, the first source register.
pub open spec fn rs1_field(word: u32) -> u8 {
    ((word / 0x8000) % 0x20) as u8
}

/// Bits 24:20, the second source register.
pub open spec fn rs2_field(word: u32) -> u8 {
    ((word / 0x10_0000) % 0x20) as u8
}

/// Bits 31:25.
pub open spec fn funct7_field(word: u32) -> u8 {
    (word / 0x200_0000) as u8
}

/// Bits 31:20, the address of a control and status register.
pub open spec fn csr_field(word: u32) -> u16 {
    (word / 0x10_0000) as u16
}

/// The shift amount of a shift by a constant: bits 24:20 where registers are
/// 32 bits wide, bits 25:20 where they are 64 bits wide.
pub open spec fn shamt_field(word: u32, rv64: bool) -> u8 {
    if rv64 {
        ((word / 0x10_0000) % 0x40) as u8
    } else {
        ((word / 0x10_0000) % 0x20) as u8
    }
}

/// Bits 23:20, the successor set of a `FENCE`.
pub open spec fn succ_field(word: u32) -> u8 {
    ((word / 0x10_0000) % 0x10) as u8
}

/// Bits 27:24, the predecessor set of a `FENCE`.
pub open spec fn pred_field(word: u32) -> u8 {
    ((word / 0x100_0000) % 0x10) as u8
}

/// Bits 31:28.
pub open spec fn top_nibble(word: u32) -> u8 {
    (word / 0x1000_0000) as u8
}

/// Each field is the slice of the word's bits that its position names: the
/// word shifted right to the field's lowest bit and masked to its width.
pub proof fn lemma_fields_are_bit_slices(word: u32)
    ensures
        is_full_width(word) <==> word & 0x03 == 0x03,
        opcode_field(word) == (word >> 2) & 0x1F,
        rd_field(word) == (word >> 7) & 0x1F,
        funct3_field(word) == (word >> 12) & 0x07,
        rs1_field(word) == (word >> 15) & 0x1F,
        rs2_field(word) == (word >> 20) & 0x1F,
        funct7_field(word) == (word >> 25) & 0x7F,
        csr_field(word) == (word >> 20) & 0x0FFF,
        shamt_field(word, false) == (word >> 20) & 0x1F,
        shamt_field(word, true) == (word >> 20) & 0x3F,
        succ_field(word) == (word >> 20) & 0x0F,
        pred_field(word) == (word >> 24) & 0x0F,
        top_nibble(word) == word >> 28,
{
    assert(word & 0x03 == word % 4 && (word >> 2) & 0x1F == (word / 0x4) % 0x20 && (word >> 7)
        & 0x1F == (word / 0x80) % 0x20 && (word >> 12) & 0x07 == (word / 0x1000) % 0x8 && (word
        >> 15) & 0x1F == (word / 0x8000) % 0x20 && (word >> 20) & 0x1F == (word / 0x10_0000)
        % 0x20) by (bit_vector);
    assert((word >> 25) & 0x7F == word / 0x200_0000 && (word >> 20) & 0x0FFF == word / 0x10_0000
        && (word >> 20) & 0x3F == (word / 0x10_0000) % 0x40 && (word >> 20) & 0x0F == (word
        / 0x10_0000) % 0x10 && (word >> 24) & 0x0F == (word / 0x100_0000) % 0x10 && word >> 28
        == word / 0x1000_0000) by (bit_vector);
}

/// Tells whether `word` is one 32-bit instruction.
pub fn has_full_width(word: u32) -> (full: bool)
    ensures
        full == is_full_width(word),
{
    proof {
        lemma_fields_are_bit_slices(word);
    }
    (word & 0x03) == 0x03
}

/// Extracts the major opcode.
pub fn opcode_of(word: u32) -> (field: u8)
    ensures
        field == opcode_field(word),
        field < 32,
{
    proof {
        lemma_fields_are_bit_slices(word);
    }
    ((word >> 2) & 0x1F) as u8
}

/// Extracts the destination register.
pub fn rd_of(word: u32) -> (field: u8)
    ensures
        field == rd_field(word),
        field < 32,
{
    proof {
        lemma_fields_are_bit_slices(word);
    }
    ((word >> 7) & 0x1F) as u8
}

/// Extracts `funct3`.
pub fn funct3_of(word: u32) -> (field: u8)
    ensures
        field == funct3_field(word),
        field < 8,
{
    proof {
        lemma_fields_are_bit_slices(word);
    }
    ((word >> 12) & 0x07) as u8
}

/// Extracts the first source register.
pub fn rs1_of(word: u32) -> (field: u8)
    ensures
        field == rs1_field(word),
        field < 32,
{
    proof {
        lemma_fields_are_bit_slices(word);
    }
    ((word >> 15) & 0x1F) as u8
}

/// Extracts the second source register.
pub fn rs2_of(word: u32) -> (field: u8)
    ensures
        field == rs2_field(word),
        field < 32,
{
    proof {
        lemma_fields_are_bit_slices(word);
    }
    ((word >> 20) & 0x1F) as u8
}

/// Extracts `funct7`.
pub fn funct7_of(word: u32) -> (field: u8)
    ensures
        field == funct7_field(word),
        field < 128,
{
    proof {
        lemma_fields_are_bit_slices(word);
    }
    ((word >> 25) & 0x7F) as u8
}

/// Extracts the address of the control and status register.
pub fn csr_of(word: u32) -> (field: u16)
    ensures
        field == csr_field(word),
        field < 4096,
{
    proof {
        lemma_fields_are_bit_slices(word);
    }
    ((word >> 20) & 0x0FFF) as u16
}

/// Extracts the shift amount, five bits wide or, with `rv64`, six.
pub fn shamt_of(word: u32, rv64: bool) -> (field: u8)
    ensures
        field == shamt_field(word, rv64),
        field < 64,
        !rv64 ==> field < 32,
{
    if rv64 {
        proof {
            lemma_fields_are_bit_slices(word);
        }
        ((word >> 20) & 0x3F) as u8
    } else {
        rs2_of(word)
    }
}

/// Extracts the successor set of a `FENCE`.
pub fn succ_of(word: u32) -> (field: u8)
    ensures
        field == succ_field(word),
        field < 16,
{
    proof {
        lemma_fields_are_bit_slices(word);
    }
    ((word >> 20) & 0x0F) as u8
}

/// Extracts the predecessor set of a `FENCE`.
pub fn pred_of(word: u32) -> (field: u8)
    ensures
        field == pred_field(word),
        field < 16,
{
    proof {
        lemma_fields_are_bit_slices(word);
    }
    ((word >> 24) & 0x0F) as u8
}

/// Extracts bits 31:28.
pub fn top_nibble_of(word: u32) -> (field: u8)
    ensures
        field == top_nibble(word),
        field < 16,
{
    proof {
        lemma_fields_are_bit_slices(word);
    }
    (word >> 28) as u8
}

} // verus!
