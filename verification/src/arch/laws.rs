//! What holds of every decoding.

use crate::arch::constants::funct3;
use crate::arch::constants::opcode;
use crate::arch::decoder::DecodeError;
use crate::arch::decoder::Instruction;
use crate::arch::encoding::{
    decoded, is_fence, is_fence_i, known_encoding, EBREAK_WORD, ECALL_WORD,
};
use crate::arch::fields::{
    funct3_field, funct7_field, is_full_width, lemma_fields_are_bit_slices, opcode_field, rd_field,
    rs1_field, rs2_field,
};
use crate::arch::immediates::lemma_immediate_ranges;
use vstd::prelude::*;

verus! {

/// The register operands of a decoded instruction are the five-bit fields of
/// the word: `rd` is bits 11:7, `rs1` is bits 19:15 and `rs2` is bits 24:20.
/// No instruction of the table has a third source register.
pub proof fn lemma_register_operands_are_fields(word: u32, rv64: bool)
    ensures
        decoded(word, rv64) matches Ok(ins) ==> {
            &&& ins.rd() matches Some(rd) ==> rd == rd_field(word) && rd == (word >> 7) & 0x1F
            &&& ins.rs1() matches Some(rs1) ==> rs1 == rs1_field(word) && rs1 == (word >> 15)
                & 0x1F
            &&& ins.rs2() matches Some(rs2) ==> rs2 == rs2_field(word) && rs2 == (word >> 20)
                & 0x1F
            &&& ins.rs3() is None
        },
{
    lemma_fields_are_bit_slices(word);
}

/// Every decoded instruction has its operands in the ranges of its format.
pub proof fn lemma_decoded_is_well_formed(word: u32, rv64: bool)
    ensures
        decoded(word, rv64) matches Ok(ins) ==> ins.wf(),
{
    lemma_immediate_ranges(word);
}

/// Every word falls under exactly one of five cases, and the case is read
/// off the word: it is no full-width instruction; its opcode, `funct3` and
/// `funct7` select nothing; it is a malformed fence; it is a malformed
/// environment instruction; or it is an instruction.
pub proof fn lemma_outcome_by_case(word: u32, rv64: bool)
    ensures
        decoded(word, rv64) is Ok != decoded(word, rv64) is Err,
        decoded(word, rv64) is Ok <==> {
            &&& is_full_width(word)
            &&& known_encoding(rv64, opcode_field(word), funct3_field(word), funct7_field(word))
            &&& opcode_field(word) == opcode::MISC_MEM ==> is_fence(word) || is_fence_i(word)
            &&& opcode_field(word) == opcode::SYSTEM && funct3_field(word) == funct3::ECALL
                ==> word == ECALL_WORD || word == EBREAK_WORD
        },
        decoded(word, rv64) == Err::<Instruction, DecodeError>(DecodeError::UnsupportedLength)
            <==> !is_full_width(word),
        decoded(word, rv64) == Err::<Instruction, DecodeError>(DecodeError::UnknownEncoding) <==> {
            &&& is_full_width(word)
            &&& !known_encoding(rv64, opcode_field(word), funct3_field(word), funct7_field(word))
        },
        decoded(word, rv64) == Err::<Instruction, DecodeError>(DecodeError::MalformedFence) <==> {
            &&& is_full_width(word)
            &&& opcode_field(word) == opcode::MISC_MEM
            &&& !is_fence(word)
            &&& !is_fence_i(word)
        },
        decoded(word, rv64) == Err::<Instruction, DecodeError>(DecodeError::MalformedSystem) <==> {
            &&& is_full_width(word)
            &&& opcode_field(word) == opcode::SYSTEM
            &&& funct3_field(word) == funct3::ECALL
            &&& word != ECALL_WORD
            &&& word != EBREAK_WORD
        },
{
}

/// The outcome is a function of the word and of the register width alone:
/// equal arguments give equal outcomes.
pub proof fn lemma_decoding_is_deterministic(
    word_a: u32,
    rv64_a: bool,
    word_b: u32,
    rv64_b: bool,
)
    requires
        word_a == word_b,
        rv64_a == rv64_b,
    ensures
        decoded(word_a, rv64_a) == decoded(word_b, rv64_b),
{
}

/// The instruction set for 64-bit registers extends the one for 32-bit
/// registers: a word that is an instruction there is the same instruction
/// here.
pub proof fn lemma_wide_set_extends_narrow(word: u32)
    ensures
        decoded(word, false) is Ok ==> decoded(word, true) == decoded(word, false),
{
}

} // verus!
