//! Immediates of the I, S, B, J and U instruction formats.
//!
//! Each format scatters the bits of its immediate over the word in its own way.
//! The spec functions here give the immediate as a number, by arithmetic on the
//! word; the executable functions gather the same bits with shifts and masks.

use vstd::prelude::*;

verus! {

/// The two's-complement reading of `raw`, an unsigned field with `modulus`
/// possible values: the upper half of the range stands for the negative numbers.
pub open spec fn sign_extend(raw: int, modulus: int) -> int {
    if 2 * raw >= modulus {
        raw - modulus
    } else {
        raw
    }
}

/// The I-format immediate: bits 31:20, read as a signed 12-bit number.
pub open spec fn i_imm(word: u32) -> int {
    sign_extend((word / 0x10_0000) as int, 0x1000)
}

/// The S-format immediate: bits 31:25 above bits 11:7, read as a signed
/// 12-bit number.
pub open spec fn s_imm(word: u32) -> int {
    sign_extend(0x20 * (word / 0x200_0000) + (word / 0x80) % 0x20, 0x1000)
}

/// The B-format immediate, a signed 13-bit number whose lowest bit is not
/// encoded and is zero: bit 31 is the sign, then come bit 7, bits 30:25 and
/// bits 11:8.
pub open spec fn b_imm(word: u32) -> int {
    sign_extend(
        0x1000 * (word / 0x8000_0000) + 0x800 * ((word / 0x80) % 2) + 0x20 * ((word / 0x200_0000)
            % 0x40) + 2 * ((word / 0x100) % 0x10),
        0x2000,
    )
}

/// The J-format immediate, a signed 21-bit number whose lowest bit is not
/// encoded and is zero: bit 31 is the sign, then come bits 19:12, bit 20 and
/// bits 30:21.
pub open spec fn j_imm(word: u32) -> int {
    sign_extend(
        0x10_0000 * (word / 0x8000_0000) + 0x1000 * ((word / 0x1000) % 0x100) + 0x800 * ((word
            / 0x10_0000) % 2) + 2 * ((word / 0x20_0000) % 0x400),
        0x20_0000,
    )
}

/// The U-format immediate: bits 31:12 kept in place above twelve zero bits,
/// read as a signed 32-bit number.
pub open spec fn u_imm(word: u32) -> int {
    sign_extend(word - word % 0x1000, 0x1_0000_0000)
}

/// Every immediate lies in the range of its format. Branch and jump offsets
/// are even, and a U-format immediate is a multiple of 4096.
pub proof fn lemma_immediate_ranges(word: u32)
    ensures
        -2048 <= i_imm(word) <= 2047,
        -2048 <= s_imm(word) <= 2047,
        -4096 <= b_imm(word) <= 4094,
        b_imm(word) % 2 == 0,
        -1048576 <= j_imm(word) <= 1048574,
        j_imm(word) % 2 == 0,
        -0x8000_0000 <= u_imm(word) <= 0x7FFF_F000,
        u_imm(word) % 0x1000 == 0,
{
}

/// The corner patterns of each immediate field, whatever the other bits of
/// the word are: all bits clear is 0; all bits but the sign set is the
/// largest immediate; the sign alone is the smallest. All bits set is -1 in
/// the I and S formats and -2 in the B and J formats, whose lowest bit is
/// not encoded.
pub proof fn lemma_immediate_corner_patterns(word: u32)
    ensures
        word / 0x10_0000 == 0 ==> i_imm(word) == 0,
        word / 0x10_0000 == 0x7FF ==> i_imm(word) == 2047,
        word / 0x10_0000 == 0xFFF ==> i_imm(word) == -1,
        word / 0x10_0000 == 0x800 ==> i_imm(word) == -2048,
        word / 0x200_0000 == 0 && (word / 0x80) % 0x20 == 0 ==> s_imm(word) == 0,
        word / 0x200_0000 == 0x3F && (word / 0x80) % 0x20 == 0x1F ==> s_imm(word) == 2047,
        word / 0x200_0000 == 0x7F && (word / 0x80) % 0x20 == 0x1F ==> s_imm(word) == -1,
        word / 0x200_0000 == 0x40 && (word / 0x80) % 0x20 == 0 ==> s_imm(word) == -2048,
        word / 0x200_0000 == 0 && (word / 0x80) % 0x20 == 0 ==> b_imm(word) == 0,
        word / 0x200_0000 == 0x3F && (word / 0x80) % 0x20 == 0x1F ==> b_imm(word) == 4094,
        word / 0x200_0000 == 0x7F && (word / 0x80) % 0x20 == 0x1F ==> b_imm(word) == -2,
        word / 0x200_0000 == 0x40 && (word / 0x80) % 0x20 == 0 ==> b_imm(word) == -4096,
        word / 0x1000 == 0 ==> j_imm(word) == 0,
        word / 0x1000 == 0x7_FFFF ==> j_imm(word) == 1048574,
        word / 0x1000 == 0xF_FFFF ==> j_imm(word) == -2,
        word / 0x1000 == 0x8_0000 ==> j_imm(word) == -1048576,
        word / 0x1000 == 0 ==> u_imm(word) == 0,
        word / 0x1000 == 0x7_FFFF ==> u_imm(word) == 0x7FFF_F000,
        word / 0x1000 == 0xF_FFFF ==> u_imm(word) == -0x1000,
        word / 0x1000 == 0x8_0000 ==> u_imm(word) == -0x8000_0000,
{
}

/// Extracts the I-format immediate of `word`.
pub fn get_i_imm12(word: u32) -> (imm: i16)
    ensures
        imm == i_imm(word),
        -2048 <= imm <= 2047,
{
    let shifted: i32 = (word as i32) >> 20;
    assert(shifted == if word >= 0x8000_0000u32 {
        (word / 0x10_0000) - 0x1000
    } else {
        (word / 0x10_0000) as int
    }) by (bit_vector)
        requires
            shifted == (word as i32) >> 20,
    ;
    shifted as i16
}

/// Extracts the S-format immediate of `word`.
pub fn get_s_imm12(word: u32) -> (imm: i16)
    ensures
        imm == s_imm(word),
        -2048 <= imm <= 2047,
{
    let imm5: u32 = (word >> 7) & 0x1F;
    let imm12: u32 = word >> 25;
    let imm: u32 = (imm12 << 5) | imm5;
    assert(imm == 0x20 * (word / 0x200_0000) + (word / 0x80) % 0x20) by (bit_vector)
        requires
            imm == ((word >> 25) << 5) | ((word >> 7) & 0x1F),
    ;
    if imm < 0x0800 {
        imm as i16
    } else {
        assert(!imm < 0xFFFF_FFFFu32 && (((!imm) + 1) as u32) & 0x0FFF == 0x1000 - imm)
            by (bit_vector)
            requires
                0x0800 <= imm < 0x1000,
        ;
        let pos: u32 = ((!imm) + 1) & 0x0FFF;
        -(pos as i16)
    }
}

/// Extracts the B-format (branch) immediate of `word`.
pub fn get_sb_imm12(word: u32) -> (imm: i16)
    ensures
        imm == b_imm(word),
        imm % 2 == 0,
        -4096 <= imm <= 4094,
{
    let imm4: u32 = (word >> 8) & 0x0F;
    let imm10: u32 = (word >> 25) & 0x3F;
    let imm11: u32 = (word >> 7) & 0x01;
    let imm12: u32 = word >> 31;
    let imm: u32 = (imm12 << 12) | (imm11 << 11) | (imm10 << 5) | (imm4 << 1);
    assert(imm12 == word / 0x8000_0000 && imm == 0x1000 * (word / 0x8000_0000) + 0x800 * ((word
        / 0x80) % 2) + 0x20 * ((word / 0x200_0000) % 0x40) + 2 * ((word / 0x100) % 0x10))
        by (bit_vector)
        requires
            imm12 == word >> 31,
            imm == ((word >> 31) << 12) | (((word >> 7) & 0x01) << 11) | (((word >> 25) & 0x3F)
                << 5) | (((word >> 8) & 0x0F) << 1),
    ;
    if imm12 == 0 {
        imm as i16
    } else {
        assert(!imm < 0xFFFF_FFFFu32 && (((!imm) + 1) as u32) & 0x1FFE == 0x2000 - imm)
            by (bit_vector)
            requires
                0x1000 <= imm < 0x2000,
                imm % 2 == 0,
        ;
        let pos: u32 = ((!imm) + 1) & 0x1FFE;
        -(pos as i16)
    }
}

/// Extracts the J-format (jump) immediate of `word`.
pub fn get_jal_imm20(word: u32) -> (imm: i32)
    ensures
        imm == j_imm(word),
        imm % 2 == 0,
        -1048576 <= imm <= 1048574,
{
    let imm10: u32 = (word >> 21) & 0x03FF;
    let imm11: u32 = (word >> 20) & 0x01;
    let imm19: u32 = (word >> 12) & 0xFF;
    let imm20: u32 = (word >> 31) & 0x01;
    let imm: u32 = (imm20 << 20) | (imm19 << 12) | (imm11 << 11) | (imm10 << 1);
    assert(imm20 == word / 0x8000_0000 && imm == 0x10_0000 * (word / 0x8000_0000) + 0x1000 * ((
    word / 0x1000) % 0x100) + 0x800 * ((word / 0x10_0000) % 2) + 2 * ((word / 0x20_0000) % 0x400))
        by (bit_vector)
        requires
            imm20 == (word >> 31) & 0x01,
            imm == (((word >> 31) & 0x01) << 20) | (((word >> 12) & 0xFF) << 12) | (((word >> 20)
                & 0x01) << 11) | (((word >> 21) & 0x03FF) << 1),
    ;
    if imm20 == 0 {
        imm as i32
    } else {
        assert(!imm < 0xFFFF_FFFFu32 && (((!imm) + 1) as u32) & 0x1F_FFFF == 0x20_0000 - imm)
            by (bit_vector)
            requires
                0x10_0000 <= imm < 0x20_0000,
        ;
        let pos: u32 = ((!imm) + 1) & 0x1F_FFFF;
        -(pos as i32)
    }
}

/// Extracts the U-format immediate of `word`, already shifted into place.
pub fn get_u_imm20(word: u32) -> (imm: i32)
    ensures
        imm == u_imm(word),
        imm % 0x1000 == 0,
{
    let upper: u32 = word & 0xFFFF_F000;
    assert(upper == word - word % 0x1000) by (bit_vector)
        requires
            upper == word & 0xFFFF_F000,
    ;
    let imm: i32 = upper as i32;
    assert(imm == if upper >= 0x8000_0000u32 {
        upper - 0x1_0000_0000
    } else {
        upper as int
    }) by (bit_vector)
        requires
            imm == upper as i32,
    ;
    imm
}

} // verus!
