use ruscy_v::arch::decoder::{DecodeError, Instruction};

#[test]
fn register_operands_are_the_five_bit_fields() {
    let mut rd: u32 = 0;
    while rd < 32 {
        let mut rs1: u32 = 0;
        while rs1 < 32 {
            let mut rs2: u32 = 0;
            while rs2 < 32 {
                let regs: u32 = (rs2 << 20) | (rs1 << 15) | (rd << 7);
                let (d, a, b): (u8, u8, u8) = (rd as u8, rs1 as u8, rs2 as u8);
                // XOR, BLT (rd holds immediate bits), SW, LW (rs2 holds
                // immediate bits) and SUBW.
                assert_eq!(
                    Instruction::decode32(regs | 0x00004033, false),
                    Ok(Instruction::XOR { rd: d, rs1: a, rs2: b })
                );
                assert!(matches!(
                    Instruction::decode32(regs | 0x00004063, false),
                    Ok(Instruction::BLT { rs1: x, rs2: y, .. }) if x == a && y == b
                ));
                assert!(matches!(
                    Instruction::decode32(regs | 0x00002023, true),
                    Ok(Instruction::SW { rs1: x, rs2: y, .. }) if x == a && y == b
                ));
                assert!(matches!(
                    Instruction::decode32(regs | 0x00002003, true),
                    Ok(Instruction::LW { rd: x, rs1: y, .. }) if x == d && y == a
                ));
                assert_eq!(
                    Instruction::decode32(regs | 0x4000003B, true),
                    Ok(Instruction::SUBW { rd: d, rs1: a, rs2: b })
                );
                rs2 += 1;
            }
            rs1 += 1;
        }
        rd += 1;
    }
}

#[test]
fn every_word_is_an_instruction_or_has_one_error() {
    let mut word: u32 = 0x12345678;
    let mut count: u32 = 0;
    let mut seen_ok: u32 = 0;
    let mut seen_length: u32 = 0;
    let mut seen_unknown: u32 = 0;
    let mut seen_fence: u32 = 0;
    let mut seen_system: u32 = 0;
    while count < 400_000 {
        let rv64: bool = count % 2 == 1;
        let outcome: Result<Instruction, DecodeError> = Instruction::decode32(word, rv64);
        assert!(outcome.is_ok() != outcome.is_err());
        if word & 3 != 3 {
            assert_eq!(outcome, Err(DecodeError::UnsupportedLength));
        } else {
            assert_ne!(outcome, Err(DecodeError::UnsupportedLength));
        }
        match outcome {
            Ok(_) => seen_ok += 1,
            Err(DecodeError::UnsupportedLength) => seen_length += 1,
            Err(DecodeError::UnknownEncoding) => seen_unknown += 1,
            Err(DecodeError::MalformedFence) => {
                assert_eq!((word >> 2) & 0x1F, 0b00011);
                seen_fence += 1
            },
            Err(DecodeError::MalformedSystem) => {
                assert_eq!((word >> 2) & 0x1F, 0b11100);
                assert_eq!((word >> 12) & 0x07, 0);
                seen_system += 1
            },
        }
        word = word.wrapping_mul(1_664_525).wrapping_add(1_013_904_223);
        count += 1;
    }
    assert_eq!(seen_ok + seen_length + seen_unknown + seen_fence + seen_system, 400_000);
    assert!(seen_ok > 0 && seen_length > 0 && seen_unknown > 0 && seen_fence > 0 && seen_system > 0);
}

#[test]
fn decoding_twice_gives_the_same_outcome() {
    let mut word: u32 = 0xCAFEF00D;
    let mut count: u32 = 0;
    while count < 200_000 {
        assert_eq!(Instruction::decode32(word, false), Instruction::decode32(word, false));
        assert_eq!(Instruction::decode32(word, true), Instruction::decode32(word, true));
        word = word.wrapping_mul(1_664_525).wrapping_add(1_013_904_223);
        count += 1;
    }
    let first: Result<Instruction, DecodeError> = Instruction::decode32(0x10B18703, false);
    let _between: Result<Instruction, DecodeError> = Instruction::decode32(0x00000073, true);
    assert_eq!(Instruction::decode32(0x10B18703, false), first);
}

#[test]
fn the_set_for_64_bit_registers_holds_the_one_for_32_bit_registers() {
    let mut word: u32 = 0x0BADCAFE;
    let mut count: u32 = 0;
    while count < 400_000 {
        let narrow: Result<Instruction, DecodeError> = Instruction::decode32(word | 3, false);
        if narrow.is_ok() {
            assert_eq!(Instruction::decode32(word | 3, true), narrow);
        }
        word = word.wrapping_mul(1_664_525).wrapping_add(1_013_904_223);
        count += 1;
    }
}

#[test]
fn operands_of_decoded_shifts_fit_their_width() {
    let mut shamt: u32 = 0;
    while shamt < 64 {
        // SRLI x1, x2, shamt
        let word: u32 = 0x00015093 | (shamt << 20);
        let wide: Result<Instruction, DecodeError> = Instruction::decode32(word, true);
        assert_eq!(wide, Ok(Instruction::SRLI { rd: 1, rs1: 2, shamt: shamt as u8 }));
        let narrow: Result<Instruction, DecodeError> = Instruction::decode32(word, false);
        if shamt < 32 {
            assert_eq!(narrow, wide);
        } else {
            assert_eq!(narrow, Err(DecodeError::UnknownEncoding));
        }
        shamt += 1;
    }
}
