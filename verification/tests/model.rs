use disasm_frontend::decoder::arm64::decode_word;
use disasm_frontend::decoder::arm64::template::{
    classify, group_report, template, Family, Template, TEMPLATE_COUNT,
};
use disasm_frontend::decoder::register::Register;
use disasm_frontend::report::{Position, Report, ReportType};
use disasm_frontend::text::{decimal, hex};

#[test]
fn register_numbers_and_names() {
    assert_eq!(Register::from(0), Register::x0);
    assert_eq!(Register::from(17), Register::x17);
    assert_eq!(Register::from(30), Register::x30);
    assert_eq!(Register::from(31), Register::SP);
    assert_eq!(Register::x0.name(true), "x0");
    assert_eq!(Register::x9.name(true), "x9");
    assert_eq!(Register::x10.name(true), "x10");
    assert_eq!(Register::x30.name(true), "x30");
    assert_eq!(Register::SP.name(true), "sp");
    assert_eq!(Register::x0.name(false), "w0");
    assert_eq!(Register::x30.name(false), "w30");
    assert_eq!(Register::SP.name(false), "wsp");
}

#[test]
fn register_numbers_round_trip() {
    let mut names = Vec::new();
    for number in 0..32u32 {
        let register = Register::from(number);
        assert_eq!(register.index(), number);
        assert_eq!(Register::from(register.index()), register);
        names.push(register.name(true));
        names.push(register.name(false));
    }
    names.sort();
    names.dedup();
    assert_eq!(names.len(), 64);
}

#[test]
fn hexadecimal_text() {
    assert_eq!(hex(0), "0x0");
    assert_eq!(hex(9), "0x9");
    assert_eq!(hex(10), "0xA");
    assert_eq!(hex(0x10), "0x10");
    assert_eq!(hex(0xFF), "0xFF");
    assert_eq!(hex(0xABCDEF), "0xABCDEF");
    assert_eq!(hex(0xFFFF_FFF0), "0xFFFFFFF0");
    assert_eq!(hex(u64::MAX), "0xFFFFFFFFFFFFFFFF");
    assert_eq!(hex(0x1234_5678_9ABC_DEF0), format!("{:#X}", 0x1234_5678_9ABC_DEF0u64));
}

#[test]
fn decimal_text() {
    assert_eq!(decimal(0), "0");
    assert_eq!(decimal(7), "7");
    assert_eq!(decimal(10), "10");
    assert_eq!(decimal(4660), "4660");
    assert_eq!(decimal(65535), "65535");
    assert_eq!(decimal(u64::MAX), "18446744073709551615");
}

#[test]
fn report_descriptions() {
    assert_eq!(ReportType::IncompleteInstruction.description(), "EOF is not 4-byte aligned.");
    assert_eq!(ReportType::ReservedOpcode.description(), "Encountered reserved opcode.");
    assert_eq!(
        ReportType::UnallocatedOpcode.description(),
        "Encountered opcode unallocated by the specification."
    );
    assert_eq!(ReportType::ProcessingError.description(), "General usage error.");
    assert_eq!(ReportType::UnmatchedOpcode.description(), "Unknown Error");
    assert_eq!(ReportType::Unknown.description(), "Unknown Error");
}

#[test]
fn report_is_made_from_kind_and_position() {
    let position = Position { byte_offset: 12, instruction_offset: 3 };
    let report = Report::new(ReportType::ReservedOpcode, position);
    assert_eq!(report.description, "Encountered reserved opcode.");
    assert_eq!(report.position, position);
    assert_eq!(report.report_type, ReportType::ReservedOpcode);
    assert_eq!(
        report.render(),
        "Description: Encountered reserved opcode.\nByte Offset: 12\nInstruction: 3\n"
    );
}

#[test]
fn positions_of_slots() {
    assert_eq!(Position::default(), Position { byte_offset: 0, instruction_offset: 0 });
    assert_eq!(Position::of_slot(0), Position::default());
    assert_eq!(Position::of_slot(5), Position { byte_offset: 20, instruction_offset: 5 });
}

/// Reads a pattern of `0`, `1` and `?`, bit 31 first.
fn pattern(text: &str, family: Family) -> Template {
    assert_eq!(text.len(), 32);
    let mut mask = 0u32;
    let mut bits = 0u32;
    for symbol in text.chars() {
        mask <<= 1;
        bits <<= 1;
        match symbol {
            '0' => mask |= 1,
            '1' => {
                mask |= 1;
                bits |= 1;
            }
            '?' => {}
            _ => panic!("not a pattern"),
        }
    }
    Template { mask, bits, family }
}

#[test]
fn table_holds_the_patterns_in_order() {
    let expected = vec![
        pattern("?0?100010???????????????????????", Family::ADD),
        pattern("?1?100010???????????????????????", Family::SUB),
        pattern("?010100010??????????????????????", Family::STP),
        pattern("?010100110??????????????????????", Family::STP),
        pattern("?010100100??????????????????????", Family::STP),
        pattern("110100101???????????????????????", Family::MOVZ),
        pattern("0101001010??????????????????????", Family::MOVZ),
        pattern("1?111000000?????????01??????????", Family::STR),
        pattern("1?111000000?????????11??????????", Family::STR),
        pattern("1?11100100??????????????????????", Family::STR),
        pattern("1?111000001?????????10??????????", Family::STR),
        pattern("1?111000000?????????00??????????", Family::STUR),
        pattern("0??10000????????????????????????", Family::ADR),
        pattern("1??10000????????????????????????", Family::ADRP),
    ];
    assert_eq!(TEMPLATE_COUNT, expected.len());
    for (index, entry) in expected.iter().enumerate() {
        assert_eq!(template(index), *entry);
        assert_eq!(entry.bits & !entry.mask, 0);
    }
}

#[test]
fn template_matches_bit_by_bit() {
    let entry = template(0);
    assert!(entry.is_match(0x11000000));
    assert!(entry.is_match(0xB1FFFFFF & !0x4E800000));
    assert!(!entry.is_match(0x51000000));
    assert!(!entry.is_match(0x11800000));
    for bit in 0..32 {
        let word = 0x11000000u32 ^ (1 << bit);
        assert_eq!(entry.is_match(word), entry.mask & (1 << bit) == 0);
    }
}

#[test]
fn classification_picks_the_family() {
    assert_eq!(classify(0xB1004020), Some(Family::ADD));
    assert_eq!(classify(0xD10083FF), Some(Family::SUB));
    assert_eq!(classify(0xA9017BFD), Some(Family::STP));
    assert_eq!(classify(0xD2824681), Some(Family::MOVZ));
    assert_eq!(classify(0xF90007E0), Some(Family::STR));
    assert_eq!(classify(0xF81F8020), Some(Family::STUR));
    assert_eq!(classify(0x10000020), Some(Family::ADR));
    assert_eq!(classify(0xB0000000), Some(Family::ADRP));
    assert_eq!(classify(0x14000000), None);
}

#[test]
fn groups_of_unclassified_words() {
    assert_eq!(group_report(0), ReportType::ReservedOpcode);
    assert_eq!(group_report(1 << 25), ReportType::UnallocatedOpcode);
    assert_eq!(group_report(2 << 25), ReportType::UnmatchedOpcode);
    assert_eq!(group_report(3 << 25), ReportType::UnallocatedOpcode);
    for group in 4..16u32 {
        assert_eq!(group_report(group << 25), ReportType::UnmatchedOpcode);
        assert_eq!(group_report((group << 25) | 0xE1FF_FFFF), ReportType::UnmatchedOpcode);
    }
}

#[test]
fn sampled_words_match_at_most_one_template() {
    let mut word = 0x2545_F491u32;
    for _ in 0..200_000 {
        word ^= word << 13;
        word ^= word >> 17;
        word ^= word << 5;
        let mut matched = Vec::new();
        for index in 0..TEMPLATE_COUNT {
            if template(index).is_match(word) {
                matched.push(template(index).family);
            }
        }
        assert!(matched.len() <= 1);
        assert_eq!(classify(word), matched.first().copied());
        match decode_word(word) {
            Ok(instruction) => assert!(!instruction.is_placeholder() && !matched.is_empty()),
            Err(kind) => assert!(matched.is_empty() && kind == group_report(word)),
        }
    }
}

#[test]
fn every_word_near_a_template_is_decoded_or_reported() {
    for index in 0..TEMPLATE_COUNT {
        let entry = template(index);
        let mut open = 0x9E37_79B9u32;
        for _ in 0..2_000 {
            open = open.wrapping_mul(0x0019_660D).wrapping_add(0x3C6E_F35F);
            let word = entry.bits | (open & !entry.mask);
            assert_eq!(classify(word), Some(entry.family));
            let instruction = decode_word(word).unwrap();
            assert!(!instruction.render().is_empty());
            for bit in 0..32 {
                let near = word ^ (1 << bit);
                match decode_word(near) {
                    Ok(instruction) => assert!(!instruction.render().is_empty()),
                    Err(kind) => assert_eq!(kind, group_report(near)),
                }
            }
        }
    }
}

#[test]
fn report_text_of_every_kind() {
    let position = Position { byte_offset: 0, instruction_offset: 0 };
    assert_eq!(
        Report::new(ReportType::ProcessingError, position).render(),
        "Description: General usage error.\nByte Offset: 0\nInstruction: 0\n"
    );
    assert_eq!(
        Report::new(ReportType::Unknown, position).render(),
        "Description: Unknown Error\nByte Offset: 0\nInstruction: 0\n"
    );
    let far = Position { byte_offset: 4096, instruction_offset: 1024 };
    assert_eq!(
        Report::new(ReportType::IncompleteInstruction, far).render(),
        "Description: EOF is not 4-byte aligned.\nByte Offset: 4096\nInstruction: 1024\n"
    );
}
