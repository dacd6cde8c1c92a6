use disasm_frontend::decoder::arm64::add::ADD;
use disasm_frontend::decoder::arm64::adr::{read_address_immediate, ADR};
use disasm_frontend::decoder::arm64::adrp::ADRP;
use disasm_frontend::decoder::arm64::decode_word;
use disasm_frontend::decoder::arm64::movz::MOVZ;
use disasm_frontend::decoder::arm64::stp::{Type, STP};
use disasm_frontend::decoder::arm64::str::{Form, STR};
use disasm_frontend::decoder::arm64::stur::STUR;
use disasm_frontend::decoder::arm64::sub::SUB;
use disasm_frontend::decoder::instruction::Instruction;
use disasm_frontend::decoder::register::Register;
use disasm_frontend::report::ReportType;

fn text_of(word: u32) -> String {
    decode_word(word).unwrap().render()
}

#[test]
fn add_round_trip() {
    assert_eq!(text_of(0xB1004020), "adds x0, x1, #0x10");
    assert_eq!(text_of(0x910043FD), "add x29, sp, #0x10");
    assert_eq!(text_of(0x91400000 | (0xFFF << 10) | (2 << 5) | 1), "add x1, x2, #0xFFF, LSL #12");
    assert_eq!(text_of(0x11000000 | (0xAB << 10) | (31 << 5) | 30), "add w30, wsp, #0xAB");
    assert_eq!(text_of(0x31000000), "adds w0, w0, #0x0");
}

#[test]
fn add_operands() {
    let add = ADD::from(0x91400000 | (0xFFF << 10) | (2 << 5) | 1);
    assert_eq!(
        add,
        ADD {
            destination: Register::x1,
            source: Register::x2,
            immediate: 0xFFF,
            shift: true,
            update_flags: false,
            is_64bit: true,
        }
    );
}

#[test]
fn sub_round_trip() {
    assert_eq!(text_of(0xD10083FF), "sub sp, sp, #0x20");
    assert_eq!(text_of(0x51000421), "sub w1, w1, #0x1");
    assert_eq!(text_of(0xF1000000 | (0x123 << 10) | (7 << 5) | 9), "subs x9, x7, #0x123");
    assert_eq!(text_of(0xD1400000 | (1 << 10) | (3 << 5) | 4), "sub x4, x3, #0x1, LSL #12");
}

#[test]
fn sub_operands() {
    let sub = SUB::from(0x71000000 | (0x800 << 10) | (5 << 5) | 6);
    assert_eq!(
        sub,
        SUB {
            destination: Register::x6,
            source: Register::x5,
            immediate: 0x800,
            shift: false,
            update_flags: true,
            is_64bit: false,
        }
    );
    assert_eq!(sub.render(), "subs w6, w5, #0x800");
}

#[test]
fn address_immediate_joins_both_fields() {
    assert_eq!(read_address_immediate(0x10000000), 0);
    assert_eq!(read_address_immediate(0x10000020), 4);
    assert_eq!(read_address_immediate(0x30000000), 1);
    assert_eq!(read_address_immediate(0x70000000), 3);
    assert_eq!(read_address_immediate(0x70FFFFE0), 0x1FFFFF);
    assert_eq!(read_address_immediate(0x50000040), 10);
}

#[test]
fn adr_round_trip() {
    assert_eq!(text_of(0x10000020), "adr x0, 0x4");
    assert_eq!(text_of(0x70000003), "adr x3, 0x3");
    assert_eq!(text_of(0x10FFFFE1), "adr x1, 0xFFFFFFFC");
    assert_eq!(text_of(0x1000001F), "adr sp, 0x0");
}

#[test]
fn adr_sign_extends_to_32_bits() {
    let max = ADR::from(0x707FFFE0);
    assert_eq!(max.label, 0xFFFFF);
    let min = ADR::from(0x10800000);
    assert_eq!(min.label, 0xFFF0_0000);
    let minus_one = ADR::from(0x70FFFFE5);
    assert_eq!(minus_one, ADR { register: Register::x5, label: 0xFFFF_FFFF });
}

#[test]
fn adrp_round_trip() {
    assert_eq!(text_of(0xB0000000), "adrp x0, 0x1000");
    assert_eq!(text_of(0x90000024), "adrp x4, 0x4000");
    assert_eq!(text_of(0xF0FFFFE2), "adrp x2, 0xFFFFFFFFFFFFF000");
}

#[test]
fn adrp_sign_extends_to_64_bits() {
    let minus_one_page = ADRP::from(0xF0FFFFE2);
    assert_eq!(minus_one_page, ADRP { register: Register::x2, label: 0xFFFF_FFFF_FFFF_F000 });
    assert_eq!(minus_one_page.label as i64, -4096);
    let min = ADRP::from(0x90800000);
    assert_eq!(min.label >> 33, 0x7FFF_FFFF);
    assert_eq!(min.label as i64, (0x10_0000i64 - 0x20_0000) << 12);
    assert_eq!(min.label, 0xFFFF_FFFF_0000_0000);
    let max = ADRP::from(0xF07FFFE0);
    assert_eq!(max.label, 0xFFFFF << 12);
}

#[test]
fn movz_round_trip() {
    assert_eq!(text_of(0xD2824681), "movz x1, 4660");
    assert_eq!(text_of(0x52800000), "movz w0, 0");
    assert_eq!(text_of(0x52800000 | (0xFFFF << 5) | 7), "movz w7, 65535");
    assert_eq!(text_of(0xD2A00020), "movz x0, 1, LSL #16");
    assert_eq!(text_of(0xD2C00020), "movz x0, 1, LSL #32");
    assert_eq!(text_of(0xD2E00020), "movz x0, 1, LSL #48");
    assert_eq!(text_of(0x52A00020), "movz w0, 1, LSL #16");
}

#[test]
fn movz_operands() {
    let movz = MOVZ::from(0xD2E00000 | (0xBEEF << 5) | 17);
    assert_eq!(
        movz,
        MOVZ { is_64bit: true, target: Register::x17, immediate: 0xBEEF, shift: 3 }
    );
}

#[test]
fn movz_at_32_bits_has_no_high_shift() {
    assert_eq!(decode_word(0x52C00000), Err(ReportType::UnmatchedOpcode));
    assert_eq!(decode_word(0x52E00000), Err(ReportType::UnmatchedOpcode));
}

#[test]
fn stp_round_trip() {
    assert_eq!(text_of(0xA9017BFD), "stp x29, x30, [sp, #0x10]");
    assert_eq!(text_of(0xA9BF7BFD), "stp x29, x30, [sp, #0xFFFFFFF0]");
    assert_eq!(text_of(0x29000000 | (1 << 15) | (2 << 10) | (3 << 5) | 4), "stp w4, w2, [x3, #0x4]");
    assert_eq!(text_of(0xA8800000 | (63 << 15) | (1 << 10) | (2 << 5) | 3), "stp x3, x1, [x2, #0x1F8]");
}

#[test]
fn stp_scales_the_signed_offset() {
    let wide = STP::from(0xA9000000 | (0x40 << 15));
    assert_eq!(wide.immediate, -512);
    assert!(wide.is_64bit);
    let narrow = STP::from(0x29000000 | (0x40 << 15));
    assert_eq!(narrow.immediate, -256);
    assert!(!narrow.is_64bit);
    assert_eq!(STP::from(0xA9000000 | (0x3F << 15)).immediate, 504);
    assert_eq!(STP::from(0x29000000 | (0x3F << 15)).immediate, 252);
    assert_eq!(STP::from(0x29000000 | (0x7F << 15)).immediate, -4);
    assert_eq!(STP::from(0xA9000000).immediate, 0);
}

#[test]
fn stp_keeps_the_addressing() {
    let post = STP::from(0xA8800000 | (2 << 15) | (30 << 10) | (31 << 5) | 29);
    assert_eq!(
        post,
        STP {
            source1: Register::x29,
            source2: Register::x30,
            target: Register::SP,
            immediate: 16,
            is_64bit: true,
            stp_type: Type::PostIndex,
        }
    );
    assert_eq!(STP::from(0xA9BF7BFD).stp_type, Type::PreIndex);
    assert_eq!(STP::from(0xA9017BFD).stp_type, Type::SignedOffset);
}

#[test]
fn str_round_trip() {
    assert_eq!(text_of(0xF90007E0), "str x0, [sp, #0x1]");
    assert_eq!(text_of(0xB9000000 | (0xFFF << 10) | (1 << 5) | 2), "str w2, [x1, #0xFFF]");
    assert_eq!(text_of(0xF8010420), "str x0, [x1, #0x10]");
    assert_eq!(text_of(0xF81F0FE0), "str x0, [sp, #0xFFFFFFF0]");
    assert_eq!(text_of(0xF8226820), "str x0, [x1, #0x0]");
}

#[test]
fn str_operands_by_form() {
    assert_eq!(
        STR::from(0xF9000000 | (0x123 << 10) | (4 << 5) | 5),
        STR {
            is_64bit: true,
            target: Register::x5,
            source: Register::x4,
            form: Form::UnsignedOffset,
            offset: 0x123,
        }
    );
    assert_eq!(
        STR::from(0xB8000400 | (0x100 << 12) | (4 << 5) | 5),
        STR {
            is_64bit: false,
            target: Register::x5,
            source: Register::x4,
            form: Form::PostIndex,
            offset: -256,
        }
    );
    assert_eq!(
        STR::from(0xF8000C00 | (0xFF << 12) | (4 << 5) | 5),
        STR {
            is_64bit: true,
            target: Register::x5,
            source: Register::x4,
            form: Form::PreIndex,
            offset: 255,
        }
    );
    assert_eq!(
        STR::from(0xF8226820),
        STR {
            is_64bit: true,
            target: Register::x0,
            source: Register::x1,
            form: Form::RegisterOffset,
            offset: 0,
        }
    );
}

#[test]
fn stur_round_trip() {
    assert_eq!(text_of(0xF81F8020), "stur x0, [x1, #0xFFFFFFF8]");
    assert_eq!(text_of(0xB8004062), "stur w2, [x3, #0x4]");
    assert_eq!(text_of(0xF80003E0), "stur x0, [sp, #0x0]");
}

#[test]
fn stur_sign_extends_nine_bits() {
    assert_eq!(STUR::from(0xF8000000 | (0x100 << 12)).offset, -256);
    assert_eq!(STUR::from(0xF8000000 | (0x0FF << 12)).offset, 255);
    assert_eq!(STUR::from(0xF8000000 | (0x1FF << 12)).offset, -1);
    assert_eq!(
        STUR::from(0xB8000000 | (0x1F0 << 12) | (9 << 5) | 10),
        STUR { is_64bit: false, target: Register::x10, source: Register::x9, offset: -16 }
    );
}

#[test]
fn rendering_twice_gives_the_same_text() {
    for word in [0xB1004020u32, 0xA9BF7BFD, 0xF0FFFFE2, 0xD2A00020, 0xF81F8020, 0xF8226820] {
        let instruction = decode_word(word).unwrap();
        let copy = instruction;
        let first = instruction.render();
        let second = instruction.render();
        assert_eq!(first, second);
        assert_eq!(instruction, copy);
    }
}

#[test]
fn placeholder_is_told_apart() {
    assert!(Instruction::Placeholder.is_placeholder());
    assert!(!decode_word(0xD10083FF).unwrap().is_placeholder());
}

#[test]
fn words_without_family_are_reported_by_group() {
    assert_eq!(decode_word(0x00000000), Err(ReportType::ReservedOpcode));
    assert_eq!(decode_word(0x80000000), Err(ReportType::ReservedOpcode));
    assert_eq!(decode_word(0x02000000), Err(ReportType::UnallocatedOpcode));
    assert_eq!(decode_word(0x06000000), Err(ReportType::UnallocatedOpcode));
    assert_eq!(decode_word(0x04000000), Err(ReportType::UnmatchedOpcode));
    assert_eq!(decode_word(0x14000000), Err(ReportType::UnmatchedOpcode));
    assert_eq!(decode_word(0x1E000000), Err(ReportType::UnmatchedOpcode));
}

#[test]
fn unmatched_word_of_a_known_group_is_unmatched() {
    // Data processing with an immediate, but a logical operation.
    assert_eq!(decode_word(0x12000000), Err(ReportType::UnmatchedOpcode));
    // Loads and stores, but a load pair.
    assert_eq!(decode_word(0xA9400000), Err(ReportType::UnmatchedOpcode));
    // Loads and stores, but a load register.
    assert_eq!(decode_word(0xF9400000), Err(ReportType::UnmatchedOpcode));
    // A store register with an unprivileged access.
    assert_eq!(decode_word(0xF8000800), Err(ReportType::UnmatchedOpcode));
}
