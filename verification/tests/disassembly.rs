use disasm_frontend::arch::Architecture;
use disasm_frontend::decoder::arm64::add::ADD;
use disasm_frontend::decoder::arm64::Arm64Decoder;
use disasm_frontend::decoder::instruction::Instruction;
use disasm_frontend::decoder::register::Register;
use disasm_frontend::decoder::{decoder, Decoder};
use disasm_frontend::mode::Mode;
use disasm_frontend::report::{Position, ReportType};

/// A function prologue and epilogue of sixteen instructions.
const SAMPLE_WORDS: [u32; 16] = [
    0xD10083FF, // sub sp, sp, #0x20
    0xA9017BFD, // stp x29, x30, [sp, #0x10]
    0x910043FD, // add x29, sp, #0x10
    0xD2824681, // movz x1, 4660
    0xF90007E0, // str x0, [sp, #1 slot]
    0xF81F8020, // stur x0, [x1, #-8]
    0xB8004062, // stur w2, [x3, #4]
    0x10000020, // adr x0, +4
    0xB0000000, // adrp x0, +1 page
    0xF0FFFFE2, // adrp x2, -1 page
    0xB1004020, // adds x0, x1, #0x10
    0x52800000, // movz w0, 0
    0xA9BF7BFD, // stp x29, x30, [sp, #-16]!
    0xF8010420, // str x0, [x1], #16
    0x51000421, // sub w1, w1, #0x1
    0x910083FF, // add sp, sp, #0x20
];

fn bytes_of(words: &[u32]) -> Vec<u8> {
    let mut bytes = Vec::new();
    for word in words {
        bytes.extend_from_slice(&word.to_le_bytes());
    }
    bytes
}

pub fn load_sample(repeats: usize) -> Vec<u8> {
    let mut data = Vec::new();
    for _ in 0..repeats {
        data.extend_from_slice(&bytes_of(&SAMPLE_WORDS));
    }
    data
}

#[test]
pub fn disassembly_test() {
    let data = load_sample(5);

    assert_eq!(data.len(), 320);

    let mut decoder = decoder(Architecture::Arm64, Mode::Strict);

    let result = decoder.decode(&data);

    let output = result.unwrap();
    assert_eq!(output.instructions.len(), 80);
    assert!(output.reports.is_empty());
    assert_eq!(output.lines().len(), 80);
}

#[test]
pub fn disassembly_error1() {
    let not_full_instruction = vec![1, 2, 3];

    let mut decoder = decoder(Architecture::Arm64, Mode::Strict);

    assert!(decoder.decode(&not_full_instruction).is_err());
}

#[test]
fn sample_renders_line_by_line() {
    let mut decoder = decoder(Architecture::Arm64, Mode::Strict);
    let output = decoder.decode(&load_sample(1)).unwrap();
    let expected = vec![
        "sub sp, sp, #0x20",
        "stp x29, x30, [sp, #0x10]",
        "add x29, sp, #0x10",
        "movz x1, 4660",
        "str x0, [sp, #0x1]",
        "stur x0, [x1, #0xFFFFFFF8]",
        "stur w2, [x3, #0x4]",
        "adr x0, 0x4",
        "adrp x0, 0x1000",
        "adrp x2, 0xFFFFFFFFFFFFF000",
        "adds x0, x1, #0x10",
        "movz w0, 0",
        "stp x29, x30, [sp, #0xFFFFFFF0]",
        "str x0, [x1, #0x10]",
        "sub w1, w1, #0x1",
        "add sp, sp, #0x20",
    ];
    assert_eq!(output.lines(), expected);
    let mut text = String::new();
    for line in &expected {
        text.push_str(line);
        text.push('\n');
    }
    assert_eq!(output.render(), text);
}

#[test]
fn empty_input_decodes_to_nothing_in_both_modes() {
    for mode in [Mode::Strict, Mode::Flexible] {
        let mut decoder = decoder(Architecture::Arm64, mode);
        let output = decoder.decode(&[]).unwrap();
        assert!(output.instructions.is_empty());
        assert!(output.reports.is_empty());
        assert!(output.lines().is_empty());
        assert_eq!(output.render(), "");
    }
}

#[test]
fn trailing_bytes_fail_a_strict_run() {
    let mut data = bytes_of(&[0xB1004020]);
    data.extend_from_slice(&[1, 2, 3]);
    let mut decoder = decoder(Architecture::Arm64, Mode::Strict);
    let report = decoder.decode(&data).unwrap_err();
    assert_eq!(report.report_type, ReportType::IncompleteInstruction);
    assert_eq!(report.position, Position { byte_offset: 4, instruction_offset: 1 });
    assert_eq!(report.description, "EOF is not 4-byte aligned.");
}

#[test]
fn trailing_bytes_are_recorded_by_a_flexible_run() {
    let mut data = bytes_of(&[0xB1004020]);
    data.extend_from_slice(&[1, 2, 3]);
    let mut decoder = decoder(Architecture::Arm64, Mode::Flexible);
    let output = decoder.decode(&data).unwrap();
    assert_eq!(output.instructions.len(), 2);
    assert_eq!(
        output.instructions[0],
        Instruction::ADD(ADD {
            destination: Register::x0,
            source: Register::x1,
            immediate: 0x10,
            shift: false,
            update_flags: true,
            is_64bit: true,
        })
    );
    assert_eq!(output.instructions[1], Instruction::Placeholder);
    assert_eq!(output.reports.len(), 1);
    assert_eq!(output.reports[0].report_type, ReportType::IncompleteInstruction);
    assert_eq!(output.reports[0].position, Position { byte_offset: 4, instruction_offset: 1 });
    assert_eq!(output.lines(), vec!["adds x0, x1, #0x10"]);
}

#[test]
fn strict_error_is_the_first_flexible_report() {
    let data = bytes_of(&[0x910043FD, 0x14000000, 0xD10083FF, 0x00000000, 0x02000000]);
    let mut strict = decoder(Architecture::Arm64, Mode::Strict);
    let error = strict.decode(&data).unwrap_err();
    let mut flexible = decoder(Architecture::Arm64, Mode::Flexible);
    let output = flexible.decode(&data).unwrap();
    assert_eq!(output.reports.len(), 3);
    assert_eq!(error.report_type, output.reports[0].report_type);
    assert_eq!(error.position, output.reports[0].position);
    assert_eq!(error.description, output.reports[0].description);
    assert_eq!(error.report_type, ReportType::UnmatchedOpcode);
    assert_eq!(error.position, Position { byte_offset: 4, instruction_offset: 1 });
}

#[test]
fn flexible_run_keeps_stream_order() {
    let data = bytes_of(&[0x910043FD, 0x14000000, 0xD10083FF, 0x00000000, 0x06000000]);
    let mut decoder = decoder(Architecture::Arm64, Mode::Flexible);
    let output = decoder.decode(&data).unwrap();
    assert_eq!(output.instructions.len(), 5);
    assert!(!output.instructions[0].is_placeholder());
    assert!(output.instructions[1].is_placeholder());
    assert!(!output.instructions[2].is_placeholder());
    assert!(output.instructions[3].is_placeholder());
    assert!(output.instructions[4].is_placeholder());
    let kinds: Vec<ReportType> = output.reports.iter().map(|r| r.report_type).collect();
    assert_eq!(
        kinds,
        vec![
            ReportType::UnmatchedOpcode,
            ReportType::ReservedOpcode,
            ReportType::UnallocatedOpcode
        ]
    );
    let offsets: Vec<usize> = output.reports.iter().map(|r| r.position.byte_offset).collect();
    assert_eq!(offsets, vec![4, 12, 16]);
    let indices: Vec<usize> =
        output.reports.iter().map(|r| r.position.instruction_offset).collect();
    assert_eq!(indices, vec![1, 3, 4]);
    assert_eq!(output.lines(), vec!["add x29, sp, #0x10", "sub sp, sp, #0x20"]);
}

#[test]
fn words_are_read_little_endian() {
    let mut decoder = decoder(Architecture::Arm64, Mode::Strict);
    let output = decoder.decode(&[0x20, 0x40, 0x00, 0xB1]).unwrap();
    assert_eq!(output.lines(), vec!["adds x0, x1, #0x10"]);
    let mut decoder = decoder_for(Mode::Strict);
    assert!(decoder.decode(&[0xB1, 0x00, 0x40, 0x20]).is_err());
}

fn decoder_for(mode: Mode) -> Arm64Decoder {
    Arm64Decoder::decoder(mode)
}

#[test]
fn a_decoder_can_be_used_again() {
    let mut decoder = decoder_for(Mode::Flexible);
    let first = decoder.decode(&[1, 2, 3]).unwrap();
    let second = decoder.decode(&bytes_of(&[0xD10083FF])).unwrap();
    assert_eq!(first.reports.len(), 1);
    assert_eq!(first.instructions.len(), 1);
    assert!(second.reports.is_empty());
    assert_eq!(second.instructions.len(), 1);
    assert_eq!(second.lines(), vec!["sub sp, sp, #0x20"]);
}

#[test]
fn default_decoder_is_flexible() {
    let mut decoder = Arm64Decoder::default();
    let output = decoder.decode(&[0, 0, 0, 0, 9]).unwrap();
    assert_eq!(output.reports.len(), 2);
    assert_eq!(output.reports[0].report_type, ReportType::ReservedOpcode);
    assert_eq!(output.reports[1].report_type, ReportType::IncompleteInstruction);
    assert_eq!(output.reports[1].position.byte_offset, 4);
}
