//! The AArch64 decoder and its instruction families.

pub mod add;
pub mod adr;
pub mod adrp;
pub mod movz;
pub mod stp;
pub mod str;
pub mod stur;
pub mod sub;
pub mod template;

use crate::bits::{le_word, read_word};
use crate::decoder::arm64::add::ADD;
use crate::decoder::arm64::adr::ADR;
use crate::decoder::arm64::adrp::ADRP;
use crate::decoder::arm64::movz::MOVZ;
use crate::decoder::arm64::stp::STP;
use crate::decoder::arm64::str::STR;
use crate::decoder::arm64::stur::STUR;
use crate::decoder::arm64::sub::SUB;
use crate::decoder::arm64::template::{
    classify, first_match, group_report, lemma_first_match, spec_classify, spec_group_report,
    spec_template, Family, TEMPLATE_COUNT,
};
use crate::decoder::instruction::Instruction;
use crate::decoder::{Decoder, DecoderOutput};
use crate::mode::Mode;
use crate::report::{report_views, Position, Report, ReportType, ReportView};
use vstd::prelude::*;
use vstd::slice::slice_subrange;

verus! {

/// Whether the family with tag `family` can be built from `word`.
pub open spec fn family_accepts(family: Family, word: u32) -> bool {
    match family {
        Family::ADD => ADD::accepts(word),
        Family::SUB => SUB::accepts(word),
        Family::STP => STP::accepts(word),
        Family::MOVZ => MOVZ::accepts(word),
        Family::STR => STR::accepts(word),
        Family::STUR => true,
        Family::ADR => ADR::accepts(word),
        Family::ADRP => ADRP::accepts(word),
    }
}

/// The instruction that the family with tag `family` builds from `word`.
pub open spec fn family_instruction(family: Family, word: u32) -> Instruction {
    match family {
        Family::ADD => Instruction::ADD(ADD::decoded(word)),
        Family::SUB => Instruction::SUB(SUB::decoded(word)),
        Family::STP => Instruction::STP(STP::decoded(word)),
        Family::MOVZ => Instruction::MOVZ(MOVZ::decoded(word)),
        Family::STR => Instruction::STR(STR::decoded(word)),
        Family::STUR => Instruction::STUR(STUR::decoded(word)),
        Family::ADR => Instruction::ADR(ADR::decoded(word)),
        Family::ADRP => Instruction::ADRP(ADRP::decoded(word)),
    }
}

/// The instruction that `word` decodes to: that of its family, or the
/// placeholder if it has none.
pub open spec fn word_instruction(word: u32) -> Instruction {
    match spec_classify(word) {
        Some(family) => family_instruction(family, word),
        None => Instruction::Placeholder,
    }
}

/// The anomaly that `word` is, if it is one: a word without a family is
/// reported by its encoding group.
pub open spec fn word_anomaly(word: u32) -> Option<ReportType> {
    match spec_classify(word) {
        Some(_) => None,
        None => Some(spec_group_report(word)),
    }
}

proof fn lemma_patterns_are_accepted(word: u32)
    by (bit_vector)
    ensures
        word & 0x5F80_0000 == 0x1100_0000 ==> word & 0x4000_0000 == 0,
        word & 0x5F80_0000 == 0x5100_0000 ==> word & 0x4000_0000 != 0,
        (word & 0x7FC0_0000 == 0x2880_0000 || word & 0x7FC0_0000 == 0x2980_0000 || word
            & 0x7FC0_0000 == 0x2900_0000) ==> word & 0x2800_0000 == 0x2800_0000 && word
            & 0x0180_0000 != 0,
        (word & 0xFF80_0000 == 0xD280_0000 || word & 0xFFC0_0000 == 0x5280_0000) ==> word
            & 0x5280_0000 == 0x5280_0000 && (word & 0x8000_0000 != 0 || word & 0x40_0000 == 0),
        (word & 0xBFE0_0C00 == 0xB800_0400 || word & 0xBFE0_0C00 == 0xB800_0C00 || word
            & 0xBFC0_0000 == 0xB900_0000 || word & 0xBFE0_0C00 == 0xB820_0800) ==> word
            & 0x8000_0000 == 0x8000_0000 && (word & 0x0100_0000 != 0 || (word & 0x0020_0000 != 0
            && word & 0xC00 == 0x800) || (word & 0x0020_0000 == 0 && (word & 0xC00 == 0x400 || word
            & 0xC00 == 0xC00))),
        (word & 0x9F00_0000 == 0x1000_0000 || word & 0x9F00_0000 == 0x9000_0000) ==> (word >> 24)
            & 0x1F == 0x10,
{
}

/// Every word that a template matches can be built into the template's
/// family: classification never hands a family a word that it refuses.
pub proof fn lemma_matched_words_are_accepted(word: u32, index: int)
    requires
        0 <= index < TEMPLATE_COUNT,
        spec_template(index).matches(word),
    ensures
        family_accepts(spec_template(index).family, word),
{
    lemma_patterns_are_accepted(word);
}

/// A classified word is accepted by its family: no word that the table
/// hands to a family breaks what the family asks of its words.
pub proof fn lemma_classified_words_are_accepted(word: u32)
    ensures
        spec_classify(word) matches Some(family) ==> family_accepts(family, word),
{
    lemma_first_match(word, 0);
    match first_match(word, 0) {
        Some(index) => {
            lemma_matched_words_are_accepted(word, index);
        },
        None => {},
    }
}

proof fn lemma_fields_are_in_range(word: u32)
    by (bit_vector)
    ensures
        (word >> 10) & 0xFFF <= 0xFFF,
        (word >> 12) & 0x1FF <= 0x1FF,
        (word >> 15) & 0x7F <= 0x7F,
        (word >> 21) & 0x3 <= 3,
        word & 0x8000_0000 == 0 && word & 0x40_0000 == 0 ==> (word >> 21) & 0x3 <= 1,
        (((word >> 5) & 0x7_FFFF) << 2) | ((word >> 29) & 0x3) < 0x20_0000,
{
}

/// Whatever a word decodes to keeps the ranges of its operands.
pub proof fn lemma_word_instruction_is_well_formed(word: u32)
    ensures
        word_instruction(word).wf(),
{
    lemma_fields_are_in_range(word);
    lemma_classified_words_are_accepted(word);
}

/// Decodes one word: the instruction of its family, or the kind of anomaly
/// that the word is.
pub fn decode_word(word: u32) -> (result: Result<Instruction, ReportType>)
    ensures
        match result {
            Ok(instruction) => {
                &&& spec_classify(word) is Some
                &&& instruction == word_instruction(word)
                &&& instruction.wf()
                &&& !(instruction is Placeholder)
            },
            Err(kind) => word_anomaly(word) == Some(kind),
        },
{
    proof {
        lemma_classified_words_are_accepted(word);
    }
    match classify(word) {
        Some(Family::ADD) => Ok(Instruction::ADD(ADD::from(word))),
        Some(Family::SUB) => Ok(Instruction::SUB(SUB::from(word))),
        Some(Family::STP) => Ok(Instruction::STP(STP::from(word))),
        Some(Family::MOVZ) => Ok(Instruction::MOVZ(MOVZ::from(word))),
        Some(Family::STR) => Ok(Instruction::STR(STR::from(word))),
        Some(Family::STUR) => Ok(Instruction::STUR(STUR::from(word))),
        Some(Family::ADR) => Ok(Instruction::ADR(ADR::from(word))),
        Some(Family::ADRP) => Ok(Instruction::ADRP(ADRP::from(word))),
        None => Err(group_report(word)),
    }
}

/// The number of slots of a stream: one for every four bytes, and one more
/// for a shorter rest.
pub open spec fn slot_count(bytes: Seq<u8>) -> int {
    (bytes.len() as int + 3) / 4
}

/// The word in slot `index`, if the stream holds all four bytes of it.
pub open spec fn slot_word(bytes: Seq<u8>, index: int) -> Option<u32> {
    if 0 <= index && 4 * index + 4 <= bytes.len() {
        Some(le_word(bytes.subrange(4 * index, 4 * index + 4)))
    } else {
        None
    }
}

/// The instruction of slot `index`: that of its word, or the placeholder if
/// the slot is cut short.
pub open spec fn slot_instruction(bytes: Seq<u8>, index: int) -> Instruction {
    match slot_word(bytes, index) {
        Some(word) => word_instruction(word),
        None => Instruction::Placeholder,
    }
}

/// The anomaly of slot `index`, if it is one: a slot that is cut short, or
/// a word without a family.
pub open spec fn slot_anomaly(bytes: Seq<u8>, index: int) -> Option<ReportType> {
    match slot_word(bytes, index) {
        Some(word) => word_anomaly(word),
        None => Some(ReportType::IncompleteInstruction),
    }
}

/// The report on slot `index`, if the slot is an anomaly.
pub open spec fn slot_report(bytes: Seq<u8>, index: int) -> Option<ReportView> {
    match slot_anomaly(bytes, index) {
        Some(kind) => Some(Report::spec_new(kind, Position::at(index))),
        None => None,
    }
}

/// The instructions of the first `end` slots.
pub open spec fn instructions_before(bytes: Seq<u8>, end: int) -> Seq<Instruction> {
    Seq::new(end as nat, |index: int| slot_instruction(bytes, index))
}

/// The instructions of a stream: one for every slot.
pub open spec fn spec_instructions(bytes: Seq<u8>) -> Seq<Instruction> {
    instructions_before(bytes, slot_count(bytes))
}

/// The reports on the first `end` slots, in stream order.
pub open spec fn reports_before(bytes: Seq<u8>, end: int) -> Seq<ReportView>
    decreases end,
{
    if end <= 0 {
        Seq::empty()
    } else {
        match slot_report(bytes, end - 1) {
            Some(report) => reports_before(bytes, end - 1).push(report),
            None => reports_before(bytes, end - 1),
        }
    }
}

/// The reports on a stream, in stream order.
pub open spec fn spec_reports(bytes: Seq<u8>) -> Seq<ReportView> {
    reports_before(bytes, slot_count(bytes))
}

/// Whether none of the first `end` slots is an anomaly.
pub open spec fn clean_before(bytes: Seq<u8>, end: int) -> bool {
    forall|index: int| 0 <= index < end ==> slot_anomaly(bytes, index) is None
}

/// Whether slot `index` is the first anomaly of the stream.
pub open spec fn is_first_anomaly(bytes: Seq<u8>, index: int) -> bool {
    &&& 0 <= index < slot_count(bytes)
    &&& slot_anomaly(bytes, index) is Some
    &&& clean_before(bytes, index)
}

/// Clean slots leave no report, and only clean slots leave none.
pub proof fn lemma_clean_has_no_reports(bytes: Seq<u8>, end: int)
    ensures
        clean_before(bytes, end) <==> reports_before(bytes, end).len() == 0,
    decreases end,
{
    if end > 0 {
        lemma_clean_has_no_reports(bytes, end - 1);
    }
}

/// The report on the first anomaly is the first report, however far the
/// stream goes on behind it.
pub proof fn lemma_first_report(bytes: Seq<u8>, index: int, end: int)
    requires
        0 <= index < end,
        slot_anomaly(bytes, index) is Some,
        clean_before(bytes, index),
    ensures
        reports_before(bytes, end).len() > 0,
        Some(reports_before(bytes, end).first()) == slot_report(bytes, index),
    decreases end,
{
    if end == index + 1 {
        lemma_clean_has_no_reports(bytes, index);
    } else {
        lemma_first_report(bytes, index, end - 1);
    }
}

/// A strict run and a flexible run of one stream differ only in what
/// becomes of the reports: if the stream has an anomaly, the error of the
/// strict run is the first report of the flexible run, raised at the slot
/// of the first anomaly, and every slot before it is decoded without one.
pub proof fn lemma_modes_agree(bytes: Seq<u8>, index: int)
    requires
        is_first_anomaly(bytes, index),
    ensures
        spec_reports(bytes).len() > 0,
        Some(spec_reports(bytes).first()) == slot_report(bytes, index),
        spec_reports(bytes).first().position == Position::at(index),
        forall|before: int|
            0 <= before < index ==> !(#[trigger] spec_instructions(bytes)[before] is Placeholder),
{
    lemma_first_report(bytes, index, slot_count(bytes));
    assert forall|before: int| 0 <= before < index implies !(#[trigger] spec_instructions(
        bytes,
    )[before] is Placeholder) by {
        assert(slot_anomaly(bytes, before) is None);
        let word = slot_word(bytes, before).unwrap();
        lemma_classified_words_are_accepted(word);
    }
}

/// A stream that ends inside a slot has an incomplete instruction in its
/// last slot, and nowhere else.
pub proof fn lemma_incomplete_slot(bytes: Seq<u8>, index: int)
    requires
        0 <= index < slot_count(bytes),
    ensures
        slot_anomaly(bytes, index) == Some(ReportType::IncompleteInstruction) <==> (index
            == slot_count(bytes) - 1 && bytes.len() % 4 != 0),
{
    if slot_word(bytes, index) is Some {
        let word = slot_word(bytes, index).unwrap();
        assert(word_anomaly(word) != Some(ReportType::IncompleteInstruction));
    }
}

/// Whether `report` is the report on a slot before `end`: it is raised at a
/// slot that is an anomaly of its kind, with the byte offset of that slot,
/// which is four times its index, and carries the description of its kind.
pub open spec fn is_report_before(bytes: Seq<u8>, end: int, report: ReportView) -> bool {
    &&& report.position.aligned()
    &&& report.position.instruction_offset < end
    &&& report.position.byte_offset < bytes.len()
    &&& report.description == report.report_type.spec_description()
    &&& slot_anomaly(bytes, report.position.instruction_offset as int) == Some(report.report_type)
}

/// Every report on a stream is the report on one of its slots, and the
/// reports stand in the order of their slots.
pub proof fn lemma_reports_are_positioned(bytes: Seq<u8>, end: int)
    requires
        0 <= end <= slot_count(bytes),
        bytes.len() <= usize::MAX,
    ensures
        forall|k: int|
            0 <= k < reports_before(bytes, end).len() ==> is_report_before(
                bytes,
                end,
                #[trigger] reports_before(bytes, end)[k],
            ),
        forall|j: int, k: int|
            0 <= j < k < reports_before(bytes, end).len() ==> (#[trigger] reports_before(
                bytes,
                end,
            )[j]).position.instruction_offset < (#[trigger] reports_before(
                bytes,
                end,
            )[k]).position.instruction_offset,
    decreases end,
{
    if end > 0 {
        lemma_reports_are_positioned(bytes, end - 1);
    }
}

/// An empty stream decodes to no instruction and no report.
pub proof fn lemma_empty_stream(bytes: Seq<u8>)
    requires
        bytes.len() == 0,
    ensures
        spec_instructions(bytes) == Seq::<Instruction>::empty(),
        spec_reports(bytes) == Seq::<ReportView>::empty(),
{
    assert(spec_instructions(bytes) =~= Seq::<Instruction>::empty());
}

/// The decoder for AArch64.
#[derive(Debug)]
pub struct Arm64Decoder {
    mode: Mode,
}

impl Arm64Decoder {
    /// Routes a report by the mode: a strict decoder returns it as the
    /// error, a flexible one records it and goes on.
    fn handle_report(&self, warnings: &mut Vec<Report>, report: Report) -> (result: Result<
        (),
        Report,
    >)
        ensures
            match result {
                Ok(_) => self.mode() == Mode::Flexible && final(warnings)@ == old(warnings)@.push(
                    report,
                ),
                Err(error) => self.mode() == Mode::Strict && error == report && final(warnings)@
                    == old(warnings)@,
            },
    {
        match self.mode {
            Mode::Strict => Err(report),
            Mode::Flexible => {
                warnings.push(report);
                Ok(())
            },
        }
    }

    /// Raises the report of kind `report_type` at `position` and routes it
    /// by the mode.
    fn report_from_type(
        &self,
        warnings: &mut Vec<Report>,
        position: Position,
        report_type: ReportType,
    ) -> (result: Result<(), Report>)
        ensures
            match result {
                Ok(_) => {
                    &&& self.mode() == Mode::Flexible
                    &&& report_views(final(warnings)@) == report_views(old(warnings)@).push(
                        Report::spec_new(report_type, position),
                    )
                },
                Err(error) => {
                    &&& self.mode() == Mode::Strict
                    &&& error@ == Report::spec_new(report_type, position)
                    &&& final(warnings)@ == old(warnings)@
                },
            },
    {
        let report = Report::new(report_type, position);
        let result = self.handle_report(warnings, report);
        proof {
            if result is Ok {
                assert(report_views(warnings@) =~= report_views(old(warnings)@).push(
                    Report::spec_new(report_type, position),
                ));
            }
        }
        result
    }
}

impl Default for Arm64Decoder {
    /// A flexible decoder.
    fn default() -> (decoder: Arm64Decoder)
        ensures
            decoder.mode() == Mode::Flexible,
    {
        Arm64Decoder { mode: Mode::Flexible }
    }
}

impl Decoder for Arm64Decoder {
    closed spec fn mode(&self) -> Mode {
        self.mode
    }

    open spec fn instructions_of(&self, bytes: Seq<u8>) -> Seq<Instruction> {
        spec_instructions(bytes)
    }

    open spec fn reports_of(&self, bytes: Seq<u8>) -> Seq<ReportView> {
        spec_reports(bytes)
    }

    fn decoder(mode: Mode) -> (decoder: Arm64Decoder) {
        Arm64Decoder { mode }
    }

    /// Decodes a stream slot by slot: the slot is read as a little-endian
    /// word, the word is classified, and its family builds the instruction.
    /// A slot that is cut short or whose word has no family is an anomaly.
    fn decode(&mut self, machine_code: &[u8]) -> (result: Result<DecoderOutput, Report>)
        ensures
            result matches Ok(output) ==> output.instructions@.len() == slot_count(
                machine_code@,
            ),
            result matches Err(report) ==> is_first_anomaly(
                machine_code@,
                report.position.instruction_offset as int,
            ) && Some(report@) == slot_report(
                machine_code@,
                report.position.instruction_offset as int,
            ),
    {
        let length = machine_code.len();
        let mut instructions: Vec<Instruction> = Vec::new();
        let mut reports: Vec<Report> = Vec::new();
        let mut offset: usize = 0;
        let mut index: usize = 0;
        let ghost bytes = machine_code@;
        assert(instructions@ =~= instructions_before(bytes, 0));
        assert(report_views(reports@) =~= reports_before(bytes, 0));
        while offset < length
            invariant
                bytes == machine_code@,
                length == bytes.len(),
                *self == *old(self),
                index <= slot_count(bytes),
                offset == (if 4 * index <= length {
                    4 * index
                } else {
                    length as int
                }),
                instructions@ == instructions_before(bytes, index as int),
                report_views(reports@) == reports_before(bytes, index as int),
                self.mode() == Mode::Strict ==> clean_before(bytes, index as int),
            decreases length - offset,
        {
            let remaining = length - offset;
            let end = if remaining >= 4 {
                offset + 4
            } else {
                length
            };
            let chunk = slice_subrange(machine_code, offset, end);
            let position = Position::of_slot(index);
            let decoded = match read_word(chunk) {
                Some(word) => decode_word(word),
                None => Err(ReportType::IncompleteInstruction),
            };
            assert(match decoded {
                Ok(instruction) => slot_anomaly(bytes, index as int) is None && instruction
                    == slot_instruction(bytes, index as int),
                Err(kind) => slot_anomaly(bytes, index as int) == Some(kind) && slot_instruction(
                    bytes,
                    index as int,
                ) is Placeholder,
            });
            let ghost before = instructions@;
            match decoded {
                Ok(instruction) => {
                    instructions.push(instruction);
                },
                Err(kind) => {
                    match self.report_from_type(&mut reports, position, kind) {
                        Ok(_) => {
                            instructions.push(Instruction::Placeholder);
                        },
                        Err(report) => {
                            proof {
                                assert(is_first_anomaly(bytes, index as int));
                                assert(Some(report@) == slot_report(bytes, index as int));
                                lemma_first_report(bytes, index as int, slot_count(bytes));
                            }
                            return Err(report);
                        },
                    }
                },
            }
            assert(instructions@ =~= instructions_before(bytes, index + 1));
            offset = end;
            index += 1;
        }
        proof {
            assert(index == slot_count(bytes));
            lemma_clean_has_no_reports(bytes, index as int);
            assert(reports@.len() == report_views(reports@).len());
        }
        Ok(DecoderOutput { instructions, reports })
    }
}

} // verus!
