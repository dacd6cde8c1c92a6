//! Decoders and what they produce.

pub mod arm64;
pub mod instruction;
pub mod register;

use crate::arch::Architecture;
use crate::decoder::arm64::{spec_instructions, spec_reports, Arm64Decoder};
use crate::decoder::instruction::Instruction;
use crate::mode::Mode;
use crate::report::{report_views, Report, ReportView};
use vstd::prelude::*;
use vstd::string::*;

verus! {

/// What a decode run produces: one instruction for every slot of the stream,
/// in stream order, and the reports of the anomalies that were met, in the
/// order in which they were met.
#[derive(Debug)]
pub struct DecoderOutput {
    /// The instruction of every slot; a placeholder where the slot could not
    /// be decoded.
    pub instructions: Vec<Instruction>,
    /// The anomalies that were recorded.
    pub reports: Vec<Report>,
}

/// The assembly lines of `instructions`, in order, with the placeholders
/// left out.
pub open spec fn rendered_lines(instructions: Seq<Instruction>) -> Seq<Seq<char>>
    decreases instructions.len(),
{
    if instructions.len() == 0 {
        Seq::empty()
    } else if instructions.last() is Placeholder {
        rendered_lines(instructions.drop_last())
    } else {
        rendered_lines(instructions.drop_last()).push(instructions.last().spec_render())
    }
}

/// The lines, each followed by a line feed, as one text.
pub open spec fn joined_lines(lines: Seq<Seq<char>>) -> Seq<char>
    decreases lines.len(),
{
    if lines.len() == 0 {
        Seq::empty()
    } else {
        joined_lines(lines.drop_last()) + lines.last() + "\n"@
    }
}

/// The views of a sequence of strings, in order.
pub open spec fn string_views(strings: Seq<String>) -> Seq<Seq<char>> {
    strings.map_values(|s: String| s@)
}

impl DecoderOutput {
    /// The assembly text of the run: one line for each instruction that is
    /// not a placeholder.
    pub fn lines(&self) -> (lines: Vec<String>)
        ensures
            string_views(lines@) == rendered_lines(self.instructions@),
    {
        let mut lines: Vec<String> = Vec::new();
        let count = self.instructions.len();
        let mut index: usize = 0;
        assert(self.instructions@.take(0) =~= Seq::empty());
        assert(string_views(lines@) =~= Seq::empty());
        while index < count
            invariant
                count == self.instructions@.len(),
                index <= count,
                string_views(lines@) == rendered_lines(self.instructions@.take(index as int)),
            decreases count - index,
        {
            let instruction = &self.instructions[index];
            let ghost before = lines@;
            let ghost next = self.instructions@.take(index + 1);
            assert(next.drop_last() =~= self.instructions@.take(index as int));
            assert(next.last() == *instruction);
            if !instruction.is_placeholder() {
                let line = instruction.render();
                lines.push(line);
                assert(string_views(lines@) =~= string_views(before).push(
                    instruction.spec_render(),
                ));
            }
            index += 1;
        }
        assert(self.instructions@.take(count as int) =~= self.instructions@);
        lines
    }

    /// The assembly text of the run as one string, a line feed after each
    /// line.
    pub fn render(&self) -> (text: String)
        ensures
            text@ == joined_lines(rendered_lines(self.instructions@)),
    {
        let lines = self.lines();
        let mut text = String::new();
        let count = lines.len();
        let mut index: usize = 0;
        assert(string_views(lines@).take(0) =~= Seq::empty());
        while index < count
            invariant
                count == lines@.len(),
                index <= count,
                text@ == joined_lines(string_views(lines@).take(index as int)),
            decreases count - index,
        {
            let ghost next = string_views(lines@).take(index + 1);
            assert(next.drop_last() =~= string_views(lines@).take(index as int));
            assert(next.last() == lines@[index as int]@);
            text.append(lines[index].as_str());
            text.append("\n");
            index += 1;
        }
        assert(string_views(lines@).take(count as int) =~= string_views(lines@));
        text
    }
}

/// A decoder for one instruction set.
///
/// What a decoder reads in a stream, the instruction of every slot and the
/// reports on its anomalies, is a function of the bytes alone. The mode only
/// decides what becomes of the reports: a flexible decoder hands all of them
/// back with the instructions, a strict decoder fails with the first.
pub trait Decoder: Sized {
    /// The mode the decoder was made with.
    spec fn mode(&self) -> Mode;

    /// The instruction of every slot of `bytes`, in stream order; a
    /// placeholder where the slot cannot be decoded.
    spec fn instructions_of(&self, bytes: Seq<u8>) -> Seq<Instruction>;

    /// The reports on the anomalies of `bytes`, in stream order.
    spec fn reports_of(&self, bytes: Seq<u8>) -> Seq<ReportView>;

    /// A decoder that runs in `mode`.
    fn decoder(mode: Mode) -> (decoder: Self)
        ensures
            decoder.mode() == mode,
    ;

    /// Decodes `machine_code` and leaves the decoder as it was. The call
    /// fails exactly if the decoder is strict and the stream holds an
    /// anomaly, and then with the report on the first one. Otherwise the
    /// output holds the instruction of every slot and every report.
    fn decode(&mut self, machine_code: &[u8]) -> (result: Result<DecoderOutput, Report>)
        ensures
            *final(self) == *old(self),
            result is Err <==> old(self).mode() == Mode::Strict && old(self).reports_of(
                machine_code@,
            ).len() > 0,
            match result {
                Ok(output) => {
                    &&& output.instructions@ == old(self).instructions_of(machine_code@)
                    &&& report_views(output.reports@) == old(self).reports_of(machine_code@)
                    &&& output.reports@.len() == old(self).reports_of(machine_code@).len()
                },
                Err(report) => report@ == old(self).reports_of(machine_code@).first(),
            },
    ;
}

/// The decoder for `arch`, running in `mode`. The one for AArch64 reads a
/// stream as [`spec_instructions`] and [`spec_reports`] say.
pub fn decoder(arch: Architecture, mode: Mode) -> (decoder: impl Decoder)
    ensures
        decoder.mode() == mode,
        arch == Architecture::Arm64 ==> forall|bytes: Seq<u8>| #[trigger]
            decoder.instructions_of(bytes) == spec_instructions(bytes),
        arch == Architecture::Arm64 ==> forall|bytes: Seq<u8>| #[trigger]
            decoder.reports_of(bytes) == spec_reports(bytes),
{
    match arch {
        Architecture::Arm64 => Arm64Decoder::decoder(mode),
    }
}

} // verus!
