use crate::text::{decimal, decimal_text};
use vstd::prelude::*;
use vstd::string::*;

verus! {

/// Where in the byte stream something was found.
#[derive(Clone, Copy, Debug, PartialEq, Eq, Structural)]
pub struct Position {
    /// Offset of the slot's first byte; four times `instruction_offset`.
    pub byte_offset: usize,
    /// Index of the slot in the stream.
    pub instruction_offset: usize,
}

impl Position {
    /// The position of slot `index`.
    pub open spec fn at(index: int) -> Position {
        Position { byte_offset: (4 * index) as usize, instruction_offset: index as usize }
    }

    /// A position is aligned when its byte offset is that of its slot.
    pub open spec fn aligned(self) -> bool {
        self.byte_offset == 4 * self.instruction_offset
    }

    /// The position of slot `index`.
    pub fn of_slot(index: usize) -> (p: Position)
        requires
            4 * index <= usize::MAX,
        ensures
            p == Position::at(index as int),
            p.aligned(),
    {
        Position { byte_offset: 4 * index, instruction_offset: index }
    }
}

impl Default for Position {
    fn default() -> (p: Position)
        ensures
            p == Position::at(0),
    {
        Position { byte_offset: 0, instruction_offset: 0 }
    }
}

/// The kinds of anomaly a decode run can meet.
#[derive(Clone, Copy, Debug, PartialEq, Eq, Structural)]
pub enum ReportType {
    /// Anything not covered by the other kinds.
    Unknown,
    /// The word lies in an encoding group the architecture reserves.
    ReservedOpcode,
    /// The word lies in an encoding group the architecture leaves unallocated.
    UnallocatedOpcode,
    /// The word lies in an allocated group, but no template of the decoder matches it.
    UnmatchedOpcode,
    /// The stream ends inside a slot.
    IncompleteInstruction,
    /// The decoder itself broke one of its invariants.
    ProcessingError,
}

impl ReportType {
    /// The fixed description of each kind.
    pub open spec fn spec_description(self) -> Seq<char> {
        match self {
            ReportType::IncompleteInstruction => "EOF is not 4-byte aligned."@,
            ReportType::ReservedOpcode => "Encountered reserved opcode."@,
            ReportType::UnallocatedOpcode => "Encountered opcode unallocated by the specification."@,
            ReportType::ProcessingError => "General usage error."@,
            ReportType::UnmatchedOpcode => "Unknown Error"@,
            ReportType::Unknown => "Unknown Error"@,
        }
    }

    /// The fixed description of each kind.
    pub fn description(&self) -> (text: &'static str)
        ensures
            text@ == self.spec_description(),
    {
        match self {
            ReportType::IncompleteInstruction => "EOF is not 4-byte aligned.",
            ReportType::ReservedOpcode => "Encountered reserved opcode.",
            ReportType::UnallocatedOpcode => "Encountered opcode unallocated by the specification.",
            ReportType::ProcessingError => "General usage error.",
            ReportType::UnmatchedOpcode => "Unknown Error",
            ReportType::Unknown => "Unknown Error",
        }
    }
}

/// One diagnostic event of a decode run.
#[derive(Debug)]
pub struct Report {
    pub description: String,
    pub position: Position,
    pub report_type: ReportType,
}

/// What a [`Report`] says, with its description as a sequence of characters.
pub struct ReportView {
    pub description: Seq<char>,
    pub position: Position,
    pub report_type: ReportType,
}

impl View for Report {
    type V = ReportView;

    open spec fn view(&self) -> ReportView {
        ReportView {
            description: self.description@,
            position: self.position,
            report_type: self.report_type,
        }
    }
}

impl ReportView {
    /// The report as text: the description, the byte offset and the index of
    /// the instruction, each on a line of its own.
    pub open spec fn spec_render(self) -> Seq<char> {
        "Description: "@ + self.description + "\nByte Offset: "@ + decimal_text(
            self.position.byte_offset as nat,
        ) + "\nInstruction: "@ + decimal_text(self.position.instruction_offset as nat) + "\n"@
    }
}

impl Report {
    /// The report of kind `report_type` raised at `position`.
    pub open spec fn spec_new(report_type: ReportType, position: Position) -> ReportView {
        ReportView { description: report_type.spec_description(), position, report_type }
    }

    /// Builds the report of kind `report_type` raised at `position`; the
    /// description is the fixed text of that kind.
    pub fn new(report_type: ReportType, position: Position) -> (report: Report)
        ensures
            report@ == Report::spec_new(report_type, position),
    {
        Report { description: String::from_str(report_type.description()), position, report_type }
    }

    /// Writes the report as text: the description, the byte offset and the
    /// index of the instruction, each on a line of its own.
    pub fn render(&self) -> (text: String)
        ensures
            text@ == self@.spec_render(),
    {
        let mut text = String::from_str("Description: ");
        text.append(self.description.as_str());
        text.append("\nByte Offset: ");
        text.append(decimal(self.position.byte_offset as u64).as_str());
        text.append("\nInstruction: ");
        text.append(decimal(self.position.instruction_offset as u64).as_str());
        text.append("\n");
        text
    }
}

/// The views of a sequence of reports, in order.
pub open spec fn report_views(reports: Seq<Report>) -> Seq<ReportView> {
    reports.map_values(|r: Report| r@)
}

} // verus!
