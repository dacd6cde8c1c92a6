//! A decoded instruction of any family.

use crate::decoder::arm64::add::ADD;
use crate::decoder::arm64::adr::ADR;
use crate::decoder::arm64::adrp::ADRP;
use crate::decoder::arm64::movz::MOVZ;
use crate::decoder::arm64::stp::STP;
use crate::decoder::arm64::str::STR;
use crate::decoder::arm64::stur::STUR;
use crate::decoder::arm64::sub::SUB;
use vstd::prelude::*;

verus! {

/// One slot of a decoded stream: the operands of the family that the word
/// belongs to, or a placeholder for a slot that could not be decoded.
#[derive(Clone, Copy, Debug, PartialEq, Eq, Structural)]
pub enum Instruction {
    ADR(ADR),
    ADRP(ADRP),
    ADD(ADD),
    SUB(SUB),
    STP(STP),
    MOVZ(MOVZ),
    STR(STR),
    STUR(STUR),
    /// Stands in for a slot that holds no recognised instruction. It has no
    /// text.
    Placeholder,
}

impl Instruction {
    /// The operands keep the ranges of their family.
    pub open spec fn wf(self) -> bool {
        match self {
            Instruction::ADR(adr) => adr.wf(),
            Instruction::ADRP(adrp) => adrp.wf(),
            Instruction::ADD(add) => add.wf(),
            Instruction::SUB(sub) => sub.wf(),
            Instruction::STP(stp) => stp.wf(),
            Instruction::MOVZ(movz) => movz.wf(),
            Instruction::STR(str) => str.wf(),
            Instruction::STUR(stur) => stur.wf(),
            Instruction::Placeholder => true,
        }
    }

    /// The assembly line of the instruction; a placeholder has none.
    pub open spec fn spec_render(self) -> Seq<char> {
        match self {
            Instruction::ADR(adr) => adr.spec_render(),
            Instruction::ADRP(adrp) => adrp.spec_render(),
            Instruction::ADD(add) => add.spec_render(),
            Instruction::SUB(sub) => sub.spec_render(),
            Instruction::STP(stp) => stp.spec_render(),
            Instruction::MOVZ(movz) => movz.spec_render(),
            Instruction::STR(str) => str.spec_render(),
            Instruction::STUR(stur) => stur.spec_render(),
            Instruction::Placeholder => Seq::empty(),
        }
    }

    /// Whether this is the placeholder.
    pub fn is_placeholder(&self) -> (placeholder: bool)
        ensures
            placeholder == (self is Placeholder),
    {
        match self {
            Instruction::Placeholder => true,
            _ => false,
        }
    }

    /// Writes the instruction as a line of assembly.
    pub fn render(&self) -> (line: String)
        requires
            !(self is Placeholder),
        ensures
            line@ == self.spec_render(),
    {
        match self {
            Instruction::ADD(add) => add.render(),
            Instruction::ADR(adr) => adr.render(),
            Instruction::ADRP(adrp) => adrp.render(),
            Instruction::SUB(sub) => sub.render(),
            Instruction::STP(stp) => stp.render(),
            Instruction::MOVZ(movz) => movz.render(),
            Instruction::STR(str) => str.render(),
            Instruction::STUR(stur) => stur.render(),
            Instruction::Placeholder => String::new(),
        }
    }
}

/// Rendering is a function of the instruction alone: two texts that
/// [`Instruction::render`] may return for one instruction are the same text.
pub proof fn lemma_render_is_repeatable(
    instruction: Instruction,
    first_line: Seq<char>,
    second_line: Seq<char>,
)
    requires
        first_line == instruction.spec_render(),
        second_line == instruction.spec_render(),
    ensures
        first_line == second_line,
{
}

} // verus!
