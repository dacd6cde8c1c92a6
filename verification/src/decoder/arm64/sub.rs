//! SUB (immediate) and its flag-setting form SUBS.

use crate::decoder::register::Register;
use crate::text::{hex, hex_text};
use vstd::prelude::*;
use vstd::string::*;

verus! {

/// Subtract (immediate): subtracts an optionally shifted 12-bit immediate
/// from a register and writes the difference to the destination register.
#[allow(clippy::upper_case_acronyms)]
#[derive(Clone, Copy, Debug, PartialEq, Eq, Structural)]
pub struct SUB {
    pub destination: Register,
    pub source: Register,
    /// The immediate as encoded, before any shift.
    pub immediate: u16,
    /// Whether the immediate is shifted left by twelve bits.
    pub shift: bool,
    /// Whether the condition flags are set (`subs`).
    pub update_flags: bool,
    /// Whether the operation is on 64-bit registers.
    pub is_64bit: bool,
}

impl SUB {
    /// The words this family can be built from: bit 30, which tells
    /// subtraction from addition, is set.
    pub open spec fn accepts(word: u32) -> bool {
        word & 0x4000_0000 != 0
    }

    /// The operands that `word` encodes.
    pub open spec fn decoded(word: u32) -> SUB {
        SUB {
            destination: Register::spec_from((word & 0x1F) as nat),
            source: Register::spec_from(((word >> 5) & 0x1F) as nat),
            immediate: ((word >> 10) & 0xFFF) as u16,
            shift: word & 0x40_0000 != 0,
            update_flags: word & 0x2000_0000 != 0,
            is_64bit: word & 0x8000_0000 != 0,
        }
    }

    /// The immediate fits in twelve bits.
    pub open spec fn wf(self) -> bool {
        self.immediate <= 0xFFF
    }

    /// The assembly line of the instruction.
    pub open spec fn spec_render(self) -> Seq<char> {
        (if self.update_flags {
            "subs"@
        } else {
            "sub"@
        }) + " "@ + self.destination.spec_name(self.is_64bit) + ", "@ + self.source.spec_name(
            self.is_64bit,
        ) + ", #"@ + hex_text(self.immediate as nat) + (if self.shift {
            ", LSL #12"@
        } else {
            Seq::empty()
        })
    }

    /// Extracts the operands of a SUB (immediate) word.
    pub fn from(word: u32) -> (sub: SUB)
        requires
            SUB::accepts(word),
        ensures
            sub == SUB::decoded(word),
            sub.wf(),
    {
        let rd = word & 0x1F;
        let rn = (word >> 5) & 0x1F;
        let imm = (word >> 10) & 0xFFF;
        assert(rd <= 31 && rn <= 31 && imm <= 0xFFF) by (bit_vector)
            requires
                rd == word & 0x1F,
                rn == (word >> 5) & 0x1F,
                imm == (word >> 10) & 0xFFF,
        ;
        SUB {
            destination: Register::from(rd),
            source: Register::from(rn),
            immediate: imm as u16,
            shift: word & 0x40_0000 != 0,
            update_flags: word & 0x2000_0000 != 0,
            is_64bit: word & 0x8000_0000 != 0,
        }
    }

    /// Writes the instruction as a line of assembly.
    pub fn render(&self) -> (line: String)
        ensures
            line@ == self.spec_render(),
    {
        let mut line = String::from_str(if self.update_flags { "subs" } else { "sub" });
        line.append(" ");
        line.append(self.destination.name(self.is_64bit).as_str());
        line.append(", ");
        line.append(self.source.name(self.is_64bit).as_str());
        line.append(", #");
        line.append(hex(self.immediate as u64).as_str());
        if self.shift {
            line.append(", LSL #12");
        }
        assert(line@ =~= self.spec_render());
        line
    }
}

} // verus!
