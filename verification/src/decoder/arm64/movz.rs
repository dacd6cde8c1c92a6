//! MOVZ: move a shifted 16-bit immediate, zeroing the other bits.

use crate::decoder::register::Register;
use crate::text::{decimal, decimal_text};
use vstd::prelude::*;
use vstd::string::*;

verus! {

/// Move wide with zero: writes a 16-bit immediate, shifted left by a
/// multiple of sixteen bits, to the destination register.
#[allow(clippy::upper_case_acronyms)]
#[derive(Clone, Copy, Debug, PartialEq, Eq, Structural)]
pub struct MOVZ {
    /// Whether the operation is on a 64-bit register.
    pub is_64bit: bool,
    pub target: Register,
    pub immediate: u16,
    /// The shift selector: the immediate is shifted left by sixteen times
    /// this many bits.
    pub shift: u8,
}

impl MOVZ {
    /// The words this family can be built from: the fixed bits of the
    /// encoding are set, and a 32-bit operation does not select a shift of
    /// 32 or 48 bits, which would leave the register.
    pub open spec fn accepts(word: u32) -> bool {
        &&& word & 0x5280_0000 == 0x5280_0000
        &&& (word & 0x8000_0000 != 0 || word & 0x40_0000 == 0)
    }

    /// The operands that `word` encodes.
    pub open spec fn decoded(word: u32) -> MOVZ {
        MOVZ {
            is_64bit: word & 0x8000_0000 != 0,
            target: Register::spec_from((word & 0x1F) as nat),
            immediate: ((word >> 5) & 0xFFFF) as u16,
            shift: ((word >> 21) & 0x3) as u8,
        }
    }

    /// The shift selector has two bits, and only its lower one at 32 bits.
    pub open spec fn wf(self) -> bool {
        &&& self.shift <= 3
        &&& !self.is_64bit ==> self.shift <= 1
    }

    /// The assembly line of the instruction. The shift is written only when
    /// there is one.
    pub open spec fn spec_render(self) -> Seq<char> {
        "movz "@ + self.target.spec_name(self.is_64bit) + ", "@ + decimal_text(
            self.immediate as nat,
        ) + (if self.shift != 0 {
            ", LSL #"@ + decimal_text(16 * self.shift as nat)
        } else {
            Seq::empty()
        })
    }

    /// Extracts the operands of a MOVZ word.
    pub fn from(word: u32) -> (movz: MOVZ)
        requires
            MOVZ::accepts(word),
        ensures
            movz == MOVZ::decoded(word),
            movz.wf(),
    {
        let sf = word & 0x8000_0000 != 0;
        let rd = word & 0x1F;
        let imm16 = (word >> 5) & 0xFFFF;
        let hw = (word >> 21) & 0x3;
        assert(rd <= 31 && imm16 <= 0xFFFF && hw <= 3 && (word & 0x8000_0000 == 0 ==> hw <= 1))
            by (bit_vector)
            requires
                rd == word & 0x1F,
                imm16 == (word >> 5) & 0xFFFF,
                hw == (word >> 21) & 0x3,
                word & 0x8000_0000 != 0 || word & 0x40_0000 == 0,
        ;
        MOVZ { is_64bit: sf, target: Register::from(rd), immediate: imm16 as u16, shift: hw as u8 }
    }

    /// Writes the instruction as a line of assembly.
    pub fn render(&self) -> (line: String)
        ensures
            line@ == self.spec_render(),
    {
        let mut line = String::from_str("movz ");
        line.append(self.target.name(self.is_64bit).as_str());
        line.append(", ");
        line.append(decimal(self.immediate as u64).as_str());
        if self.shift != 0 {
            line.append(", LSL #");
            line.append(decimal(16 * (self.shift as u64)).as_str());
        }
        assert(line@ =~= self.spec_render());
        line
    }
}

} // verus!
