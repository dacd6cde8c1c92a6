//! STUR: store a register at an unscaled offset.

use crate::bits::{bit_pattern32, pattern32, signed_9, signed_value};
use crate::decoder::register::Register;
use crate::text::{hex, hex_text};
use vstd::prelude::*;
use vstd::string::*;

verus! {

/// Store register (unscaled): stores a register to the address of a base
/// register plus a signed nine-bit byte offset.
#[allow(clippy::upper_case_acronyms)]
#[derive(Clone, Copy, Debug, PartialEq, Eq, Structural)]
pub struct STUR {
    /// Whether the stored register is a 64-bit one.
    pub is_64bit: bool,
    /// The register that is stored.
    pub target: Register,
    /// The base register of the address.
    pub source: Register,
    /// The signed byte offset.
    pub offset: i32,
}

impl STUR {
    /// The signed byte offset that `word` encodes in bits 12 to 20.
    pub open spec fn spec_offset(word: u32) -> int {
        signed_value(((word >> 12) & 0x1FF) as int, 0x200)
    }

    /// The operands that `word` encodes.
    pub open spec fn decoded(word: u32) -> STUR {
        STUR {
            is_64bit: word & 0x4000_0000 != 0,
            target: Register::spec_from((word & 0x1F) as nat),
            source: Register::spec_from(((word >> 5) & 0x1F) as nat),
            offset: STUR::spec_offset(word) as i32,
        }
    }

    /// The offset is a nine-bit signed number.
    pub open spec fn wf(self) -> bool {
        -256 <= self.offset <= 255
    }

    /// The assembly line of the instruction; the offset is written as its
    /// 32-bit pattern.
    pub open spec fn spec_render(self) -> Seq<char> {
        "stur "@ + self.target.spec_name(self.is_64bit) + ", ["@ + self.source.spec_name(true)
            + ", #"@ + hex_text(pattern32(self.offset as int)) + "]"@
    }

    /// Extracts the operands of a STUR word.
    pub fn from(word: u32) -> (stur: STUR)
        ensures
            stur == STUR::decoded(word),
            stur.offset == STUR::spec_offset(word),
            stur.wf(),
    {
        let rt = word & 0x1F;
        let rn = (word >> 5) & 0x1F;
        let imm9 = (word >> 12) & 0x1FF;
        assert(rt <= 31 && rn <= 31 && imm9 < 0x200) by (bit_vector)
            requires
                rt == word & 0x1F,
                rn == (word >> 5) & 0x1F,
                imm9 == (word >> 12) & 0x1FF,
        ;
        STUR {
            is_64bit: word & 0x4000_0000 != 0,
            target: Register::from(rt),
            source: Register::from(rn),
            offset: signed_9(imm9),
        }
    }

    /// Writes the instruction as a line of assembly.
    pub fn render(&self) -> (line: String)
        ensures
            line@ == self.spec_render(),
    {
        let mut line = String::from_str("stur ");
        line.append(self.target.name(self.is_64bit).as_str());
        line.append(", [");
        line.append(self.source.name(true).as_str());
        line.append(", #");
        line.append(hex(bit_pattern32(self.offset) as u64).as_str());
        line.append("]");
        line
    }
}

} // verus!
