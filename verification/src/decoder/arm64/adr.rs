//! ADR: form a PC-relative address.

use crate::bits::{extend_21_to_32, pattern32, sign_extend_21_to_32, signed_value};
use crate::decoder::register::Register;
use crate::text::{hex, hex_text};
use vstd::prelude::*;
use vstd::string::*;

verus! {

/// The 21-bit immediate of an ADR or ADRP word: bits 5 to 23 are its upper
/// nineteen bits, bits 29 and 30 its lower two.
pub open spec fn address_immediate(word: u32) -> u32 {
    (((word >> 5) & 0x7_FFFF) << 2) | ((word >> 29) & 0x3)
}

/// Extracts the 21-bit immediate of an ADR or ADRP word.
pub fn read_address_immediate(word: u32) -> (immediate: u32)
    ensures
        immediate == address_immediate(word),
        immediate < 0x20_0000,
{
    let immlo = (word >> 29) & 0x3;
    let immhi = (word >> 5) & 0x7_FFFF;
    let immediate = (immhi << 2) | immlo;
    assert(immediate < 0x20_0000) by (bit_vector)
        requires
            immediate == (((word >> 5) & 0x7_FFFF) << 2) | ((word >> 29) & 0x3),
    ;
    immediate
}

/// Form PC-relative address: adds a signed 21-bit byte offset to the program
/// counter and writes the address to the destination register.
#[allow(clippy::upper_case_acronyms)]
#[derive(Clone, Copy, Debug, PartialEq, Eq, Structural)]
pub struct ADR {
    pub register: Register,
    /// The byte offset, sign-extended to 32 bits and held as that bit pattern.
    pub label: u64,
}

impl ADR {
    /// The words this family can be built from: bits 24 to 28 are `10000`.
    pub open spec fn accepts(word: u32) -> bool {
        (word >> 24) & 0x1F == 0x10
    }

    /// The signed byte offset that `word` encodes.
    pub open spec fn offset(word: u32) -> int {
        signed_value(address_immediate(word) as int, 0x20_0000)
    }

    /// The operands that `word` encodes.
    pub open spec fn decoded(word: u32) -> ADR {
        ADR {
            register: Register::spec_from((word & 0x1F) as nat),
            label: pattern32(ADR::offset(word)) as u64,
        }
    }

    /// The label is a 32-bit pattern.
    pub open spec fn wf(self) -> bool {
        self.label <= 0xFFFF_FFFF
    }

    /// The assembly line of the instruction.
    pub open spec fn spec_render(self) -> Seq<char> {
        "adr "@ + self.register.spec_name(true) + ", "@ + hex_text(self.label as nat)
    }

    /// Extracts the operands of an ADR word.
    pub fn from(word: u32) -> (adr: ADR)
        requires
            ADR::accepts(word),
        ensures
            adr == ADR::decoded(word),
            adr.wf(),
    {
        let rd = word & 0x1F;
        assert(rd <= 31) by (bit_vector)
            requires
                rd == word & 0x1F,
        ;
        let immediate = read_address_immediate(word);
        let wide = extend_21_to_32(immediate);
        assert(wide == (if immediate >= 0x10_0000 {
            immediate + 0xFFE0_0000
        } else {
            immediate as int
        })) by (bit_vector)
            requires
                immediate < 0x20_0000,
                wide == sign_extend_21_to_32(immediate),
        ;
        ADR { register: Register::from(rd), label: wide as u64 }
    }

    /// Writes the instruction as a line of assembly.
    pub fn render(&self) -> (line: String)
        ensures
            line@ == self.spec_render(),
    {
        let mut line = String::from_str("adr ");
        line.append(self.register.name(true).as_str());
        line.append(", ");
        line.append(hex(self.label).as_str());
        line
    }
}

} // verus!
