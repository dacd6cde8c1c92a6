//! ADRP: form a PC-relative address to a 4 KiB page.

use crate::bits::{extend_33_to_64, pattern64, sign_extend_33_to_64, signed_value};
use crate::decoder::arm64::adr::{address_immediate, read_address_immediate};
use crate::decoder::register::Register;
use crate::text::{hex, hex_text};
use vstd::prelude::*;
use vstd::string::*;

verus! {

/// Form PC-relative address to 4 KiB page: adds a signed 21-bit page count,
/// shifted left by twelve bits, to the page of the program counter and writes
/// the address to the destination register.
#[allow(clippy::upper_case_acronyms)]
#[derive(Clone, Copy, Debug, PartialEq, Eq, Structural)]
pub struct ADRP {
    pub register: Register,
    /// The byte offset between the pages, as a 64-bit two's complement pattern.
    pub label: u64,
}

impl ADRP {
    /// The words this family can be built from: bits 24 to 28 are `10000`.
    pub open spec fn accepts(word: u32) -> bool {
        (word >> 24) & 0x1F == 0x10
    }

    /// The signed number of pages that `word` encodes.
    pub open spec fn pages(word: u32) -> int {
        signed_value(address_immediate(word) as int, 0x20_0000)
    }

    /// The signed byte offset that `word` encodes: 4096 bytes for each page.
    pub open spec fn offset(word: u32) -> int {
        ADRP::pages(word) * 0x1000
    }

    /// The operands that `word` encodes.
    pub open spec fn decoded(word: u32) -> ADRP {
        ADRP {
            register: Register::spec_from((word & 0x1F) as nat),
            label: pattern64(ADRP::offset(word)) as u64,
        }
    }

    /// The label is a multiple of the page size.
    pub open spec fn wf(self) -> bool {
        self.label % 0x1000 == 0
    }

    /// The assembly line of the instruction.
    pub open spec fn spec_render(self) -> Seq<char> {
        "adrp "@ + self.register.spec_name(true) + ", "@ + hex_text(self.label as nat)
    }

    /// Extracts the operands of an ADRP word.
    pub fn from(word: u32) -> (adrp: ADRP)
        requires
            ADRP::accepts(word),
        ensures
            adrp == ADRP::decoded(word),
            adrp.wf(),
    {
        let rd = word & 0x1F;
        assert(rd <= 31) by (bit_vector)
            requires
                rd == word & 0x1F,
        ;
        let immediate = read_address_immediate(word);
        let shifted = (immediate as u64) << 12;
        assert(shifted < 0x2_0000_0000) by (bit_vector)
            requires
                immediate < 0x20_0000,
                shifted == (immediate as u64) << 12,
        ;
        let wide = extend_33_to_64(shifted);
        assert(wide == (if immediate >= 0x10_0000 {
            immediate * 0x1000 + 0xFFFF_FFFE_0000_0000
        } else {
            immediate * 0x1000
        }) && wide % 0x1000 == 0) by (bit_vector)
            requires
                immediate < 0x20_0000,
                shifted == (immediate as u64) << 12,
                wide == sign_extend_33_to_64(shifted),
        ;
        ADRP { register: Register::from(rd), label: wide }
    }

    /// Writes the instruction as a line of assembly.
    pub fn render(&self) -> (line: String)
        ensures
            line@ == self.spec_render(),
    {
        let mut line = String::from_str("adrp ");
        line.append(self.register.name(true).as_str());
        line.append(", ");
        line.append(hex(self.label).as_str());
        line
    }
}

/// A negative page count gives a label whose upper 31 bits are all ones and
/// whose value, read as a signed 64-bit number, is the page count less 2^21,
/// times 4096.
pub proof fn lemma_adrp_negative_label(word: u32)
    requires
        ADRP::accepts(word),
        address_immediate(word) >= 0x10_0000,
    ensures
        ADRP::decoded(word).label >> 33 == 0x7FFF_FFFF,
        ADRP::decoded(word).label as i64 == (address_immediate(word) - 0x20_0000) * 0x1000,
        (ADRP::decoded(word).label as i64) < 0,
{
    let immediate = address_immediate(word);
    assert(immediate < 0x20_0000) by (bit_vector)
        requires
            immediate == (((word >> 5) & 0x7_FFFF) << 2) | ((word >> 29) & 0x3),
    ;
    let label = ADRP::decoded(word).label;
    assert(label == immediate * 0x1000 + 0xFFFF_FFFE_0000_0000);
    assert(label >> 33 == 0x7FFF_FFFF && label as i64 == (immediate - 0x20_0000) * 0x1000)
        by (bit_vector)
        requires
            0x10_0000 <= immediate < 0x20_0000,
            label == immediate * 0x1000 + 0xFFFF_FFFE_0000_0000,
    ;
}

} // verus!
