//! STP: store a pair of registers.

use crate::bits::{bit_pattern32, extend_7_to_64, pattern32, sign_extend_7_to_64, signed_value};
use crate::decoder::register::Register;
use crate::text::{hex, hex_text};
use vstd::prelude::*;
use vstd::string::*;

verus! {

/// How a store pair addresses memory and whether it writes the address back.
#[derive(Clone, Copy, Debug, PartialEq, Eq, Structural)]
pub enum Type {
    /// The base register is updated before the store.
    PreIndex,
    /// The base register is updated after the store.
    PostIndex,
    /// The base register is left as it is.
    SignedOffset,
}

/// Store pair of registers: stores two registers to the address of a base
/// register plus a signed, scaled seven-bit offset.
#[allow(clippy::upper_case_acronyms)]
#[derive(Clone, Copy, Debug, PartialEq, Eq, Structural)]
pub struct STP {
    /// The first register that is stored.
    pub source1: Register,
    /// The second register that is stored.
    pub source2: Register,
    /// The base register of the address.
    pub target: Register,
    /// The signed byte offset, already scaled by the register size.
    pub immediate: i32,
    /// Whether the stored registers are 64-bit ones.
    pub is_64bit: bool,
    pub stp_type: Type,
}

impl STP {
    /// The words this family can be built from: bits 27 and 29 are set, and
    /// bits 23 and 24, which select the addressing, are not both clear.
    pub open spec fn accepts(word: u32) -> bool {
        &&& word & 0x2800_0000 == 0x2800_0000
        &&& word & 0x0180_0000 != 0
    }

    /// The addressing that bits 23 and 24 of `word` select.
    pub open spec fn spec_type(word: u32) -> Type {
        if word & 0x0180_0000 == 0x0080_0000 {
            Type::PostIndex
        } else if word & 0x0180_0000 == 0x0180_0000 {
            Type::PreIndex
        } else {
            Type::SignedOffset
        }
    }

    /// The number of bytes by which the offset field counts: the size of one
    /// stored register.
    pub open spec fn scale(word: u32) -> int {
        if word & 0x8000_0000 != 0 {
            8
        } else {
            4
        }
    }

    /// The signed byte offset that `word` encodes: the seven-bit field in
    /// bits 15 to 21, times the scale.
    pub open spec fn spec_immediate(word: u32) -> int {
        signed_value(((word >> 15) & 0x7F) as int, 0x80) * STP::scale(word)
    }

    /// The operands that `word` encodes.
    pub open spec fn decoded(word: u32) -> STP {
        STP {
            source1: Register::spec_from((word & 0x1F) as nat),
            source2: Register::spec_from(((word >> 10) & 0x1F) as nat),
            target: Register::spec_from(((word >> 5) & 0x1F) as nat),
            immediate: STP::spec_immediate(word) as i32,
            is_64bit: word & 0x8000_0000 != 0,
            stp_type: STP::spec_type(word),
        }
    }

    /// The offset is a seven-bit signed number times the register size.
    pub open spec fn wf(self) -> bool {
        if self.is_64bit {
            -512 <= self.immediate <= 504 && self.immediate % 8 == 0
        } else {
            -256 <= self.immediate <= 252 && self.immediate % 4 == 0
        }
    }

    /// The assembly line of the instruction; the offset is written as its
    /// 32-bit pattern.
    pub open spec fn spec_render(self) -> Seq<char> {
        "stp "@ + self.source1.spec_name(self.is_64bit) + ", "@ + self.source2.spec_name(
            self.is_64bit,
        ) + ", ["@ + self.target.spec_name(true) + ", #"@ + hex_text(
            pattern32(self.immediate as int),
        ) + "]"@
    }

    /// Extracts the operands of a STP word.
    pub fn from(word: u32) -> (stp: STP)
        requires
            STP::accepts(word),
        ensures
            stp == STP::decoded(word),
            stp.immediate == STP::spec_immediate(word),
            stp.wf(),
    {
        let mode = word & 0x0180_0000;
        let stp_type = if mode == 0x0080_0000 {
            Type::PostIndex
        } else if mode == 0x0180_0000 {
            Type::PreIndex
        } else {
            Type::SignedOffset
        };
        let is_64bit = word & 0x8000_0000 != 0;
        let rt = word & 0x1F;
        let rn = (word >> 5) & 0x1F;
        let rt2 = (word >> 10) & 0x1F;
        let imm7 = (word >> 15) & 0x7F;
        assert(rt <= 31 && rn <= 31 && rt2 <= 31 && imm7 < 0x80) by (bit_vector)
            requires
                rt == word & 0x1F,
                rn == (word >> 5) & 0x1F,
                rt2 == (word >> 10) & 0x1F,
                imm7 == (word >> 15) & 0x7F,
        ;
        let wide = extend_7_to_64(imm7 as u64);
        let scaled = wide << (if is_64bit { 3u32 } else { 2u32 });
        let immediate = scaled as i32;
        assert(immediate == (if imm7 >= 0x40 {
            imm7 - 0x80
        } else {
            imm7 as int
        }) * (if is_64bit {
            8int
        } else {
            4int
        })) by (bit_vector)
            requires
                imm7 < 0x80,
                wide == sign_extend_7_to_64(imm7 as u64),
                scaled == wide << (if is_64bit { 3u32 } else { 2u32 }),
                immediate == scaled as i32,
        ;
        STP {
            source1: Register::from(rt),
            source2: Register::from(rt2),
            target: Register::from(rn),
            immediate,
            is_64bit,
            stp_type,
        }
    }

    /// Writes the instruction as a line of assembly.
    pub fn render(&self) -> (line: String)
        ensures
            line@ == self.spec_render(),
    {
        let mut line = String::from_str("stp ");
        line.append(self.source1.name(self.is_64bit).as_str());
        line.append(", ");
        line.append(self.source2.name(self.is_64bit).as_str());
        line.append(", [");
        line.append(self.target.name(true).as_str());
        line.append(", #");
        line.append(hex(bit_pattern32(self.immediate) as u64).as_str());
        line.append("]");
        line
    }
}

} // verus!
