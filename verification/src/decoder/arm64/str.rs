//! STR: store a register, with an immediate or a register offset.

use crate::bits::{bit_pattern32, pattern32, signed_9, signed_value};
use crate::decoder::register::Register;
use crate::text::{hex, hex_text};
use vstd::prelude::*;
use vstd::string::*;

verus! {

/// The addressing forms of a register store.
#[derive(Clone, Copy, Debug, PartialEq, Eq, Structural)]
pub enum Form {
    /// A signed nine-bit offset; the base register is updated after the store.
    PostIndex,
    /// A signed nine-bit offset; the base register is updated before the store.
    PreIndex,
    /// An unsigned twelve-bit offset; the base register is left as it is.
    UnsignedOffset,
    /// The offset is held in a register; the word carries no immediate.
    RegisterOffset,
}

/// Store register: stores a register to an address formed from a base
/// register and an offset.
#[allow(clippy::upper_case_acronyms)]
#[derive(Clone, Copy, Debug, PartialEq, Eq, Structural)]
pub struct STR {
    /// Whether the stored register is a 64-bit one.
    pub is_64bit: bool,
    /// The register that is stored.
    pub target: Register,
    /// The base register of the address.
    pub source: Register,
    pub form: Form,
    /// The immediate of the form: signed nine bits with an index form,
    /// unsigned twelve bits with an unsigned offset, zero with a register
    /// offset.
    pub offset: i32,
}

impl STR {
    /// The addressing form that `word` selects, if it selects one. Bit 24
    /// marks the unsigned offset. Without it, bit 21 marks the register
    /// offset, which has `10` in bits 10 and 11; with bit 21 clear, `01`
    /// there is the post-index and `11` the pre-index form.
    pub open spec fn spec_form(word: u32) -> Option<Form> {
        if word & 0x0100_0000 != 0 {
            Some(Form::UnsignedOffset)
        } else if word & 0x0020_0000 != 0 {
            if word & 0xC00 == 0x800 {
                Some(Form::RegisterOffset)
            } else {
                None
            }
        } else if word & 0xC00 == 0x400 {
            Some(Form::PostIndex)
        } else if word & 0xC00 == 0xC00 {
            Some(Form::PreIndex)
        } else {
            None
        }
    }

    /// The words this family can be built from: bit 31 is set and the word
    /// selects an addressing form.
    pub open spec fn accepts(word: u32) -> bool {
        &&& word & 0x8000_0000 == 0x8000_0000
        &&& STR::spec_form(word) is Some
    }

    /// The immediate that `word` carries for its addressing form.
    pub open spec fn spec_offset(word: u32) -> int {
        match STR::spec_form(word) {
            Some(Form::UnsignedOffset) => ((word >> 10) & 0xFFF) as int,
            Some(Form::PostIndex) | Some(Form::PreIndex) => signed_value(
                ((word >> 12) & 0x1FF) as int,
                0x200,
            ),
            _ => 0,
        }
    }

    /// The operands that `word` encodes.
    pub open spec fn decoded(word: u32) -> STR
        recommends
            STR::accepts(word),
    {
        STR {
            is_64bit: word & 0x4000_0000 != 0,
            target: Register::spec_from((word & 0x1F) as nat),
            source: Register::spec_from(((word >> 5) & 0x1F) as nat),
            form: STR::spec_form(word).unwrap(),
            offset: STR::spec_offset(word) as i32,
        }
    }

    /// The immediate has the range of its addressing form.
    pub open spec fn wf(self) -> bool {
        match self.form {
            Form::UnsignedOffset => 0 <= self.offset <= 0xFFF,
            Form::PostIndex | Form::PreIndex => -256 <= self.offset <= 255,
            Form::RegisterOffset => self.offset == 0,
        }
    }

    /// The assembly line of the instruction; the offset is written as its
    /// 32-bit pattern.
    pub open spec fn spec_render(self) -> Seq<char> {
        "str "@ + self.target.spec_name(self.is_64bit) + ", ["@ + self.source.spec_name(true)
            + ", #"@ + hex_text(pattern32(self.offset as int)) + "]"@
    }

    /// Extracts the operands of a STR word.
    pub fn from(word: u32) -> (str: STR)
        requires
            STR::accepts(word),
        ensures
            str == STR::decoded(word),
            str.offset == STR::spec_offset(word),
            str.wf(),
    {
        let rt = word & 0x1F;
        let rn = (word >> 5) & 0x1F;
        let imm9 = (word >> 12) & 0x1FF;
        let imm12 = (word >> 10) & 0xFFF;
        assert(rt <= 31 && rn <= 31 && imm9 < 0x200 && imm12 <= 0xFFF) by (bit_vector)
            requires
                rt == word & 0x1F,
                rn == (word >> 5) & 0x1F,
                imm9 == (word >> 12) & 0x1FF,
                imm12 == (word >> 10) & 0xFFF,
        ;
        let form = if word & 0x0100_0000 != 0 {
            Form::UnsignedOffset
        } else if word & 0x0020_0000 != 0 {
            Form::RegisterOffset
        } else if word & 0xC00 == 0x400 {
            Form::PostIndex
        } else {
            Form::PreIndex
        };
        let offset = match form {
            Form::UnsignedOffset => imm12 as i32,
            Form::PostIndex | Form::PreIndex => signed_9(imm9),
            Form::RegisterOffset => 0,
        };
        STR {
            is_64bit: word & 0x4000_0000 != 0,
            target: Register::from(rt),
            source: Register::from(rn),
            form,
            offset,
        }
    }

    /// Writes the instruction as a line of assembly.
    pub fn render(&self) -> (line: String)
        ensures
            line@ == self.spec_render(),
    {
        let mut line = String::from_str("str ");
        line.append(self.target.name(self.is_64bit).as_str());
        line.append(", [");
        line.append(self.source.name(true).as_str());
        line.append(", #");
        line.append(hex(bit_pattern32(self.offset) as u64).as_str());
        line.append("]");
        line
    }
}

} // verus!
