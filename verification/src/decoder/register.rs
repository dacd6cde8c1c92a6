//! The thirty-two general-purpose register numbers of an instruction word.

use crate::text::{decimal, decimal_text, lemma_short_decimal};
use vstd::prelude::*;
use vstd::string::*;

verus! {

/// A general-purpose register as an instruction word names it: number 0 to
/// 30, or number 31, which stands for the stack pointer.
///
/// The value is the register number alone. Whether the instruction uses the
/// register at 64 or at 32 bits, and so under which name it is written, is
/// the instruction's concern and is passed in when the name is asked for.
#[allow(non_camel_case_types)]
#[derive(Clone, Copy, Debug, PartialEq, Eq, Structural)]
pub enum Register {
    x0,
    x1,
    x2,
    x3,
    x4,
    x5,
    x6,
    x7,
    x8,
    x9,
    x10,
    x11,
    x12,
    x13,
    x14,
    x15,
    x16,
    x17,
    x18,
    x19,
    x20,
    x21,
    x22,
    x23,
    x24,
    x25,
    x26,
    x27,
    x28,
    x29,
    x30,
    SP,
}

impl Register {
    /// The register number, 0 to 31.
    pub open spec fn spec_index(self) -> nat {
        match self {
            Register::x0 => 0,
            Register::x1 => 1,
            Register::x2 => 2,
            Register::x3 => 3,
            Register::x4 => 4,
            Register::x5 => 5,
            Register::x6 => 6,
            Register::x7 => 7,
            Register::x8 => 8,
            Register::x9 => 9,
            Register::x10 => 10,
            Register::x11 => 11,
            Register::x12 => 12,
            Register::x13 => 13,
            Register::x14 => 14,
            Register::x15 => 15,
            Register::x16 => 16,
            Register::x17 => 17,
            Register::x18 => 18,
            Register::x19 => 19,
            Register::x20 => 20,
            Register::x21 => 21,
            Register::x22 => 22,
            Register::x23 => 23,
            Register::x24 => 24,
            Register::x25 => 25,
            Register::x26 => 26,
            Register::x27 => 27,
            Register::x28 => 28,
            Register::x29 => 29,
            Register::x30 => 30,
            Register::SP => 31,
        }
    }

    /// The register with number `index`.
    pub open spec fn spec_from(index: nat) -> Register
        recommends
            index <= 31,
    {
        if index == 0 {
            Register::x0
        } else if index == 1 {
            Register::x1
        } else if index == 2 {
            Register::x2
        } else if index == 3 {
            Register::x3
        } else if index == 4 {
            Register::x4
        } else if index == 5 {
            Register::x5
        } else if index == 6 {
            Register::x6
        } else if index == 7 {
            Register::x7
        } else if index == 8 {
            Register::x8
        } else if index == 9 {
            Register::x9
        } else if index == 10 {
            Register::x10
        } else if index == 11 {
            Register::x11
        } else if index == 12 {
            Register::x12
        } else if index == 13 {
            Register::x13
        } else if index == 14 {
            Register::x14
        } else if index == 15 {
            Register::x15
        } else if index == 16 {
            Register::x16
        } else if index == 17 {
            Register::x17
        } else if index == 18 {
            Register::x18
        } else if index == 19 {
            Register::x19
        } else if index == 20 {
            Register::x20
        } else if index == 21 {
            Register::x21
        } else if index == 22 {
            Register::x22
        } else if index == 23 {
            Register::x23
        } else if index == 24 {
            Register::x24
        } else if index == 25 {
            Register::x25
        } else if index == 26 {
            Register::x26
        } else if index == 27 {
            Register::x27
        } else if index == 28 {
            Register::x28
        } else if index == 29 {
            Register::x29
        } else if index == 30 {
            Register::x30
        } else {
            Register::SP
        }
    }

    /// The name under which the register is written: `x0` to `x30` and `sp`
    /// at 64 bits, `w0` to `w30` and `wsp` at 32 bits.
    pub open spec fn spec_name(self, is_64bit: bool) -> Seq<char> {
        if self == Register::SP {
            if is_64bit {
                "sp"@
            } else {
                "wsp"@
            }
        } else {
            (if is_64bit {
                "x"@
            } else {
                "w"@
            }) + decimal_text(self.spec_index())
        }
    }

    /// The register that the five-bit field `value` names.
    pub fn from(value: u32) -> (register: Register)
        requires
            value <= 31,
        ensures
            register == Register::spec_from(value as nat),
            register.spec_index() == value,
    {
        match value {
            0 => Register::x0,
            1 => Register::x1,
            2 => Register::x2,
            3 => Register::x3,
            4 => Register::x4,
            5 => Register::x5,
            6 => Register::x6,
            7 => Register::x7,
            8 => Register::x8,
            9 => Register::x9,
            10 => Register::x10,
            11 => Register::x11,
            12 => Register::x12,
            13 => Register::x13,
            14 => Register::x14,
            15 => Register::x15,
            16 => Register::x16,
            17 => Register::x17,
            18 => Register::x18,
            19 => Register::x19,
            20 => Register::x20,
            21 => Register::x21,
            22 => Register::x22,
            23 => Register::x23,
            24 => Register::x24,
            25 => Register::x25,
            26 => Register::x26,
            27 => Register::x27,
            28 => Register::x28,
            29 => Register::x29,
            30 => Register::x30,
            _ => Register::SP,
        }
    }

    /// The register number, 0 to 31.
    pub fn index(&self) -> (index: u32)
        ensures
            index == self.spec_index(),
            index <= 31,
            Register::spec_from(index as nat) == *self,
    {
        match self {
            Register::x0 => 0,
            Register::x1 => 1,
            Register::x2 => 2,
            Register::x3 => 3,
            Register::x4 => 4,
            Register::x5 => 5,
            Register::x6 => 6,
            Register::x7 => 7,
            Register::x8 => 8,
            Register::x9 => 9,
            Register::x10 => 10,
            Register::x11 => 11,
            Register::x12 => 12,
            Register::x13 => 13,
            Register::x14 => 14,
            Register::x15 => 15,
            Register::x16 => 16,
            Register::x17 => 17,
            Register::x18 => 18,
            Register::x19 => 19,
            Register::x20 => 20,
            Register::x21 => 21,
            Register::x22 => 22,
            Register::x23 => 23,
            Register::x24 => 24,
            Register::x25 => 25,
            Register::x26 => 26,
            Register::x27 => 27,
            Register::x28 => 28,
            Register::x29 => 29,
            Register::x30 => 30,
            Register::SP => 31,
        }
    }

    /// The name under which the register is written at the given width.
    pub fn name(&self, is_64bit: bool) -> (name: String)
        ensures
            name@ == self.spec_name(is_64bit),
    {
        let index = self.index();
        if index == 31 {
            String::from_str(if is_64bit { "sp" } else { "wsp" })
        } else {
            let mut name = String::from_str(if is_64bit { "x" } else { "w" });
            let number = decimal(index as u64);
            name.append(number.as_str());
            name
        }
    }
}

/// Register numbers and registers correspond one to one: every number from
/// 0 to 31 names a register with that number, and every register is the one
/// that its number names.
pub proof fn lemma_register_bijection(index: nat, register: Register)
    ensures
        index <= 31 ==> Register::spec_from(index).spec_index() == index,
        Register::spec_from(register.spec_index()) == register,
        register.spec_index() <= 31,
{
}

/// A name belongs to one register at one width: two names are the same text
/// only if register and width are the same.
pub proof fn lemma_register_names_are_distinct(
    first: Register,
    first_is_64bit: bool,
    second: Register,
    second_is_64bit: bool,
)
    requires
        first.spec_name(first_is_64bit) == second.spec_name(second_is_64bit),
    ensures
        first == second,
        first_is_64bit == second_is_64bit,
{
    reveal_strlit("x");
    reveal_strlit("w");
    reveal_strlit("sp");
    reveal_strlit("wsp");
    lemma_short_decimal(first.spec_index());
    lemma_short_decimal(second.spec_index());
    let first_name = first.spec_name(first_is_64bit);
    let second_name = second.spec_name(second_is_64bit);
    assert(first_name.len() == second_name.len());
    assert(first_name[0] == second_name[0]);
    assert(first_name[1] == second_name[1]);
    if first_name.len() == 3 {
        assert(first_name[2] == second_name[2]);
    }
}

} // verus!
