//! Numbers as text: decimal, and upper-case hexadecimal with a `0x` prefix.

use vstd::prelude::*;
use vstd::string::*;

verus! {

/// The character of one digit; digits from ten on are the capital letters.
pub open spec fn digit_char(digit: nat) -> char
    recommends
        digit < 16,
{
    if digit == 0 {
        '0'
    } else if digit == 1 {
        '1'
    } else if digit == 2 {
        '2'
    } else if digit == 3 {
        '3'
    } else if digit == 4 {
        '4'
    } else if digit == 5 {
        '5'
    } else if digit == 6 {
        '6'
    } else if digit == 7 {
        '7'
    } else if digit == 8 {
        '8'
    } else if digit == 9 {
        '9'
    } else if digit == 10 {
        'A'
    } else if digit == 11 {
        'B'
    } else if digit == 12 {
        'C'
    } else if digit == 13 {
        'D'
    } else if digit == 14 {
        'E'
    } else {
        'F'
    }
}

/// The digits of `value` in base `base`, most significant first, without
/// leading zeros; zero is the single digit `0`.
pub open spec fn digits(value: nat, base: nat) -> Seq<char>
    recommends
        2 <= base <= 16,
    decreases value,
{
    if value < base || base < 2 {
        seq![digit_char(value)]
    } else {
        proof {
            lemma_quotient_is_smaller(value, base);
        }
        digits(value / base, base).push(digit_char(value % base))
    }
}

/// Dividing by a base takes a value to a smaller one and leaves a digit.
pub proof fn lemma_quotient_is_smaller(value: nat, base: nat)
    requires
        2 <= base <= value,
    ensures
        value / base < value,
        value % base < base,
{
    assert(value / base < value && value % base < base) by (nonlinear_arith)
        requires
            2 <= base <= value,
    ;
}

/// `value` in decimal.
pub open spec fn decimal_text(value: nat) -> Seq<char> {
    digits(value, 10)
}

/// `value` in upper-case hexadecimal behind the prefix `0x`.
pub open spec fn hex_text(value: nat) -> Seq<char> {
    "0x"@ + digits(value, 16)
}

/// The one-character text of a digit.
fn digit_str(digit: u64) -> (text: &'static str)
    requires
        digit < 16,
    ensures
        text@ == seq![digit_char(digit as nat)],
{
    proof {
        reveal_strlit("0");
        reveal_strlit("1");
        reveal_strlit("2");
        reveal_strlit("3");
        reveal_strlit("4");
        reveal_strlit("5");
        reveal_strlit("6");
        reveal_strlit("7");
        reveal_strlit("8");
        reveal_strlit("9");
        reveal_strlit("A");
        reveal_strlit("B");
        reveal_strlit("C");
        reveal_strlit("D");
        reveal_strlit("E");
        reveal_strlit("F");
    }
    let text = if digit == 0 {
        "0"
    } else if digit == 1 {
        "1"
    } else if digit == 2 {
        "2"
    } else if digit == 3 {
        "3"
    } else if digit == 4 {
        "4"
    } else if digit == 5 {
        "5"
    } else if digit == 6 {
        "6"
    } else if digit == 7 {
        "7"
    } else if digit == 8 {
        "8"
    } else if digit == 9 {
        "9"
    } else if digit == 10 {
        "A"
    } else if digit == 11 {
        "B"
    } else if digit == 12 {
        "C"
    } else if digit == 13 {
        "D"
    } else if digit == 14 {
        "E"
    } else {
        "F"
    };
    assert(text@ =~= seq![digit_char(digit as nat)]);
    text
}

/// Appends the digits of `value` in base `base` to `out`.
pub fn push_digits(out: &mut String, value: u64, base: u64)
    requires
        2 <= base <= 16,
    ensures
        final(out)@ == old(out)@ + digits(value as nat, base as nat),
    decreases value,
{
    if value < base {
        out.append(digit_str(value));
    } else {
        proof {
            lemma_quotient_is_smaller(value as nat, base as nat);
        }
        push_digits(out, value / base, base);
        out.append(digit_str(value % base));
        assert(final(out)@ =~= old(out)@ + digits(value as nat, base as nat));
    }
}

/// `value` in decimal.
pub fn decimal(value: u64) -> (text: String)
    ensures
        text@ == decimal_text(value as nat),
{
    let mut text = String::new();
    push_digits(&mut text, value, 10);
    assert(text@ =~= decimal_text(value as nat));
    text
}

/// `value` in upper-case hexadecimal behind the prefix `0x`.
pub fn hex(value: u64) -> (text: String)
    ensures
        text@ == hex_text(value as nat),
{
    let mut text = String::from_str("0x");
    push_digits(&mut text, value, 16);
    text
}

/// A number below one hundred is written with one decimal digit if it is
/// below ten and with two otherwise.
pub proof fn lemma_short_decimal(value: nat)
    requires
        value < 100,
    ensures
        decimal_text(value) == (if value < 10 {
            seq![digit_char(value)]
        } else {
            seq![digit_char(value / 10), digit_char(value % 10)]
        }),
{
    if value >= 10 {
        assert(digits(value / 10, 10) == seq![digit_char(value / 10)]);
        assert(digits(value, 10) =~= seq![digit_char(value / 10), digit_char(value % 10)]);
    }
}

} // verus!
