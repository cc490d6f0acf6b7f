//! Numbers as text: decimal numerals for the disassembly and the status
//! panel, and the eight binary digits of a byte for the ROM dump.

use vstd::prelude::*;
use crate::isa::signed16;

verus! {

/// The character of the decimal digit `d`.
pub open spec fn digit(d: nat) -> char {
    if d == 0 {
        '0'
    } else if d == 1 {
        '1'
    } else if d == 2 {
        '2'
    } else if d == 3 {
        '3'
    } else if d == 4 {
        '4'
    } else if d == 5 {
        '5'
    } else if d == 6 {
        '6'
    } else if d == 7 {
        '7'
    } else if d == 8 {
        '8'
    } else {
        '9'
    }
}

/// The decimal numeral of `n`, without leading zeros.
pub open spec fn decimal(n: nat) -> Seq<char>
    decreases n,
{
    if n < 10 {
        seq![digit(n)]
    } else {
        decimal(n / 10).push(digit(n % 10))
    }
}

/// The decimal numeral of `v`, with a minus sign where `v` is negative.
pub open spec fn signed_decimal(v: int) -> Seq<char> {
    if v < 0 {
        "-"@ + decimal((-v) as nat)
    } else {
        decimal(v as nat)
    }
}

/// The `width` lowest binary digits of `n`, the highest of them first.
pub open spec fn binary(n: nat, width: nat) -> Seq<char>
    decreases width,
{
    if width == 0 {
        Seq::empty()
    } else {
        binary(n / 2, (width - 1) as nat).push(digit(n % 2))
    }
}

/// The one-character text of the digit `d`.
fn digit_text(d: usize) -> (text: &'static str)
    requires
        d < 10,
    ensures
        text@ == seq![digit(d as nat)],
{
    proof {
        reveal_strlit("0");
        reveal_strlit("1");
        reveal_strlit("2");
        reveal_strlit("3");
        reveal_strlit("4");
        reveal_strlit("5");
        reveal_strlit("6");
        reveal_strlit("7");
        reveal_strlit("8");
        reveal_strlit("9");
    }
    let text = if d == 0 {
        "0"
    } else if d == 1 {
        "1"
    } else if d == 2 {
        "2"
    } else if d == 3 {
        "3"
    } else if d == 4 {
        "4"
    } else if d == 5 {
        "5"
    } else if d == 6 {
        "6"
    } else if d == 7 {
        "7"
    } else if d == 8 {
        "8"
    } else {
        "9"
    };
    text
}

/// Appends the decimal numeral of `n` to `text`.
pub fn push_decimal(text: &mut String, n: u128)
    ensures
        final(text)@ == old(text)@ + decimal(n as nat),
    decreases n,
{
    if n >= 10 {
        push_decimal(text, n / 10);
    }
    text.append(digit_text((n % 10) as usize));
}

/// Appends the decimal numeral of the sixteen-bit pattern `v` read as a
/// two's-complement number.
pub fn push_signed16(text: &mut String, v: u16)
    ensures
        final(text)@ == old(text)@ + signed_decimal(signed16(v)),
{
    if v >= 0x8000 {
        text.append("-");
        push_decimal(text, (0x1_0000u32 - v as u32) as u128);
    } else {
        push_decimal(text, v as u128);
    }
}

/// Appends the `width` lowest binary digits of `n` to `text`.
pub fn push_binary(text: &mut String, n: usize, width: usize)
    ensures
        final(text)@ == old(text)@ + binary(n as nat, width as nat),
    decreases width,
{
    if width > 0 {
        push_binary(text, n / 2, width - 1);
        text.append(digit_text(n % 2));
    }
}

} // verus!
