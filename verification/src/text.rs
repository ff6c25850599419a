//! Decimal and hexadecimal text, for the human-readable forms of the other modules.

use vstd::prelude::*;

verus! {

/// The character of the digit `d`, in lower case: `0` to `9`, then `a` to `f`.
pub open spec fn digit_char(d: int) -> char {
    if d < 10 {
        (48 + d) as char
    } else {
        (87 + d) as char
    }
}

/// The decimal digits of `n`, without leading zeros (a lone `0` for zero).
pub open spec fn decimal(n: nat) -> Seq<char>
    decreases n,
{
    if n < 10 {
        seq![digit_char(n as int)]
    } else {
        decimal(n / 10).push(digit_char((n % 10) as int))
    }
}

/// An octet as `0x` and two hexadecimal digits.
pub open spec fn hex_octet(b: u8) -> Seq<char> {
    "0x"@ + seq![digit_char(b as int / 16), digit_char(b as int % 16)]
}

/// A boolean as the digit `1` or `0`.
pub open spec fn bit(b: bool) -> Seq<char> {
    if b {
        "1"@
    } else {
        "0"@
    }
}

/// Append the character of the digit `d`.
fn push_digit(out: &mut String, d: u8)
    requires
        d < 16,
    ensures
        final(out)@ == old(out)@.push(digit_char(d as int)),
{
    let text: &str = match d {
        0 => "0",
        1 => "1",
        2 => "2",
        3 => "3",
        4 => "4",
        5 => "5",
        6 => "6",
        7 => "7",
        8 => "8",
        9 => "9",
        10 => "a",
        11 => "b",
        12 => "c",
        13 => "d",
        14 => "e",
        _ => "f",
    };
    proof {
        reveal_strlit("0");
        reveal_strlit("1");
        reveal_strlit("2");
        reveal_strlit("3");
        reveal_strlit("4");
        reveal_strlit("5");
        reveal_strlit("6");
        reveal_strlit("7");
        reveal_strlit("8");
        reveal_strlit("9");
        reveal_strlit("a");
        reveal_strlit("b");
        reveal_strlit("c");
        reveal_strlit("d");
        reveal_strlit("e");
        reveal_strlit("f");
        assert(text@ =~= seq![digit_char(d as int)]);
    }
    out.append(text);
    assert(out@ =~= old(out)@.push(digit_char(d as int)));
}

/// Append the decimal digits of `n`.
pub(crate) fn push_decimal(out: &mut String, n: usize)
    ensures
        final(out)@ == old(out)@ + decimal(n as nat),
    decreases n,
{
    if n >= 10 {
        push_decimal(out, n / 10);
    }
    push_digit(out, (n % 10) as u8);
    assert(out@ =~= old(out)@ + decimal(n as nat));
}

/// Append an octet as `0x` and two hexadecimal digits.
pub(crate) fn push_hex_octet(out: &mut String, b: u8)
    ensures
        final(out)@ == old(out)@ + hex_octet(b),
{
    out.append("0x");
    push_digit(out, b / 16);
    push_digit(out, b % 16);
    assert(out@ =~= old(out)@ + hex_octet(b));
}

/// Append a boolean as the digit `1` or `0`.
pub(crate) fn push_bit(out: &mut String, b: bool)
    ensures
        final(out)@ == old(out)@ + bit(b),
{
    if b {
        out.append("1");
    } else {
        out.append("0");
    }
}

} // verus!
