//! Textual renderings: decimal and binary numerals, dotted octets and
//! prefix notation.

use crate::host_bits::bit_length;
use vstd::prelude::*;
use vstd::string::*;

verus! {

/// The character that writes a digit value from zero to nine.
pub open spec fn digit_char(digit: int) -> char {
    if digit == 0 {
        '0'
    } else if digit == 1 {
        '1'
    } else if digit == 2 {
        '2'
    } else if digit == 3 {
        '3'
    } else if digit == 4 {
        '4'
    } else if digit == 5 {
        '5'
    } else if digit == 6 {
        '6'
    } else if digit == 7 {
        '7'
    } else if digit == 8 {
        '8'
    } else {
        '9'
    }
}

/// The decimal numeral of `n`, without leading zeros.
pub open spec fn decimal_digits(n: nat) -> Seq<char>
    decreases n,
{
    if n < 10 {
        seq![digit_char(n as int)]
    } else {
        decimal_digits(n / 10).push(digit_char((n % 10) as int))
    }
}

/// The binary numeral of `n`, without leading zeros. Zero is written `0`.
pub open spec fn binary_digits(n: nat) -> Seq<char>
    decreases n,
{
    if n < 2 {
        seq![digit_char(n as int)]
    } else {
        binary_digits(n / 2).push(digit_char((n % 2) as int))
    }
}

/// The low `width` binary digits of `n`, most significant first, so a
/// numeral of exactly `width` digits that is padded with zeros on the left.
pub open spec fn padded_binary_digits(n: nat, width: nat) -> Seq<char>
    decreases width,
{
    if width == 0 {
        Seq::empty()
    } else {
        padded_binary_digits(n / 2, (width - 1) as nat).push(digit_char((n % 2) as int))
    }
}

/// Four octets in decimal, joined by dots.
pub open spec fn dotted_decimal(octets: Seq<u8>) -> Seq<char> {
    decimal_digits(octets[0] as nat) + seq!['.']
        + decimal_digits(octets[1] as nat) + seq!['.']
        + decimal_digits(octets[2] as nat) + seq!['.']
        + decimal_digits(octets[3] as nat)
}

/// Four octets in binary, eight digits each, joined by dots.
pub open spec fn dotted_binary(octets: Seq<u8>) -> Seq<char> {
    padded_binary_digits(octets[0] as nat, 8) + seq!['.']
        + padded_binary_digits(octets[1] as nat, 8) + seq!['.']
        + padded_binary_digits(octets[2] as nat, 8) + seq!['.']
        + padded_binary_digits(octets[3] as nat, 8)
}

/// A prefix length in slash notation.
pub open spec fn prefix_notation(prefix: nat) -> Seq<char> {
    seq!['/'] + decimal_digits(prefix)
}

/// A padded binary numeral has exactly the width asked for.
pub proof fn lemma_padded_binary_width(n: nat, width: nat)
    ensures
        padded_binary_digits(n, width).len() == width,
    decreases width,
{
    if width > 0 {
        lemma_padded_binary_width(n / 2, (width - 1) as nat);
    }
}

/// A binary numeral has as many digits as the bit length of the number, and
/// one digit for zero.
pub proof fn lemma_binary_digits_count(n: nat)
    ensures
        binary_digits(n).len() == if n == 0 {
            1
        } else {
            bit_length(n)
        },
    decreases n,
{
    if n >= 2 {
        lemma_binary_digits_count(n / 2);
    } else if n == 1 {
        assert(bit_length(0) == 0);
        assert(bit_length(1) == 1 + bit_length(0));
    }
}

/// Dotted binary is always 35 characters: four groups of eight digits and
/// three dots.
pub proof fn lemma_dotted_binary_length(octets: Seq<u8>)
    ensures
        dotted_binary(octets).len() == 35,
{
    lemma_padded_binary_width(octets[0] as nat, 8);
    lemma_padded_binary_width(octets[1] as nat, 8);
    lemma_padded_binary_width(octets[2] as nat, 8);
    lemma_padded_binary_width(octets[3] as nat, 8);
}

/// The one-character text of a digit.
fn digit_text(digit: u32) -> (text: &'static str)
    requires
        digit < 10,
    ensures
        text@ == seq![digit_char(digit as int)],
{
    let text = match digit {
        0 => "0",
        1 => "1",
        2 => "2",
        3 => "3",
        4 => "4",
        5 => "5",
        6 => "6",
        7 => "7",
        8 => "8",
        _ => "9",
    };
    proof {
        reveal_strlit("0");
        reveal_strlit("1");
        reveal_strlit("2");
        reveal_strlit("3");
        reveal_strlit("4");
        reveal_strlit("5");
        reveal_strlit("6");
        reveal_strlit("7");
        reveal_strlit("8");
        reveal_strlit("9");
        assert(text@ =~= seq![digit_char(digit as int)]);
    }
    text
}

/// Appends the decimal numeral of `n` to `out`.
fn append_decimal(out: &mut String, n: u32)
    ensures
        final(out)@ == old(out)@ + decimal_digits(n as nat),
    decreases n,
{
    if n >= 10 {
        append_decimal(out, n / 10);
    }
    out.append(digit_text(n % 10));
    proof {
        assert(out@ =~= old(out)@ + decimal_digits(n as nat));
    }
}

/// Appends the binary numeral of `n` to `out`.
fn append_binary(out: &mut String, n: u32)
    ensures
        final(out)@ == old(out)@ + binary_digits(n as nat),
    decreases n,
{
    if n >= 2 {
        append_binary(out, n / 2);
    }
    out.append(digit_text(n % 2));
    proof {
        assert(out@ =~= old(out)@ + binary_digits(n as nat));
    }
}

/// Appends the low `width` binary digits of `n` to `out`.
fn append_padded_binary(out: &mut String, n: u32, width: u32)
    ensures
        final(out)@ == old(out)@ + padded_binary_digits(n as nat, width as nat),
    decreases width,
{
    if width > 0 {
        append_padded_binary(out, n / 2, width - 1);
        out.append(digit_text(n % 2));
    }
    proof {
        assert(out@ =~= old(out)@ + padded_binary_digits(n as nat, width as nat));
    }
}

/// Appends a dot to `out`.
fn append_dot(out: &mut String)
    ensures
        final(out)@ == old(out)@ + seq!['.'],
{
    out.append(".");
    proof {
        reveal_strlit(".");
        assert(out@ =~= old(out)@ + seq!['.']);
    }
}

/// The octets in dotted decimal, such as `255.255.255.0`: each octet as a
/// decimal numeral without leading zeros.
pub fn format_dotted_decimal(octets: &[u8; 4]) -> (text: String)
    ensures
        text@ == dotted_decimal(octets@),
{
    let mut text = String::new();
    append_decimal(&mut text, octets[0] as u32);
    append_dot(&mut text);
    append_decimal(&mut text, octets[1] as u32);
    append_dot(&mut text);
    append_decimal(&mut text, octets[2] as u32);
    append_dot(&mut text);
    append_decimal(&mut text, octets[3] as u32);
    text
}

/// The octets in dotted binary, such as
/// `11111111.11111111.11111111.00000000`: each octet as exactly eight
/// binary digits.
pub fn format_dotted_binary(octets: &[u8; 4]) -> (text: String)
    ensures
        text@ == dotted_binary(octets@),
{
    let mut text = String::new();
    append_padded_binary(&mut text, octets[0] as u32, 8);
    append_dot(&mut text);
    append_padded_binary(&mut text, octets[1] as u32, 8);
    append_dot(&mut text);
    append_padded_binary(&mut text, octets[2] as u32, 8);
    append_dot(&mut text);
    append_padded_binary(&mut text, octets[3] as u32, 8);
    text
}

/// The mask as one binary numeral without leading zeros.
pub fn format_machine_binary(mask: u32) -> (text: String)
    ensures
        text@ == binary_digits(mask as nat),
{
    let mut text = String::new();
    append_binary(&mut text, mask);
    text
}

/// The prefix length in slash notation, such as `/24`.
pub fn format_prefix(prefix: u32) -> (text: String)
    ensures
        text@ == prefix_notation(prefix as nat),
{
    let mut text = String::from_str("/");
    append_decimal(&mut text, prefix);
    proof {
        reveal_strlit("/");
        assert(text@ =~= prefix_notation(prefix as nat));
    }
    text
}

} // verus!
