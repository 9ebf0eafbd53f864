//! Building the text that the library prints: numbers in decimal and in
//! hexadecimal, type codes, indentation.

use vstd::arithmetic::div_mod::{lemma_div_decreases, lemma_small_mod};
use vstd::prelude::*;

verus! {

/// What std's `String::push` does, taken on trust from its documentation:
/// the string afterwards is the string before with the one character `c`
/// appended.
pub assume_specification[ String::push ](text: &mut String, c: char)
    ensures
        final(text)@ == old(text)@.push(c),
;

/// The character that stands for the digit `d`: `0` to `9`, then `A` to `F`.
pub open spec fn digit_char(d: nat) -> char {
    if d < 10 {
        (0x30 + d) as char
    } else {
        (0x41 + d - 10) as char
    }
}

/// The digits of `n` in base `base`, most significant first, without
/// leading zeros; zero is the single digit `0`.
pub open spec fn radix_text(n: nat, base: nat) -> Seq<char>
    recommends
        2 <= base <= 16,
    decreases n,
    via radix_text_terminates
{
    if base < 2 || n < base {
        seq![digit_char(n)]
    } else {
        radix_text(n / base, base).push(digit_char(n % base))
    }
}

#[via_fn]
proof fn radix_text_terminates(n: nat, base: nat) {
    if !(base < 2 || n < base) {
        lemma_div_decreases(n as int, base as int);
    }
}

/// `n` in decimal.
pub open spec fn decimal(n: nat) -> Seq<char> {
    radix_text(n, 10)
}

/// `n` in hexadecimal, with capital letters.
pub open spec fn upper_hex(n: nat) -> Seq<char> {
    radix_text(n, 16)
}

/// The text of a run of bytes: each byte becomes the character with that
/// code point, so ASCII bytes read as themselves.
pub open spec fn code_text(code: Seq<u8>) -> Seq<char> {
    Seq::new(code.len(), |i: int| code[i] as char)
}

/// `depth` levels of indentation, two spaces each.
pub open spec fn indent(depth: nat) -> Seq<char> {
    Seq::new(2 * depth, |i: int| ' ')
}

/// Appends the digits of `n` in base `base`.
pub fn push_radix(out: &mut String, n: u64, base: u64)
    requires
        2 <= base <= 16,
    ensures
        final(out)@ == old(out)@ + radix_text(n as nat, base as nat),
    decreases n,
{
    if n >= base {
        proof {
            lemma_div_decreases(n as int, base as int);
        }
        push_radix(out, n / base, base);
    }
    let d: u8 = (n % base) as u8;
    let c: char = if d < 10 {
        (0x30u8 + d) as char
    } else {
        (0x41u8 + (d - 10)) as char
    };
    out.push(c);
    proof {
        if n < base {
            lemma_small_mod(n as nat, base as nat);
        }
    }
}

/// Appends `n` in decimal.
pub fn push_decimal(out: &mut String, n: u64)
    ensures
        final(out)@ == old(out)@ + decimal(n as nat),
{
    push_radix(out, n, 10);
}

/// Appends `n` in hexadecimal, with capital letters.
pub fn push_upper_hex(out: &mut String, n: u64)
    ensures
        final(out)@ == old(out)@ + upper_hex(n as nat),
{
    push_radix(out, n, 16);
}

/// Appends the text of a four-byte code.
pub fn push_code(out: &mut String, code: &[u8; 4])
    ensures
        final(out)@ == old(out)@ + code_text(code@),
{
    let mut i: usize = 0;
    while i < 4
        invariant
            i <= 4,
            out@ == old(out)@ + code_text(code@).subrange(0, i as int),
        decreases 4 - i,
    {
        out.push(code[i] as char);
        i = i + 1;
    }
}

/// The text of a four-byte code as a string of its own.
pub fn code_string(code: &[u8; 4]) -> (text: String)
    ensures
        text@ == code_text(code@),
{
    let mut text = String::new();
    push_code(&mut text, code);
    text
}

} // verus!
