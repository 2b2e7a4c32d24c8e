//! Bytes as text: two hex digits for a byte, pairs of hex digits for a
//! sequence of bytes, and indices in the radix in use.

use vstd::prelude::*;
use crate::chars::{is_hex_digit, push_char};
use crate::ec;
use crate::error::{EditError, ErrorView};
use crate::numeral::digit_of;

verus! {

/// The digit that writes `d`, lower case: `0`-`9`, then `a`-`z`.
pub open spec fn digit_char(d: int) -> char {
    if d < 10 {
        (('0' as u8) + d) as u8 as char
    } else {
        (('a' as u8) + d - 10) as u8 as char
    }
}

/// The two hex digits that write `byte`.
pub open spec fn byte_text(byte: u8) -> Seq<char> {
    seq![digit_char(byte as int / 16), digit_char(byte as int % 16)]
}

/// The hex digits that write `bytes`, two for each, with nothing between.
pub open spec fn hex_text(bytes: Seq<u8>) -> Seq<char>
    decreases bytes.len(),
{
    if bytes.len() == 0 {
        Seq::empty()
    } else {
        hex_text(bytes.drop_last()) + byte_text(bytes.last())
    }
}

/// The digits that write `number` in base `base`, with no leading zero but
/// for zero itself.
pub open spec fn number_text(number: nat, base: nat) -> Seq<char>
    decreases number,
    via number_text_decreases
{
    if base < 2 || number < base {
        seq![digit_char(number as int)]
    } else {
        number_text(number / base, base).push(digit_char((number % base) as int))
    }
}

#[via_fn]
proof fn number_text_decreases(number: nat, base: nat) {
    if base >= 2 && number >= base {
        assert(number / base < number) by (nonlinear_arith)
            requires
                base >= 2,
                number >= base,
        ;
    }
}

/// How an index is shown: in decimal where `radix` is 10, in hex otherwise.
pub open spec fn index_text(number: usize, radix: u32) -> Seq<char> {
    number_text(number as nat, if radix == 10 { 10 } else { 16 })
}

/// Whether `s` is made of pairs of hex digits, with any number of spaces
/// before, between and after the pairs, and none inside a pair.
pub open spec fn is_hex_pairs(s: Seq<char>) -> bool
    decreases s.len(),
{
    if s.len() == 0 {
        true
    } else if s[0] == ' ' {
        is_hex_pairs(s.drop_first())
    } else {
        s.len() >= 2 && is_hex_digit(s[0]) && is_hex_digit(s[1]) && is_hex_pairs(
            s.subrange(2, s.len() as int),
        )
    }
}

/// The bytes that the pairs of hex digits in `s` write, in order.
pub open spec fn bytes_of_pairs(s: Seq<char>) -> Seq<u8>
    decreases s.len(),
{
    if s.len() == 0 {
        Seq::empty()
    } else if s[0] == ' ' {
        bytes_of_pairs(s.drop_first())
    } else if s.len() >= 2 {
        seq![(digit_of(s[0]) * 16 + digit_of(s[1])) as u8] + bytes_of_pairs(
            s.subrange(2, s.len() as int),
        )
    } else {
        Seq::empty()
    }
}

/// The bytes that `text` writes, or the error for a text that is not made
/// of pairs of hex digits.
pub open spec fn decoded(text: Seq<char>) -> Result<Seq<u8>, ErrorView> {
    if is_hex_pairs(text) {
        Ok(bytes_of_pairs(text))
    } else {
        Err(ErrorView::BadHex { text })
    }
}

/// Bytes or the error in their place, as sequences.
pub open spec fn bytes_view(r: Result<Vec<u8>, EditError>) -> Result<Seq<u8>, ErrorView> {
    match r {
        Ok(bytes) => Ok(bytes@),
        Err(e) => Err(e@),
    }
}

/// Reads `text` as bytes: each pair of hex digits is one byte. Spaces may
/// stand around the pairs. A digit without its partner, or any other
/// character, is an error.
pub fn encode(text: &str) -> (r: Result<Vec<u8>, EditError>)
    ensures
        bytes_view(r) == decoded(text@),
{
    match ec::bytes_from_string(text) {
        Some(bytes) => Ok(bytes),
        None => Err(EditError::BadHex { text: text.to_owned() }),
    }
}

fn digit(d: u8) -> (c: char)
    requires
        d < 16,
    ensures
        c == digit_char(d as int),
{
    if d < 10 {
        (('0' as u8) + d) as char
    } else {
        (('a' as u8) + (d - 10)) as char
    }
}

/// The two lower-case hex digits that write `byte`.
pub fn padded_byte(byte: u8) -> (r: String)
    ensures
        r@ == byte_text(byte),
{
    let mut out: String = String::new();
    push_char(&mut out, digit(byte / 16));
    push_char(&mut out, digit(byte % 16));
    assert(out@ =~= byte_text(byte));
    out
}

} // verus!
