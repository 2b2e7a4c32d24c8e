//! Numerals of the command language: `.` for the cursor, `$` for the last
//! byte, or an unsigned number written in the radix in use.

use vstd::prelude::*;
use crate::chars::{chars_of, string_of};
use crate::error::{EditError, ErrorView};

verus! {

/// The value of `c` as a digit: 0 to 9 for `0`-`9`, 10 to 35 for the
/// letters of either case, and 36 for any other character, which is a digit
/// in no radix.
pub open spec fn digit_of(c: char) -> int {
    if '0' <= c && c <= '9' {
        c as int - '0' as int
    } else if 'a' <= c && c <= 'z' {
        c as int - 'a' as int + 10
    } else if 'A' <= c && c <= 'Z' {
        c as int - 'A' as int + 10
    } else {
        36
    }
}

/// Whether every character of `s` is a digit in base `radix`.
pub open spec fn all_digits(s: Seq<char>, radix: u32) -> bool {
    forall|i: int| 0 <= i < s.len() ==> digit_of(#[trigger] s[i]) < radix
}

/// The number that the digits `s` write in base `radix`, most significant
/// digit first.
pub open spec fn number_of(s: Seq<char>, radix: int) -> int
    decreases s.len(),
{
    if s.len() == 0 {
        0
    } else {
        number_of(s.drop_last(), radix) * radix + digit_of(s.last())
    }
}

/// The number that `s` writes in base `radix`: `s` must hold at least one
/// character, digits only, and write a number that `usize` can hold.
pub open spec fn parse(s: Seq<char>, radix: u32) -> Option<usize> {
    if s.len() > 0 && all_digits(s, radix) && number_of(s, radix as int) <= usize::MAX {
        Some(number_of(s, radix as int) as usize)
    } else {
        None
    }
}

/// What a numeral token stands for: `.` is the cursor, `$` the index of the
/// last byte, which an empty buffer does not have, and anything else a
/// number in base `radix`. The number is not held against the buffer's
/// length.
pub open spec fn numeral(token: Seq<char>, cursor: usize, max_index: Option<usize>, radix: u32)
    -> Result<usize, ErrorView> {
    if token.len() == 1 && token[0] == '.' {
        Ok(cursor)
    } else if token.len() == 1 && token[0] == '$' {
        match max_index {
            Some(max) => Ok(max),
            None => Err(ErrorView::NoMaxIndex),
        }
    } else {
        match parse(token, radix) {
            Some(number) => Ok(number),
            None => Err(ErrorView::NotANumber { token, radix }),
        }
    }
}

/// An index or the error in its place, with the error's texts as sequences.
pub open spec fn index_view(r: Result<usize, EditError>) -> Result<usize, ErrorView> {
    match r {
        Ok(index) => Ok(index),
        Err(e) => Err(e@),
    }
}

/// Digits never write a negative number.
pub proof fn lemma_number_nonnegative(s: Seq<char>, radix: int)
    requires
        radix >= 1,
    ensures
        number_of(s, radix) >= 0,
    decreases s.len(),
{
    if s.len() > 0 {
        lemma_number_nonnegative(s.drop_last(), radix);
        assert(number_of(s.drop_last(), radix) * radix >= 0) by (nonlinear_arith)
            requires
                number_of(s.drop_last(), radix) >= 0,
                radix >= 1,
        ;
    }
}

/// The digits read so far never write more than all of them do.
pub proof fn lemma_number_grows(s: Seq<char>, k: int, radix: int)
    requires
        radix >= 1,
        0 <= k <= s.len(),
    ensures
        number_of(s.subrange(0, k), radix) <= number_of(s, radix),
    decreases s.len(),
{
    if k == s.len() {
        assert(s.subrange(0, k) =~= s);
    } else {
        let shorter = s.drop_last();
        lemma_number_grows(shorter, k, radix);
        assert(shorter.subrange(0, k) =~= s.subrange(0, k));
        lemma_number_nonnegative(shorter, radix);
        assert(number_of(shorter, radix) * radix >= number_of(shorter, radix))
            by (nonlinear_arith)
            requires
                number_of(shorter, radix) >= 0,
                radix >= 1,
        ;
    }
}

/// The value of `c` as a digit, or 36 for a character that is none.
pub fn digit_value(c: char) -> (d: u32)
    ensures
        d == digit_of(c),
{
    if '0' <= c && c <= '9' {
        (c as u32) - ('0' as u32)
    } else if 'a' <= c && c <= 'z' {
        (c as u32) - ('a' as u32) + 10
    } else if 'A' <= c && c <= 'Z' {
        (c as u32) - ('A' as u32) + 10
    } else {
        36
    }
}

/// Reads `text[from..to]` as a number in base `radix`.
pub fn parse_number(text: &Vec<char>, from: usize, to: usize, radix: u32) -> (r: Option<usize>)
    requires
        from <= to <= text.len(),
        2 <= radix <= 36,
    ensures
        r == parse(text@.subrange(from as int, to as int), radix),
{
    let ghost s = text@.subrange(from as int, to as int);
    if from == to {
        return None;
    }
    let mut acc: usize = 0;
    let mut i: usize = from;
    while i < to
        invariant
            from <= i <= to <= text.len(),
            2 <= radix <= 36,
            s == text@.subrange(from as int, to as int),
            all_digits(s.subrange(0, i - from), radix),
            acc == number_of(s.subrange(0, i - from), radix as int),
        decreases to - i,
    {
        let d: u32 = digit_value(text[i]);
        let ghost before = s.subrange(0, i - from);
        let ghost after = s.subrange(0, i + 1 - from);
        proof {
            assert(after.drop_last() =~= before);
            assert(after.last() == text@[i as int]);
            assert(s[i - from] == text@[i as int]);
        }
        if d >= radix {
            return None;
        }
        let shifted: Option<usize> = acc.checked_mul(radix as usize);
        let next: Option<usize> = match shifted {
            Some(value) => value.checked_add(d as usize),
            None => None,
        };
        match next {
            Some(value) => {
                acc = value;
            },
            None => {
                proof {
                    assert(number_of(after, radix as int) > usize::MAX);
                    lemma_number_grows(s, i + 1 - from, radix as int);
                }
                return None;
            },
        }
        i = i + 1;
        proof {
            assert forall|k: int| 0 <= k < after.len() implies digit_of(#[trigger] after[k])
                < radix by {
                if k < before.len() {
                    assert(before[k] == after[k]);
                }
            }
        }
    }
    proof {
        assert(s.subrange(0, to - from) =~= s);
    }
    Some(acc)
}

/// Resolves the numeral `text[from..to]`.
pub fn numeral_at(
    text: &Vec<char>,
    from: usize,
    to: usize,
    cursor: usize,
    max_index: Option<usize>,
    radix: u32,
) -> (r: Result<usize, EditError>)
    requires
        from <= to <= text.len(),
        2 <= radix <= 36,
    ensures
        index_view(r) == numeral(text@.subrange(from as int, to as int), cursor, max_index, radix),
{
    if to - from == 1 && text[from] == '.' {
        return Ok(cursor);
    }
    if to - from == 1 && text[from] == '$' {
        return match max_index {
            Some(max) => Ok(max),
            None => Err(EditError::NoMaxIndex),
        };
    }
    match parse_number(text, from, to, radix) {
        Some(number) => Ok(number),
        None => Err(EditError::NotANumber { token: string_of(text, from, to), radix }),
    }
}

/// Resolves the numeral `token` against the cursor and the index of the
/// last byte; `max_index` is `None` while the buffer is empty.
pub fn resolve(token: &str, cursor: usize, max_index: Option<usize>, radix: u32) -> (r: Result<
    usize,
    EditError,
>)
    requires
        2 <= radix <= 36,
    ensures
        index_view(r) == numeral(token@, cursor, max_index, radix),
{
    let text: Vec<char> = chars_of(token);
    assert(text@.subrange(0, text.len() as int) =~= token@);
    numeral_at(&text, 0, text.len(), cursor, max_index, radix)
}

/// Resolves the numeral `input` for a buffer that holds bytes: `index` is
/// the cursor and `max_index` the index of the last byte.
pub fn number_dot_dollar(index: usize, max_index: usize, input: &str, radix: u32) -> (r: Result<
    usize,
    EditError,
>)
    requires
        2 <= radix <= 36,
    ensures
        index_view(r) == numeral(input@, index, Some(max_index), radix),
{
    resolve(input, index, Some(max_index), radix)
}

/// While the buffer is empty, `$` stands for nothing.
pub proof fn lemma_dollar_needs_bytes(token: Seq<char>, cursor: usize, radix: u32)
    requires
        token.len() == 1,
        token[0] == '$',
    ensures
        numeral(token, cursor, None, radix) == Err::<usize, ErrorView>(ErrorView::NoMaxIndex),
{
}

} // verus!
