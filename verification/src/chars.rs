//! Characters of the command language: the classes the grammar tells apart,
//! runs of one class, trimming, and conversions between text and `Vec<char>`.

use vstd::prelude::*;

verus! {

/// A class of characters that the grammar scans for.
#[derive(Clone, Copy, Debug)]
pub enum CharClass {
    /// The space character alone.
    Space,
    /// Any character with the Unicode property `White_Space`.
    Whitespace,
    /// `0`-`9`, `a`-`f`, `A`-`F`.
    HexDigit,
    /// A hex digit, `.` or `$`: what a numeral token is made of.
    Numeral,
    /// `+`.
    Plus,
    /// `-`.
    Minus,
    /// Any character that is no whitespace.
    Word,
}

/// Whether `c` is one of `0`-`9`, `a`-`f`, `A`-`F`.
pub open spec fn is_hex_digit(c: char) -> bool {
    ('0' <= c && c <= '9') || ('a' <= c && c <= 'f') || ('A' <= c && c <= 'F')
}

/// The code points with the Unicode property `White_Space`.
pub open spec fn is_whitespace(c: char) -> bool {
    let u = c as u32;
    (0x09 <= u && u <= 0x0d) || u == 0x20 || u == 0x85 || u == 0xa0 || u == 0x1680 || (0x2000 <= u
        && u <= 0x200a) || u == 0x2028 || u == 0x2029 || u == 0x202f || u == 0x205f || u == 0x3000
}

/// Whether `c` is whitespace.
pub fn whitespace(c: char) -> (r: bool)
    ensures
        r == is_whitespace(c),
{
    let u: u32 = c as u32;
    (0x09 <= u && u <= 0x0d) || u == 0x20 || u == 0x85 || u == 0xa0 || u == 0x1680 || (0x2000 <= u
        && u <= 0x200a) || u == 0x2028 || u == 0x2029 || u == 0x202f || u == 0x205f || u == 0x3000
}

impl CharClass {
    /// Whether `c` belongs to the class.
    pub open spec fn has(self, c: char) -> bool {
        match self {
            CharClass::Space => c == ' ',
            CharClass::Whitespace => is_whitespace(c),
            CharClass::HexDigit => is_hex_digit(c),
            CharClass::Numeral => is_hex_digit(c) || c == '.' || c == '$',
            CharClass::Plus => c == '+',
            CharClass::Minus => c == '-',
            CharClass::Word => !is_whitespace(c),
        }
    }

    /// Whether `c` belongs to the class.
    pub fn contains(&self, c: char) -> (r: bool)
        ensures
            r == self.has(c),
    {
        match self {
            CharClass::Space => c == ' ',
            CharClass::Whitespace => whitespace(c),
            CharClass::HexDigit => ('0' <= c && c <= '9') || ('a' <= c && c <= 'f') || ('A' <= c
                && c <= 'F'),
            CharClass::Numeral => ('0' <= c && c <= '9') || ('a' <= c && c <= 'f') || ('A' <= c
                && c <= 'F') || c == '.' || c == '$',
            CharClass::Plus => c == '+',
            CharClass::Minus => c == '-',
            CharClass::Word => !whitespace(c),
        }
    }
}

/// Where the run of `class` characters that starts at `start` ends: the
/// first index from `start` on that holds no character of the class, or the
/// length of `s`.
pub open spec fn run_end(s: Seq<char>, start: int, class: CharClass) -> int
    decreases s.len() - start,
{
    if 0 <= start < s.len() && class.has(s[start]) {
        run_end(s, start + 1, class)
    } else {
        start
    }
}

/// What `run_end` returns lies between `start` and the end of `s`, the
/// characters before it belong to the class, and the one at it does not.
pub proof fn lemma_run_end(s: Seq<char>, start: int, class: CharClass)
    requires
        0 <= start <= s.len(),
    ensures
        start <= run_end(s, start, class) <= s.len(),
        forall|k: int| start <= k < run_end(s, start, class) ==> class.has(#[trigger] s[k]),
        run_end(s, start, class) < s.len() ==> !class.has(s[run_end(s, start, class)]),
    decreases s.len() - start,
{
    if start < s.len() && class.has(s[start]) {
        lemma_run_end(s, start + 1, class);
    }
}

/// Scans the run of `class` characters that starts at `start`.
pub fn scan(text: &Vec<char>, start: usize, class: CharClass) -> (end: usize)
    requires
        start <= text.len(),
    ensures
        end == run_end(text@, start as int, class),
        start <= end <= text.len(),
        forall|k: int| start <= k < end ==> class.has(#[trigger] text@[k]),
        end < text.len() ==> !class.has(text@[end as int]),
{
    let mut i: usize = start;
    while i < text.len() && class.contains(text[i])
        invariant
            start <= i <= text.len(),
            run_end(text@, start as int, class) == run_end(text@, i as int, class),
            forall|k: int| start <= k < i ==> class.has(#[trigger] text@[k]),
        decreases text.len() - i,
    {
        i = i + 1;
    }
    i
}

/// The length of `s` without the whitespace at its end.
pub open spec fn trimmed_len(s: Seq<char>) -> int
    decreases s.len(),
{
    if s.len() > 0 && is_whitespace(s.last()) {
        trimmed_len(s.drop_last())
    } else {
        s.len() as int
    }
}

/// `s` without the whitespace at either end.
pub open spec fn trim(s: Seq<char>) -> Seq<char> {
    let start = run_end(s, 0, CharClass::Whitespace);
    let rest = s.subrange(start, s.len() as int);
    rest.subrange(0, trimmed_len(rest))
}

/// The characters `text[from..to]`.
pub fn slice_chars(text: &Vec<char>, from: usize, to: usize) -> (r: Vec<char>)
    requires
        from <= to <= text.len(),
    ensures
        r@ == text@.subrange(from as int, to as int),
{
    let mut out: Vec<char> = Vec::new();
    let mut i: usize = from;
    while i < to
        invariant
            from <= i <= to <= text.len(),
            out@ == text@.subrange(from as int, i as int),
        decreases to - i,
    {
        out.push(text[i]);
        i = i + 1;
        assert(out@ =~= text@.subrange(from as int, i as int));
    }
    out
}

/// `text` without the whitespace at either end.
pub fn trim_chars(text: &Vec<char>) -> (r: Vec<char>)
    ensures
        r@ == trim(text@),
{
    let start: usize = scan(text, 0, CharClass::Whitespace);
    let ghost rest = text@.subrange(start as int, text.len() as int);
    let mut end: usize = text.len();
    assert(rest.subrange(0, end - start) =~= rest);
    while end > start && CharClass::Whitespace.contains(text[end - 1])
        invariant
            start <= end <= text.len(),
            rest == text@.subrange(start as int, text.len() as int),
            trimmed_len(rest) == trimmed_len(rest.subrange(0, end - start)),
        decreases end,
    {
        proof {
            let cur = rest.subrange(0, end - start);
            assert(cur.last() == text@[end - 1]);
            assert(cur.drop_last() =~= rest.subrange(0, end - 1 - start));
        }
        end = end - 1;
    }
    proof {
        let cur = rest.subrange(0, end - start);
        if end > start {
            assert(cur.last() == text@[end - 1]);
        }
        assert(trimmed_len(cur) == cur.len());
        assert(rest.subrange(0, trimmed_len(rest)) =~= text@.subrange(start as int, end as int));
    }
    slice_chars(text, start, end)
}

/// The characters of `line`, in order.
pub fn chars_of(line: &str) -> (r: Vec<char>)
    ensures
        r@ == line@,
{
    let mut out: Vec<char> = Vec::new();
    for c in it: line.chars()
        invariant
            it.seq() == line@,
            out@ == line@.subrange(0, it.index() as int),
    {
        out.push(c);
        assert(out@ =~= line@.subrange(0, it.index() + 1));
    }
    assert(out@ =~= line@);
    out
}

/// `String::push`: the text grows by the one character `c` at its end.
#[verifier::external_body]
pub(crate) fn push_char(text: &mut String, c: char)
    ensures
        final(text)@ == old(text)@.push(c),
{
    text.push(c)
}

/// The text made of the characters `text[from..to]`.
pub fn string_of(text: &Vec<char>, from: usize, to: usize) -> (r: String)
    requires
        from <= to <= text.len(),
    ensures
        r@ == text@.subrange(from as int, to as int),
{
    let mut out: String = String::new();
    let mut i: usize = from;
    while i < to
        invariant
            from <= i <= to <= text.len(),
            out@ == text@.subrange(from as int, i as int),
        decreases to - i,
    {
        push_char(&mut out, text[i]);
        i = i + 1;
        assert(out@ =~= text@.subrange(from as int, i as int));
    }
    out
}

} // verus!
