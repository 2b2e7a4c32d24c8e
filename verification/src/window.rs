//! Which bytes a print shows: the line at the cursor, and that line with
//! the lines of context before and after it.

use vstd::prelude::*;

verus! {

/// The bytes from index `begin` to index `end`, both included.
#[derive(Clone, Copy, Debug, PartialEq, Eq, Structural)]
pub struct Range {
    pub begin: usize,
    pub end: usize,
}

/// The line at the cursor and what is shown around it.
#[derive(Clone, Copy, Debug, PartialEq, Eq, Structural)]
pub struct Window {
    /// The line of `width` bytes that starts at the cursor, cut off at the
    /// last byte.
    pub primary: Range,
    /// The primary line with the lines of context before and after it.
    pub expanded: Range,
}

/// The smaller of `a` and `b`.
pub open spec fn min_int(a: int, b: int) -> int {
    if a <= b {
        a
    } else {
        b
    }
}

/// The larger of `a` and `b`.
pub open spec fn max_int(a: int, b: int) -> int {
    if a >= b {
        a
    } else {
        b
    }
}

/// Where the line of `width` bytes at `cursor` ends: `width - 1` bytes on,
/// or at the last byte if that comes first.
pub open spec fn primary_end(cursor: int, width: int, max_index: int) -> int {
    min_int(cursor + width - 1, max_index)
}

/// Where the context before a line that begins at `begin` starts:
/// `before_context` lines of `width` bytes back, or at index zero.
pub open spec fn expanded_begin(begin: int, before_context: int, width: int) -> int {
    max_int(0, begin - before_context * width)
}

/// Where the context after a line that ends at `end` ends: `after_context`
/// lines of `width` bytes on, or at the last byte.
pub open spec fn expanded_end(end: int, after_context: int, width: int, max_index: int) -> int {
    min_int(max_index, end + after_context * width)
}

/// The window of a buffer whose last byte has index `max_index`, for a
/// cursor at `cursor`.
pub open spec fn window_at(
    cursor: usize,
    width: usize,
    before_context: usize,
    after_context: usize,
    max_index: usize,
) -> Window {
    let last = primary_end(cursor as int, width as int, max_index as int) as usize;
    Window {
        primary: Range { begin: cursor, end: last },
        expanded: Range {
            begin: expanded_begin(cursor as int, before_context as int, width as int) as usize,
            end: expanded_end(last as int, after_context as int, width as int, max_index as int)
                as usize,
        },
    }
}

/// The line of `width` bytes that starts at `cursor`, cut off at the last
/// byte.
pub fn primary_range(cursor: usize, width: usize, max_index: usize) -> (r: Range)
    requires
        width > 0,
    ensures
        r.begin == cursor,
        r.end == primary_end(cursor as int, width as int, max_index as int),
{
    let end: usize = match cursor.checked_add(width - 1) {
        Some(last) => if last < max_index {
            last
        } else {
            max_index
        },
        None => max_index,
    };
    Range { begin: cursor, end }
}

/// `primary` with `before_context` lines of `width` bytes before it and
/// `after_context` lines after it, cut off at index zero and at the last
/// byte.
pub fn expanded_range(
    primary: Range,
    before_context: usize,
    after_context: usize,
    width: usize,
    max_index: usize,
) -> (r: Range)
    ensures
        r.begin == expanded_begin(primary.begin as int, before_context as int, width as int),
        r.end == expanded_end(
            primary.end as int,
            after_context as int,
            width as int,
            max_index as int,
        ),
{
    let begin: usize = match before_context.checked_mul(width) {
        Some(back) => primary.begin.saturating_sub(back),
        None => 0,
    };
    let reach: Option<usize> = match after_context.checked_mul(width) {
        Some(on) => primary.end.checked_add(on),
        None => None,
    };
    let end: usize = match reach {
        Some(last) => if last < max_index {
            last
        } else {
            max_index
        },
        None => max_index,
    };
    Range { begin, end }
}

/// The window for a cursor at `cursor`.
pub fn window(
    cursor: usize,
    width: usize,
    before_context: usize,
    after_context: usize,
    max_index: usize,
) -> (r: Window)
    requires
        width > 0,
    ensures
        r == window_at(cursor, width, before_context, after_context, max_index),
{
    let primary: Range = primary_range(cursor, width, max_index);
    let expanded: Range = expanded_range(primary, before_context, after_context, width, max_index);
    Window { primary, expanded }
}

} // verus!
