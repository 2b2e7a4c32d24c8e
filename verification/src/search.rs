//! Searching the buffer for a sequence of bytes.

use vstd::prelude::*;
use vstd::slice::{slice_subrange, slice_to_vec};
use crate::ec;
use crate::error::{EditError, ErrorView};
use crate::numeral::index_view;
use crate::state::{transition, EditorState, StateView};

verus! {

/// Whether `needle` stands in `haystack` from index `at` on. An empty
/// needle occurs nowhere.
pub open spec fn occurs_at(haystack: Seq<u8>, needle: Seq<u8>, at: int) -> bool {
    &&& needle.len() > 0
    &&& 0 <= at
    &&& at + needle.len() <= haystack.len()
    &&& haystack.subrange(at, at + needle.len()) == needle
}

/// Whether `found` is the place of the leftmost occurrence of `needle` in
/// `buffer` that starts at `start` or later, or `None` where there is none.
pub open spec fn is_first_from(buffer: Seq<u8>, needle: Seq<u8>, start: int, found: Option<usize>)
    -> bool {
    match found {
        Some(at) => {
            &&& start <= at
            &&& occurs_at(buffer, needle, at as int)
            &&& forall|other: int|
                start <= other < at ==> !occurs_at(buffer, needle, other)
        },
        None => forall|other: int| start <= other ==> !occurs_at(buffer, needle, other),
    }
}

/// Whether `found` is the place of the rightmost occurrence of `needle` in
/// `buffer` that ends before index `end`, or `None` where there is none.
pub open spec fn is_last_before(buffer: Seq<u8>, needle: Seq<u8>, end: int, found: Option<usize>)
    -> bool {
    match found {
        Some(at) => {
            &&& at + needle.len() <= end
            &&& occurs_at(buffer, needle, at as int)
            &&& forall|other: int|
                at < other && other + needle.len() <= end ==> !occurs_at(buffer, needle, other)
        },
        None => forall|other: int|
            other + needle.len() <= end ==> !occurs_at(buffer, needle, other),
    }
}

/// The place of the leftmost occurrence of `needle` in `buffer` that starts
/// at `start` or later.
pub open spec fn first_from(buffer: Seq<u8>, needle: Seq<u8>, start: int) -> Option<usize>
    decreases buffer.len() - start,
{
    if start < 0 || needle.len() == 0 || start + needle.len() > buffer.len() {
        None
    } else if occurs_at(buffer, needle, start) {
        Some(start as usize)
    } else {
        first_from(buffer, needle, start + 1)
    }
}

/// The place of the rightmost occurrence of `needle` in `buffer` that ends
/// before index `end`.
pub open spec fn last_before(buffer: Seq<u8>, needle: Seq<u8>, end: int) -> Option<usize>
    decreases end,
{
    if needle.len() == 0 || end < needle.len() {
        None
    } else if occurs_at(buffer, needle, end - needle.len()) {
        Some((end - needle.len()) as usize)
    } else {
        last_before(buffer, needle, end - 1)
    }
}

/// What `first_from` finds is an occurrence at `start` or later.
pub proof fn lemma_first_from_occurs(buffer: Seq<u8>, needle: Seq<u8>, start: int)
    requires
        buffer.len() <= usize::MAX,
    ensures
        first_from(buffer, needle, start) matches Some(at) ==> start <= at && occurs_at(
            buffer,
            needle,
            at as int,
        ),
    decreases buffer.len() - start,
{
    if !(start < 0 || needle.len() == 0 || start + needle.len() > buffer.len()) && !occurs_at(
        buffer,
        needle,
        start,
    ) {
        lemma_first_from_occurs(buffer, needle, start + 1);
    }
}

/// What `last_before` finds is an occurrence that ends before `end`.
pub proof fn lemma_last_before_occurs(buffer: Seq<u8>, needle: Seq<u8>, end: int)
    requires
        buffer.len() <= usize::MAX,
    ensures
        last_before(buffer, needle, end) matches Some(at) ==> at + needle.len() <= end
            && occurs_at(buffer, needle, at as int),
    decreases end,
{
    if !(needle.len() == 0 || end < needle.len()) && !occurs_at(
        buffer,
        needle,
        end - needle.len(),
    ) {
        lemma_last_before_occurs(buffer, needle, end - 1);
    }
}

/// `first_from` is the one answer that `is_first_from` accepts.
pub proof fn lemma_first_from(buffer: Seq<u8>, needle: Seq<u8>, start: int, found: Option<usize>)
    requires
        0 <= start,
        buffer.len() <= usize::MAX,
        is_first_from(buffer, needle, start, found),
    ensures
        found == first_from(buffer, needle, start),
    decreases buffer.len() - start,
{
    if needle.len() == 0 || start + needle.len() > buffer.len() {
        if found is Some {
            assert(occurs_at(buffer, needle, found->0 as int));
        }
    } else if occurs_at(buffer, needle, start) {
    } else {
        lemma_first_from(buffer, needle, start + 1, found);
    }
}

/// `last_before` is the one answer that `is_last_before` accepts.
pub proof fn lemma_last_before(buffer: Seq<u8>, needle: Seq<u8>, end: int, found: Option<usize>)
    requires
        end <= usize::MAX,
        is_last_before(buffer, needle, end, found),
    ensures
        found == last_before(buffer, needle, end),
    decreases end,
{
    if needle.len() == 0 || end < needle.len() {
        if found is Some {
            assert(occurs_at(buffer, needle, found->0 as int));
        }
    } else if occurs_at(buffer, needle, end - needle.len()) {
    } else {
        lemma_last_before(buffer, needle, end - 1, found);
    }
}

/// The leftmost occurrence of `needle` in `buffer[start..]`, as an index
/// into `buffer`.
pub fn search_forward(buffer: &Vec<u8>, start: usize, needle: &Vec<u8>) -> (found: Option<usize>)
    ensures
        is_first_from(buffer@, needle@, start as int, found),
        found == first_from(buffer@, needle@, start as int),
{
    proof {
        assert(buffer@.len() == buffer.len());
    }
    if start > buffer.len() {
        return None;
    }
    let haystack: &[u8] = slice_subrange(buffer.as_slice(), start, buffer.len());
    let hit: Option<usize> = ec::index_of_bytes(needle, haystack, true);
    proof {
        assert forall|other: int| start <= other implies occurs_at(buffer@, needle@, other)
            == occurs_at(haystack@, needle@, other - start) by {
            if 0 <= other - start && other + needle@.len() <= buffer@.len() {
                assert(haystack@.subrange(other - start, other - start + needle@.len())
                    =~= buffer@.subrange(other, other + needle@.len()));
            }
        }
    }
    let found: Option<usize> = match hit {
        Some(at) => {
            proof {
                assert(occurs_at(buffer@, needle@, at + start));
            }
            Some(at + start)
        },
        None => None,
    };
    proof {
        lemma_first_from(buffer@, needle@, start as int, found);
    }
    found
}

/// The rightmost occurrence of `needle` in `buffer[..end]`, as an index
/// into `buffer`: the match nearest to `end` that lies wholly before it.
pub fn search_backward(buffer: &Vec<u8>, end: usize, needle: &Vec<u8>) -> (found: Option<usize>)
    ensures
        is_last_before(buffer@, needle@, end as int, found),
        found == last_before(buffer@, needle@, end as int),
{
    let stop: usize = if end > buffer.len() {
        buffer.len()
    } else {
        end
    };
    let haystack: &[u8] = slice_subrange(buffer.as_slice(), 0, stop);
    let hit: Option<usize> = ec::index_of_bytes(needle, haystack, false);
    proof {
        assert forall|other: int| other + needle@.len() <= end implies occurs_at(
            buffer@,
            needle@,
            other,
        ) == occurs_at(haystack@, needle@, other) by {
            if 0 <= other && other + needle@.len() <= stop {
                assert(haystack@.subrange(other, other + needle@.len()) =~= buffer@.subrange(
                    other,
                    other + needle@.len(),
                ));
            }
        }
        if hit is Some {
            let at = hit->0 as int;
            assert(haystack@.subrange(at, at + needle@.len()) =~= buffer@.subrange(
                at,
                at + needle@.len(),
            ));
        }
        lemma_last_before(buffer@, needle@, end as int, hit);
    }
    hit
}

impl StateView {
    /// The state after a search for `needle`: onwards from the cursor, the
    /// byte at the cursor included, or backwards among the bytes before the
    /// cursor. A search that finds the bytes puts the cursor on the first
    /// of them and remembers the needle.
    pub open spec fn searched(self, needle: Seq<u8>, forward: bool) -> Result<
        StateView,
        ErrorView,
    > {
        let found = if forward {
            first_from(self.buffer, needle, self.cursor as int)
        } else {
            last_before(self.buffer, needle, self.cursor as int)
        };
        if self.buffer.len() == 0 {
            Err(ErrorView::EmptyFile)
        } else {
            match found {
                Some(at) => Ok(StateView { cursor: at, last_search: Some(needle), ..self }),
                None => Err(ErrorView::NotFound { needle }),
            }
        }
    }

    /// The state after the last search is made again: onwards from the
    /// byte after the cursor, or backwards among the bytes before the
    /// cursor.
    pub open spec fn searched_again(self, forward: bool) -> Result<StateView, ErrorView> {
        if self.buffer.len() == 0 {
            Err(ErrorView::EmptyFile)
        } else {
            match self.last_search {
                None => Err(ErrorView::NoPreviousSearch),
                Some(needle) => {
                    let found = if forward {
                        first_from(self.buffer, needle, self.cursor + 1)
                    } else {
                        last_before(self.buffer, needle, self.cursor as int)
                    };
                    match found {
                        Some(at) => Ok(self.at(at)),
                        None => Err(ErrorView::NotFound { needle }),
                    }
                },
            }
        }
    }

    /// Where `needle`, which must not be empty, first occurs from the
    /// cursor on.
    pub open spec fn located(self, needle: Seq<u8>) -> Result<usize, ErrorView> {
        if self.buffer.len() == 0 {
            Err(ErrorView::EmptyFile)
        } else if needle.len() == 0 {
            Err(ErrorView::EmptyNeedle)
        } else {
            match first_from(self.buffer, needle, self.cursor as int) {
                Some(at) => Ok(at),
                None => Err(ErrorView::NotFound { needle }),
            }
        }
    }
}

/// Searches for `needle`, onwards from the cursor or backwards before it,
/// and puts the cursor on the match. Returns the new index.
pub fn search(state: &mut EditorState, needle: Vec<u8>, forward: bool) -> (r: Result<
    usize,
    EditError,
>)
    ensures
        transition(*final(state), r) == old(state)@.searched(needle@, forward),
        r is Err ==> *final(state) == *old(state),
        r matches Ok(at) ==> at == final(state).cursor,
        old(state).wf() ==> final(state).wf(),
{
    if state.buffer.len() == 0 {
        return Err(EditError::EmptyFile);
    }
    let found: Option<usize> = if forward {
        search_forward(&state.buffer, state.cursor, &needle)
    } else {
        search_backward(&state.buffer, state.cursor, &needle)
    };
    match found {
        Some(at) => {
            state.cursor = at;
            state.last_search = Some(needle);
            Ok(at)
        },
        None => Err(EditError::NotFound { needle }),
    }
}

/// Makes the last search again, onwards from the byte after the cursor or
/// backwards before the cursor. Returns the new index.
pub fn search_again(state: &mut EditorState, forward: bool) -> (r: Result<usize, EditError>)
    ensures
        transition(*final(state), r) == old(state)@.searched_again(forward),
        r is Err ==> *final(state) == *old(state),
        r matches Ok(at) ==> at == final(state).cursor,
        old(state).wf() ==> final(state).wf(),
{
    if state.buffer.len() == 0 {
        return Err(EditError::EmptyFile);
    }
    let needle: Vec<u8> = match &state.last_search {
        None => {
            return Err(EditError::NoPreviousSearch);
        },
        Some(last) => slice_to_vec(last.as_slice()),
    };
    let found: Option<usize> = if forward {
        match state.cursor.checked_add(1) {
            Some(start) => search_forward(&state.buffer, start, &needle),
            None => None,
        }
    } else {
        search_backward(&state.buffer, state.cursor, &needle)
    };
    match found {
        Some(at) => {
            state.cursor = at;
            Ok(at)
        },
        None => Err(EditError::NotFound { needle }),
    }
}

/// Where `needle` first occurs from the cursor on. The state is not
/// changed.
pub fn locate(state: &EditorState, needle: &Vec<u8>) -> (r: Result<usize, EditError>)
    ensures
        index_view(r) == state@.located(needle@),
        r matches Ok(at) ==> occurs_at(state@.buffer, needle@, at as int),
{
    if state.buffer.len() == 0 {
        Err(EditError::EmptyFile)
    } else if needle.len() == 0 {
        Err(EditError::EmptyNeedle)
    } else {
        match search_forward(&state.buffer, state.cursor, needle) {
            Some(at) => Ok(at),
            None => Err(EditError::NotFound { needle: slice_to_vec(needle.as_slice()) }),
        }
    }
}

} // verus!
