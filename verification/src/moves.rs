//! Moving the cursor: to an index, by a number of bytes, or by a line.

use vstd::prelude::*;
use crate::error::EditError;
use crate::state::{transition, EditorState};

verus! {

/// Puts the cursor on the byte at `index` and returns the new index.
pub fn move_to(state: &mut EditorState, index: usize) -> (r: Result<usize, EditError>)
    ensures
        transition(*final(state), r) == old(state)@.moved_to(index),
        r is Err ==> *final(state) == *old(state),
        r matches Ok(at) ==> at == index,
        old(state).wf() ==> final(state).wf(),
{
    if state.buffer.len() == 0 {
        Err(EditError::EmptyFile)
    } else if index >= state.buffer.len() {
        Err(EditError::IndexTooLarge { index, max: state.buffer.len() - 1 })
    } else {
        state.cursor = index;
        Ok(index)
    }
}

/// Moves the cursor `num_pluses` bytes towards the end and returns the new
/// index.
pub fn pluses(state: &mut EditorState, num_pluses: usize) -> (r: Result<usize, EditError>)
    ensures
        transition(*final(state), r) == old(state)@.stepped_forward(num_pluses),
        r is Err ==> *final(state) == *old(state),
        r matches Ok(at) ==> at == final(state).cursor,
        old(state).wf() ==> final(state).wf(),
{
    if state.buffer.len() == 0 {
        return Err(EditError::EmptyFile);
    }
    let max: usize = state.buffer.len() - 1;
    if state.cursor == max {
        Err(EditError::AlreadyAtLastByte)
    } else if state.cursor > max || num_pluses > max - state.cursor {
        Err(EditError::PastLastByte { count: num_pluses })
    } else {
        state.cursor = state.cursor + num_pluses;
        Ok(state.cursor)
    }
}

/// Moves the cursor `num_minuses` bytes towards the start and returns the
/// new index.
pub fn minuses(state: &mut EditorState, num_minuses: usize) -> (r: Result<usize, EditError>)
    ensures
        transition(*final(state), r) == old(state)@.stepped_backward(num_minuses),
        r is Err ==> *final(state) == *old(state),
        r matches Ok(at) ==> at == final(state).cursor,
        old(state).wf() ==> final(state).wf(),
{
    if state.buffer.len() == 0 {
        Err(EditError::EmptyFile)
    } else if state.cursor == 0 {
        Err(EditError::AlreadyAtFirstByte)
    } else if state.cursor < num_minuses {
        Err(EditError::BeyondFirstByte { count: num_minuses })
    } else {
        state.cursor = state.cursor - num_minuses;
        Ok(state.cursor)
    }
}

/// Moves the cursor one line towards the end and returns the new index.
/// The move is refused where the line after the cursor's would begin past
/// the last byte.
pub fn next_window(state: &mut EditorState) -> (r: Result<usize, EditError>)
    ensures
        transition(*final(state), r) == old(state)@.next_window(),
        r is Err ==> *final(state) == *old(state),
        r matches Ok(at) ==> at == final(state).cursor,
        old(state).wf() ==> final(state).wf(),
{
    if state.buffer.len() == 0 {
        return Err(EditError::EmptyFile);
    }
    let max: usize = state.buffer.len() - 1;
    if state.cursor > max || state.width > max - state.cursor {
        Err(EditError::AlreadyShowingLastByte { last: max })
    } else {
        state.cursor = state.cursor + state.width;
        Ok(state.cursor)
    }
}

/// Moves the cursor one line towards the start, or to index zero where
/// less than a line lies before it, and returns the new index. This never
/// fails.
pub fn previous_window(state: &mut EditorState) -> (at: usize)
    ensures
        final(state)@ == old(state)@.previous_window(),
        at == final(state).cursor,
        old(state).wf() ==> final(state).wf(),
{
    state.cursor = state.cursor.saturating_sub(state.width);
    state.cursor
}

} // verus!
