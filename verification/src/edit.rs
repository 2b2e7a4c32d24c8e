//! Changing the buffer: inserting bytes and removing a range of them.

use vstd::prelude::*;
use vstd::slice::slice_to_vec;
use crate::ec;
use crate::error::{EditError, ErrorView};
use crate::state::{transition, EditorState, StateView};

verus! {

/// Inserts `new_bytes` before the byte at index `at`, or after the last
/// byte where `at` is the buffer's length. The bytes from `at` on move
/// towards the end, the cursor stands on the first inserted byte, and the
/// buffer counts as changed.
///
/// Read-only mode does not stand in the way: it concerns writing the
/// buffer out, not changing it in memory.
pub fn insert(state: &mut EditorState, at: usize, new_bytes: &Vec<u8>) -> (r: Result<
    (),
    EditError,
>)
    ensures
        transition(*final(state), r) == old(state)@.inserted(at, new_bytes@),
        r is Err ==> *final(state) == *old(state),
        old(state).wf() ==> final(state).wf(),
{
    let len: usize = state.buffer.len();
    if at > len || new_bytes.len() > usize::MAX - len {
        return Err(EditError::BadRange);
    }
    let ghost before = state.buffer@;
    let mut tail: Vec<u8> = state.buffer.split_off(at);
    let mut middle: Vec<u8> = slice_to_vec(new_bytes.as_slice());
    state.buffer.append(&mut middle);
    state.buffer.append(&mut tail);
    state.cursor = at;
    state.unsaved_changes = true;
    proof {
        assert(state.buffer@ =~= before.subrange(0, at as int) + new_bytes@ + before.subrange(
            at as int,
            len as int,
        ));
    }
    Ok(())
}

/// Removes the bytes from index `begin` to index `end`, both included. The
/// cursor stands where the first of them stood, and the buffer counts as
/// changed. A range that is reversed or reaches past the last byte is
/// refused.
///
/// Read-only mode does not stand in the way: it concerns writing the
/// buffer out, not changing it in memory.
pub fn kill(state: &mut EditorState, begin: usize, end: usize) -> (r: Result<(), EditError>)
    ensures
        transition(*final(state), r) == old(state)@.killed(begin, end),
        r is Err ==> *final(state) == *old(state),
        old(state).wf() ==> final(state).wf(),
{
    if state.buffer.len() == 0 {
        return Err(EditError::EmptyFile);
    }
    if begin > end || ec::bad_range(&state.buffer, (begin, end)) {
        return Err(EditError::BadRange);
    }
    let ghost before = state.buffer@;
    let mut right_half: Vec<u8> = state.buffer.split_off(begin);
    let mut kept: Vec<u8> = right_half.split_off(end - begin + 1);
    state.buffer.append(&mut kept);
    state.cursor = begin;
    state.unsaved_changes = true;
    proof {
        assert(state.buffer@ =~= before.subrange(0, begin as int) + before.subrange(
            end + 1,
            before.len() as int,
        ));
    }
    Ok(())
}

/// Killing what was just inserted gives back the buffer as it was before
/// the insertion: for bytes `b` inserted at index `i`, the range to kill
/// is `i` to `i + len(b) - 1`. Nothing but the cursor, which stands at
/// `i`, and the mark of unsaved changes, which is set, tells the state
/// from the one before the insertion.
///
/// There must be at least one byte to insert, since no range is empty.
/// The insertion itself is carried out wherever `i` is no further than the
/// end of the buffer and an index can still count the bytes of the grown
/// buffer; what is said here holds of every insertion that is carried out.
pub proof fn lemma_kill_undoes_insert(s: StateView, at: usize, bytes: Seq<u8>)
    requires
        s.wf(),
        bytes.len() > 0,
    ensures
        s.inserted(at, bytes) is Ok <==> at <= s.buffer.len() && s.buffer.len() + bytes.len()
            <= usize::MAX,
        s.inserted(at, bytes) matches Ok(grown) ==> grown.killed(
            at,
            (at + bytes.len() - 1) as usize,
        ) == Ok::<StateView, ErrorView>(StateView { cursor: at, unsaved_changes: true, ..s }),
{
    if s.inserted(at, bytes) is Ok {
        let grown = s.inserted(at, bytes)->Ok_0;
        let end = (at + bytes.len() - 1) as usize;
        assert(grown.buffer.len() == s.buffer.len() + bytes.len());
        let back = grown.killed(at, end)->Ok_0;
        assert(back.buffer =~= s.buffer);
    }
}

} // verus!
