//! Changing how the buffer is shown and how numbers are read.

use vstd::prelude::*;
use crate::command::Flag;
use crate::error::{EditError, ErrorView};
use crate::state::{transition, EditorState, StateView};

verus! {

impl StateView {
    /// The state with lines of `width` bytes, which must be at least one.
    pub open spec fn with_width(self, width: usize) -> Result<StateView, ErrorView> {
        if width == 0 {
            Err(ErrorView::WidthNotPositive)
        } else {
            Ok(StateView { width, ..self })
        }
    }
}

/// Switches `flag` to its other value and returns whether it is now on;
/// for the radix, whether it is now hex. Nothing else changes.
pub fn toggle(state: &mut EditorState, flag: Flag) -> (on: bool)
    ensures
        final(state)@ == old(state)@.toggled(flag),
        on == final(state)@.flag(flag),
        final(state).buffer == old(state).buffer,
        old(state).wf() ==> final(state).wf(),
{
    match flag {
        Flag::ShowChars => {
            state.show_chars = !state.show_chars;
            state.show_chars
        },
        Flag::ShowByteNumbers => {
            state.show_byte_numbers = !state.show_byte_numbers;
            state.show_byte_numbers
        },
        Flag::Color => {
            state.color = !state.color;
            state.color
        },
        Flag::ReadOnly => {
            state.readonly = !state.readonly;
            state.readonly
        },
        Flag::Radix => {
            state.radix = if state.radix == 16 {
                10
            } else {
                16
            };
            state.radix == 16
        },
    }
}

/// Switching a flag twice gives back the state as it was, and the buffer is
/// the same after either switch.
pub proof fn lemma_toggle_twice(s: StateView, flag: Flag)
    requires
        s.wf(),
    ensures
        s.toggled(flag).toggled(flag) == s,
        s.toggled(flag).buffer == s.buffer,
        s.toggled(flag).flag(flag) == !s.flag(flag),
        s.toggled(flag).wf(),
{
}

/// Sets the number of bytes on a line, which must be at least one.
pub fn set_width(state: &mut EditorState, width: usize) -> (r: Result<(), EditError>)
    ensures
        transition(*final(state), r) == old(state)@.with_width(width),
        r is Err ==> *final(state) == *old(state),
        old(state).wf() ==> final(state).wf(),
{
    if width == 0 {
        Err(EditError::WidthNotPositive)
    } else {
        state.width = width;
        Ok(())
    }
}

/// Sets the number of lines shown before the line at the cursor.
pub fn set_before_context(state: &mut EditorState, lines: usize)
    ensures
        final(state)@ == (StateView { before_context: lines, ..old(state)@ }),
        old(state).wf() ==> final(state).wf(),
{
    state.before_context = lines;
}

/// Sets the number of lines shown after the line at the cursor.
pub fn set_after_context(state: &mut EditorState, lines: usize)
    ensures
        final(state)@ == (StateView { after_context: lines, ..old(state)@ }),
        old(state).wf() ==> final(state).wf(),
{
    state.after_context = lines;
}

} // verus!
