//! Carrying out a command: what it does to the editor's state, and what is
//! to be shown or asked for afterwards.

use vstd::prelude::*;
use crate::command::{Command, CommandView, Flag};
use crate::edit::{insert, kill, lemma_kill_undoes_insert};
use crate::error::{EditError, ErrorView};
use crate::hex::{decoded, encode};
use crate::moves::{minuses, move_to, next_window, pluses, previous_window};
use crate::search::{lemma_first_from_occurs, lemma_last_before_occurs, locate, search, search_again};
use crate::settings::{set_after_context, set_before_context, set_width, toggle};
use crate::state::{transition, EditorState, StateView};
use crate::window::{primary_end, primary_range, window, window_at, Range, Window};

verus! {

/// What remains to be done once a command has had its effect on the state:
/// something to show, something to ask for, or work on files.
#[derive(Clone, Copy, Debug, PartialEq, Eq, Structural)]
pub enum Action {
    /// Nothing is shown.
    Nothing,
    /// Show the line at the cursor with its context.
    ShowWindow(Window),
    /// Show these bytes, without context.
    ShowRange(Range),
    /// Show the new value of a flag.
    ShowFlag(bool),
    /// Ask for bytes and insert them at `at` with `insert_text`.
    ReadBytes { at: usize },
    Help,
    ShowState,
    Quit,
    LoadFile,
    LoadState,
    LoadPreferences,
    SavePreferences,
    SaveState,
    UpdateFilename,
    Write,
}

/// What is shown of state `s` after a command that moved the cursor or
/// changed the buffer: the window at the cursor, or nothing where the
/// cursor stands past the last byte.
pub open spec fn shown(s: StateView) -> Action {
    if s.cursor < s.buffer.len() {
        Action::ShowWindow(
            window_at(
                s.cursor,
                s.width,
                s.before_context,
                s.after_context,
                (s.buffer.len() - 1) as usize,
            ),
        )
    } else {
        Action::Nothing
    }
}

/// The new state with what is shown of it.
pub open spec fn and_shown(r: Result<StateView, ErrorView>) -> Result<
    (StateView, Action),
    ErrorView,
> {
    match r {
        Ok(s) => Ok((s, shown(s))),
        Err(e) => Err(e),
    }
}

/// What a command does: the state after it and the action that remains,
/// or the error, which leaves the state as it was.
///
/// The command's indices are first held against the buffer as it is now,
/// whatever was known of them when the line was read.
pub open spec fn applied(s: StateView, command: CommandView) -> Result<
    (StateView, Action),
    ErrorView,
> {
    match command.refusal(s.buffer.len()) {
        Some(e) => Err(e),
        None => match command {
            CommandView::MoveTo(index) => and_shown(s.moved_to(index)),
            CommandView::StepForward(count) => and_shown(s.stepped_forward(count)),
            CommandView::StepBackward(count) => and_shown(s.stepped_backward(count)),
            CommandView::NextWindow => and_shown(s.next_window()),
            CommandView::PreviousWindow => and_shown(Ok(s.previous_window())),
            CommandView::PrintWindow => if s.buffer.len() == 0 {
                Err(ErrorView::EmptyFile)
            } else {
                Ok((s, shown(s)))
            },
            CommandView::PrintWindowAt(index) => and_shown(Ok(s.at(index))),
            CommandView::PrintRange(begin, end) => Ok(
                (s.at(begin), Action::ShowRange(Range { begin, end })),
            ),
            CommandView::Insert(at) => Ok((s, Action::ReadBytes { at })),
            CommandView::Kill(begin, end) => and_shown(s.killed(begin, end)),
            CommandView::SearchForward(needle) => and_shown(s.searched(needle, true)),
            CommandView::SearchBackward(needle) => and_shown(s.searched(needle, false)),
            CommandView::RepeatSearch(forward) => and_shown(s.searched_again(forward)),
            CommandView::SearchThenKill(needle) => match s.located(needle) {
                Err(e) => Err(e),
                Ok(at) => and_shown(s.killed(at, (at + needle.len() - 1) as usize)),
            },
            CommandView::SearchThenInsert(needle) => match s.located(needle) {
                Err(e) => Err(e),
                Ok(at) => Ok((s, Action::ReadBytes { at })),
            },
            CommandView::SetWidth(width) => match s.with_width(width) {
                Err(e) => Err(e),
                Ok(after) => Ok((after, Action::Nothing)),
            },
            CommandView::SetBeforeContext(lines) => Ok(
                (StateView { before_context: lines, ..s }, Action::Nothing),
            ),
            CommandView::SetAfterContext(lines) => Ok(
                (StateView { after_context: lines, ..s }, Action::Nothing),
            ),
            CommandView::ToggleFlag(flag) => Ok(
                (
                    s.toggled(flag),
                    match flag {
                        Flag::ReadOnly | Flag::Radix => Action::Nothing,
                        _ => Action::ShowFlag(s.toggled(flag).flag(flag)),
                    },
                ),
            ),
            CommandView::Help => Ok((s, Action::Help)),
            CommandView::ShowState => Ok((s, Action::ShowState)),
            CommandView::Quit => Ok((s, Action::Quit)),
            CommandView::LoadFile => Ok((s, Action::LoadFile)),
            CommandView::LoadState => Ok((s, Action::LoadState)),
            CommandView::LoadPreferences => Ok((s, Action::LoadPreferences)),
            CommandView::SavePreferences => Ok((s, Action::SavePreferences)),
            CommandView::SaveState => Ok((s, Action::SaveState)),
            CommandView::UpdateFilename => Ok((s, Action::UpdateFilename)),
            CommandView::Write => Ok((s, Action::Write)),
            CommandView::Unknown(letter) => Err(ErrorView::UnknownCommand { letter }),
        },
    }
}

/// What inserting the bytes that `text` writes does: the state after it
/// and the line to show from the cursor on.
pub open spec fn text_inserted(s: StateView, at: usize, text: Seq<char>) -> Result<
    (StateView, Action),
    ErrorView,
> {
    match decoded(text) {
        Err(e) => Err(e),
        Ok(bytes) => match s.inserted(at, bytes) {
            Err(e) => Err(e),
            Ok(after) => Ok(
                (
                    after,
                    if after.cursor < after.buffer.len() {
                        Action::ShowRange(
                            Range {
                                begin: after.cursor,
                                end: primary_end(
                                    after.cursor as int,
                                    after.width as int,
                                    after.buffer.len() - 1,
                                ) as usize,
                            },
                        )
                    } else {
                        Action::Nothing
                    },
                ),
            ),
        },
    }
}

/// The state and the action after a call, or the error of a call that
/// failed, with bytes and texts as sequences.
pub open spec fn effect(after: EditorState, r: Result<Action, EditError>) -> Result<
    (StateView, Action),
    ErrorView,
> {
    match r {
        Ok(action) => Ok((after@, action)),
        Err(e) => Err(e@),
    }
}

/// What is shown of `state` after a command that moved the cursor or
/// changed the buffer.
pub fn show(state: &EditorState) -> (action: Action)
    requires
        state.wf(),
    ensures
        action == shown(state@),
{
    if state.cursor < state.buffer.len() {
        Action::ShowWindow(
            window(
                state.cursor,
                state.width,
                state.before_context,
                state.after_context,
                state.buffer.len() - 1,
            ),
        )
    } else {
        Action::Nothing
    }
}

/// Passes an error on, and shows the state after a call that went well.
fn then_show<T>(state: &EditorState, r: Result<T, EditError>) -> (out: Result<Action, EditError>)
    requires
        state.wf(),
    ensures
        effect(*state, out) == and_shown(transition(*state, r)),
        out is Err <==> r is Err,
{
    match r {
        Err(e) => Err(e),
        Ok(_) => Ok(show(state)),
    }
}

/// Carries out `command` on `state` and says what remains to be done. A
/// command that fails leaves the state as it was.
pub fn apply(state: &mut EditorState, command: Command) -> (r: Result<Action, EditError>)
    requires
        old(state).wf(),
    ensures
        effect(*final(state), r) == applied(old(state)@, command@),
        r is Err ==> *final(state) == *old(state),
        final(state).wf(),
{
    match command.validate(&state.buffer) {
        Err(e) => {
            return Err(e);
        },
        Ok(_) => {},
    }
    match command {
        Command::MoveTo(index) => {
            let moved = move_to(state, index);
            then_show(state, moved)
        },
        Command::StepForward(count) => {
            let moved = pluses(state, count);
            then_show(state, moved)
        },
        Command::StepBackward(count) => {
            let moved = minuses(state, count);
            then_show(state, moved)
        },
        Command::NextWindow => {
            let moved = next_window(state);
            then_show(state, moved)
        },
        Command::PreviousWindow => {
            previous_window(state);
            Ok(show(state))
        },
        Command::PrintWindow => if state.buffer.len() == 0 {
            Err(EditError::EmptyFile)
        } else {
            Ok(show(state))
        },
        Command::PrintWindowAt(index) => {
            state.cursor = index;
            Ok(show(state))
        },
        Command::PrintRange(begin, end) => {
            state.cursor = begin;
            Ok(Action::ShowRange(Range { begin, end }))
        },
        Command::Insert(at) => Ok(Action::ReadBytes { at }),
        Command::Kill(begin, end) => {
            let moved = kill(state, begin, end);
            then_show(state, moved)
        },
        Command::SearchForward(needle) => {
            let moved = search(state, needle, true);
            then_show(state, moved)
        },
        Command::SearchBackward(needle) => {
            let moved = search(state, needle, false);
            then_show(state, moved)
        },
        Command::RepeatSearch(forward) => {
            let moved = search_again(state, forward);
            then_show(state, moved)
        },
        Command::SearchThenKill(needle) => match locate(state, &needle) {
            Err(e) => Err(e),
            Ok(at) => {
                let killed = kill(state, at, at + (needle.len() - 1));
                then_show(state, killed)
            },
        },
        Command::SearchThenInsert(needle) => match locate(state, &needle) {
            Err(e) => Err(e),
            Ok(at) => Ok(Action::ReadBytes { at }),
        },
        Command::SetWidth(width) => match set_width(state, width) {
            Err(e) => Err(e),
            Ok(_) => Ok(Action::Nothing),
        },
        Command::SetBeforeContext(lines) => {
            set_before_context(state, lines);
            Ok(Action::Nothing)
        },
        Command::SetAfterContext(lines) => {
            set_after_context(state, lines);
            Ok(Action::Nothing)
        },
        Command::ToggleFlag(flag) => {
            let on: bool = toggle(state, flag);
            match flag {
                Flag::ReadOnly | Flag::Radix => Ok(Action::Nothing),
                _ => Ok(Action::ShowFlag(on)),
            }
        },
        Command::Help => Ok(Action::Help),
        Command::ShowState => Ok(Action::ShowState),
        Command::Quit => Ok(Action::Quit),
        Command::LoadFile => Ok(Action::LoadFile),
        Command::LoadState => Ok(Action::LoadState),
        Command::LoadPreferences => Ok(Action::LoadPreferences),
        Command::SavePreferences => Ok(Action::SavePreferences),
        Command::SaveState => Ok(Action::SaveState),
        Command::UpdateFilename => Ok(Action::UpdateFilename),
        Command::Write => Ok(Action::Write),
        Command::Unknown(letter) => Err(EditError::UnknownCommand { letter }),
    }
}

/// Reads `text` as bytes and inserts them at index `at`: the second half
/// of an insertion, once the bytes have been asked for. A text that is not
/// made of pairs of hex digits leaves the state as it was.
pub fn insert_text(state: &mut EditorState, at: usize, text: &str) -> (r: Result<
    Action,
    EditError,
>)
    requires
        old(state).wf(),
    ensures
        effect(*final(state), r) == text_inserted(old(state)@, at, text@),
        r is Err ==> *final(state) == *old(state),
        final(state).wf(),
{
    match encode(text) {
        Err(e) => Err(e),
        Ok(bytes) => match insert(state, at, &bytes) {
            Err(e) => Err(e),
            Ok(_) => if state.cursor < state.buffer.len() {
                Ok(
                    Action::ShowRange(
                        primary_range(state.cursor, state.width, state.buffer.len() - 1),
                    ),
                )
            } else {
                Ok(Action::Nothing)
            },
        },
    }
}

/// A move to a byte that exists puts the cursor on it and shows the line
/// that starts there and ends `width - 1` bytes on, or at the last byte.
/// The line depends on the index, the width and the buffer's length alone:
/// where the cursor stood before, and what else was done before, plays no
/// part.
pub proof fn lemma_move_to_shows_line(s: StateView, index: usize)
    requires
        s.wf(),
        index < s.buffer.len(),
    ensures
        applied(s, CommandView::MoveTo(index)) matches Ok((after, action)) && after == s.at(index)
            && (action matches Action::ShowWindow(w) && w.primary == (Range {
            begin: index,
            end: primary_end(index as int, s.width as int, s.buffer.len() - 1) as usize,
        })),
{
}

/// Whether a command needs bytes to work on: one that names bytes, moves
/// the cursor to a byte or by a number of bytes, moves it one line on,
/// shows the window at the cursor, or searches.
pub open spec fn needs_bytes(command: CommandView) -> bool {
    match command {
        CommandView::MoveTo(..)
        | CommandView::StepForward(..)
        | CommandView::StepBackward(..)
        | CommandView::NextWindow
        | CommandView::PrintWindow
        | CommandView::PrintWindowAt(..)
        | CommandView::PrintRange(..)
        | CommandView::Kill(..)
        | CommandView::SearchForward(..)
        | CommandView::SearchBackward(..)
        | CommandView::RepeatSearch(..)
        | CommandView::SearchThenKill(..)
        | CommandView::SearchThenInsert(..) => true,
        _ => false,
    }
}

/// On an empty buffer every command that needs bytes fails, and the error
/// says that there are none. As with every error, the state is left as it
/// was.
pub proof fn lemma_empty_buffer_refuses(s: StateView, command: CommandView)
    requires
        s.buffer.len() == 0,
        needs_bytes(command),
    ensures
        applied(s, command) matches Err(e) && e.is_empty_file(),
{
}

/// The command that switches a flag, given twice, gives back the state as
/// it was, and the buffer is the same after either time.
pub proof fn lemma_toggle_command_twice(s: StateView, flag: Flag)
    requires
        s.wf(),
    ensures
        applied(s, CommandView::ToggleFlag(flag)) matches Ok((once, _)) && once.buffer == s.buffer
            && (applied(once, CommandView::ToggleFlag(flag)) matches Ok((twice, _)) && twice
            == s),
{
}

/// An insertion followed by the kill of what was inserted gives back the
/// buffer: where the text `text` writes the bytes `b`, at least one, and
/// they are inserted at index `i`, the command that kills the range `i` to
/// `i + len(b) - 1` is carried out and leaves the state as it was before
/// the insertion, but for the cursor, which stands at `i`, and the mark of
/// unsaved changes, which is set.
pub proof fn lemma_kill_command_undoes_insert(s: StateView, at: usize, text: Seq<char>)
    requires
        s.wf(),
        decoded(text) matches Ok(bytes) && bytes.len() > 0,
    ensures
        text_inserted(s, at, text) matches Ok((grown, _)) ==> (applied(
            grown,
            CommandView::Kill(at, (at + decoded(text)->Ok_0.len() - 1) as usize),
        ) matches Ok((back, _)) && back == (StateView {
            cursor: at,
            unsaved_changes: true,
            ..s
        })),
{
    lemma_kill_undoes_insert(s, at, decoded(text)->Ok_0);
}

/// The cursor stays on a byte: where it lies on one before a command, it
/// lies on one after it, unless the command killed bytes. A kill that
/// takes the end of the buffer is the one command that leaves the cursor
/// just past the last byte.
pub proof fn lemma_cursor_stays_on_byte(s: StateView, command: CommandView)
    requires
        s.wf(),
        s.cursor_on_byte(),
        !(command is Kill),
        !(command is SearchThenKill),
    ensures
        applied(s, command) matches Ok((after, _)) ==> after.cursor_on_byte(),
{
    match command {
        CommandView::SearchForward(needle) => {
            lemma_first_from_occurs(s.buffer, needle, s.cursor as int);
        },
        CommandView::SearchBackward(needle) => {
            lemma_last_before_occurs(s.buffer, needle, s.cursor as int);
        },
        CommandView::RepeatSearch(forward) => {
            if s.last_search is Some {
                lemma_first_from_occurs(s.buffer, s.last_search->0, s.cursor + 1);
                lemma_last_before_occurs(s.buffer, s.last_search->0, s.cursor as int);
            }
        },
        _ => {},
    }
}

/// An insertion of at least one byte puts the cursor on a byte, the first
/// of those inserted.
pub proof fn lemma_insertion_puts_cursor_on_byte(s: StateView, at: usize, text: Seq<char>)
    requires
        s.wf(),
        decoded(text) matches Ok(bytes) && bytes.len() > 0,
    ensures
        text_inserted(s, at, text) matches Ok((grown, _)) ==> grown.cursor_on_byte()
            && grown.cursor == at && grown.buffer[at as int] == decoded(text)->Ok_0[0],
{
}

} // verus!
