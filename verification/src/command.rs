//! The commands that a line of input can stand for.

use vstd::prelude::*;
use crate::ec;
use crate::error::{EditError, ErrorView};

verus! {

/// A setting with two values, which a command switches to the other one.
#[derive(Clone, Copy, Debug, PartialEq, Eq, Structural)]
pub enum Flag {
    /// Whether the characters are shown after the bytes.
    ShowChars,
    /// Whether the index is shown before the bytes.
    ShowByteNumbers,
    /// Whether the output is coloured.
    Color,
    /// Whether writing the buffer out is refused.
    ReadOnly,
    /// Whether numbers are read and shown in hex or in decimal.
    Radix,
}

/// One operation of the editor, with its operands resolved to indices and
/// bytes.
#[derive(Debug, PartialEq, Eq)]
pub enum Command {
    /// Put the cursor on the byte at this index and show its window.
    MoveTo(usize),
    /// Move the cursor this many bytes on.
    StepForward(usize),
    /// Move the cursor this many bytes back.
    StepBackward(usize),
    /// Move the cursor one window on.
    NextWindow,
    /// Move the cursor one window back.
    PreviousWindow,
    /// Show the window at the cursor.
    PrintWindow,
    /// Put the cursor on the byte at this index and show one window there.
    PrintWindowAt(usize),
    /// Show the bytes from the first index to the second, both included,
    /// and put the cursor on the first.
    PrintRange(usize, usize),
    /// Ask for bytes and insert them before the byte at this index.
    Insert(usize),
    /// Remove the bytes from the first index to the second, both included.
    Kill(usize, usize),
    /// Search for these bytes from the cursor on.
    SearchForward(Vec<u8>),
    /// Search for these bytes before the cursor.
    SearchBackward(Vec<u8>),
    /// Search again for the bytes last found: onwards if `true`.
    RepeatSearch(bool),
    /// Search for these bytes from the cursor on and remove them.
    SearchThenKill(Vec<u8>),
    /// Search for these bytes from the cursor on and insert before them.
    SearchThenInsert(Vec<u8>),
    /// Show this many bytes on a line.
    SetWidth(usize),
    /// Show this many lines before the line at the cursor.
    SetBeforeContext(usize),
    /// Show this many lines after the line at the cursor.
    SetAfterContext(usize),
    /// Switch a setting to its other value.
    ToggleFlag(Flag),
    Help,
    ShowState,
    Quit,
    /// Replace the buffer by the bytes of another file.
    LoadFile,
    /// Replace the editor's state by one that was saved.
    LoadState,
    LoadPreferences,
    SavePreferences,
    SaveState,
    /// Name the file that the buffer is written to.
    UpdateFilename,
    /// Write the buffer out.
    Write,
    /// A letter that stands where a command is expected and names none.
    Unknown(char),
}

/// A `Command` with its bytes as sequences.
pub enum CommandView {
    MoveTo(usize),
    StepForward(usize),
    StepBackward(usize),
    NextWindow,
    PreviousWindow,
    PrintWindow,
    PrintWindowAt(usize),
    PrintRange(usize, usize),
    Insert(usize),
    Kill(usize, usize),
    SearchForward(Seq<u8>),
    SearchBackward(Seq<u8>),
    RepeatSearch(bool),
    SearchThenKill(Seq<u8>),
    SearchThenInsert(Seq<u8>),
    SetWidth(usize),
    SetBeforeContext(usize),
    SetAfterContext(usize),
    ToggleFlag(Flag),
    Help,
    ShowState,
    Quit,
    LoadFile,
    LoadState,
    LoadPreferences,
    SavePreferences,
    SaveState,
    UpdateFilename,
    Write,
    Unknown(char),
}

impl View for Command {
    type V = CommandView;

    open spec fn view(&self) -> CommandView {
        match *self {
            Command::MoveTo(index) => CommandView::MoveTo(index),
            Command::StepForward(count) => CommandView::StepForward(count),
            Command::StepBackward(count) => CommandView::StepBackward(count),
            Command::NextWindow => CommandView::NextWindow,
            Command::PreviousWindow => CommandView::PreviousWindow,
            Command::PrintWindow => CommandView::PrintWindow,
            Command::PrintWindowAt(index) => CommandView::PrintWindowAt(index),
            Command::PrintRange(begin, end) => CommandView::PrintRange(begin, end),
            Command::Insert(at) => CommandView::Insert(at),
            Command::Kill(begin, end) => CommandView::Kill(begin, end),
            Command::SearchForward(needle) => CommandView::SearchForward(needle@),
            Command::SearchBackward(needle) => CommandView::SearchBackward(needle@),
            Command::RepeatSearch(forward) => CommandView::RepeatSearch(forward),
            Command::SearchThenKill(needle) => CommandView::SearchThenKill(needle@),
            Command::SearchThenInsert(needle) => CommandView::SearchThenInsert(needle@),
            Command::SetWidth(width) => CommandView::SetWidth(width),
            Command::SetBeforeContext(lines) => CommandView::SetBeforeContext(lines),
            Command::SetAfterContext(lines) => CommandView::SetAfterContext(lines),
            Command::ToggleFlag(flag) => CommandView::ToggleFlag(flag),
            Command::Help => CommandView::Help,
            Command::ShowState => CommandView::ShowState,
            Command::Quit => CommandView::Quit,
            Command::LoadFile => CommandView::LoadFile,
            Command::LoadState => CommandView::LoadState,
            Command::LoadPreferences => CommandView::LoadPreferences,
            Command::SavePreferences => CommandView::SavePreferences,
            Command::SaveState => CommandView::SaveState,
            Command::UpdateFilename => CommandView::UpdateFilename,
            Command::Write => CommandView::Write,
            Command::Unknown(letter) => CommandView::Unknown(letter),
        }
    }
}

impl CommandView {
    /// The bytes that the command reads or removes, where it names any.
    pub open spec fn range(self) -> Option<(usize, usize)> {
        match self {
            CommandView::MoveTo(index) => Some((index, index)),
            CommandView::PrintWindowAt(index) => Some((index, index)),
            CommandView::PrintRange(begin, end) => Some((begin, end)),
            CommandView::Kill(begin, end) => Some((begin, end)),
            _ => None,
        }
    }

    /// Whether the command's range is reversed or reaches past the last of
    /// `len` bytes.
    pub open spec fn has_bad_range(self, len: nat) -> bool {
        match self.range() {
            Some((begin, end)) => begin > end || len == 0 || end >= len,
            None => false,
        }
    }

    /// Why the command cannot be carried out on a buffer of `len` bytes,
    /// as far as its indices tell: a command that reads or removes bytes
    /// needs them to exist, and one that inserts needs a place at or before
    /// the end.
    pub open spec fn refusal(self, len: nat) -> Option<ErrorView> {
        match self {
            CommandView::Insert(at) => if at > len {
                Some(ErrorView::BadRange)
            } else {
                None
            },
            CommandView::MoveTo(index) => if len == 0 {
                Some(ErrorView::EmptyFile)
            } else if index >= len {
                Some(ErrorView::IndexTooLarge { index, max: (len - 1) as usize })
            } else {
                None
            },
            CommandView::PrintWindowAt(..) | CommandView::PrintRange(..) | CommandView::Kill(
                ..,
            ) => if len == 0 {
                Some(ErrorView::EmptyFile)
            } else if self.has_bad_range(len) {
                Some(ErrorView::BadRange)
            } else {
                None
            },
            _ => None,
        }
    }
}

/// Nothing, or the error in its place with its texts as sequences.
pub open spec fn refusal_view(r: Result<(), EditError>) -> Option<ErrorView> {
    match r {
        Ok(_) => None,
        Err(e) => Some(e@),
    }
}

impl Command {
    /// The bytes that the command reads or removes, where it names any.
    pub fn range(&self) -> (r: Option<(usize, usize)>)
        ensures
            r == self@.range(),
    {
        match self {
            Command::MoveTo(index) => Some((*index, *index)),
            Command::PrintWindowAt(index) => Some((*index, *index)),
            Command::PrintRange(begin, end) => Some((*begin, *end)),
            Command::Kill(begin, end) => Some((*begin, *end)),
            _ => None,
        }
    }

    /// Whether the command names bytes that `all_bytes` does not hold, or
    /// names them last to first.
    pub fn bad_range(&self, all_bytes: &Vec<u8>) -> (bad: bool)
        ensures
            bad == self@.has_bad_range(all_bytes@.len()),
    {
        match self.range() {
            Some(range) => range.0 > range.1 || ec::bad_range(all_bytes, range),
            None => false,
        }
    }

    /// Holds the command's indices against the buffer `all_bytes`.
    pub fn validate(&self, all_bytes: &Vec<u8>) -> (r: Result<(), EditError>)
        ensures
            refusal_view(r) == self@.refusal(all_bytes@.len()),
    {
        match self {
            Command::Insert(at) => if *at > all_bytes.len() {
                Err(EditError::BadRange)
            } else {
                Ok(())
            },
            Command::MoveTo(index) => if all_bytes.len() == 0 {
                Err(EditError::EmptyFile)
            } else if *index >= all_bytes.len() {
                Err(EditError::IndexTooLarge { index: *index, max: all_bytes.len() - 1 })
            } else {
                Ok(())
            },
            Command::PrintWindowAt(..) | Command::PrintRange(..) | Command::Kill(
                ..,
            ) => if all_bytes.len() == 0 {
                Err(EditError::EmptyFile)
            } else if self.bad_range(all_bytes) {
                Err(EditError::BadRange)
            } else {
                Ok(())
            },
            _ => Ok(()),
        }
    }
}

} // verus!
