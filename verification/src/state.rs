//! The editor's state: the buffer, the cursor and the settings.

use vstd::prelude::*;
use crate::command::Flag;
use crate::error::{EditError, ErrorView};
use crate::numeral::index_view;

verus! {

/// Everything the editor remembers from one command to the next.
#[derive(Debug, PartialEq, Eq)]
pub struct EditorState {
    /// The index of the byte in focus. It lies on a byte, or at index zero
    /// of a buffer without bytes. Only a kill that removes the end of the
    /// buffer, and an insertion of no bytes at its end, leave it just past
    /// the last byte; loading a file never does.
    pub cursor: usize,
    /// The base in which numbers are read and shown: 10 or 16.
    pub radix: u32,
    /// The bytes being edited.
    pub buffer: Vec<u8>,
    /// How many bytes a line shows; never zero.
    pub width: usize,
    /// How many lines are shown before the line at the cursor.
    pub before_context: usize,
    /// How many lines are shown after the line at the cursor.
    pub after_context: usize,
    /// The bytes that the last successful search looked for.
    pub last_search: Option<Vec<u8>>,
    /// Whether the buffer differs from what was last written out.
    pub unsaved_changes: bool,
    /// Whether writing the buffer out is refused.
    pub readonly: bool,
    /// Whether the characters are shown after the bytes.
    pub show_chars: bool,
    /// Whether the index is shown before the bytes.
    pub show_byte_numbers: bool,
    /// Whether the output is coloured.
    pub color: bool,
    /// The file that the buffer is written to; empty while there is none.
    pub filename: String,
}

/// An `EditorState` with its bytes and texts as sequences.
pub struct StateView {
    pub cursor: usize,
    pub radix: u32,
    pub buffer: Seq<u8>,
    pub width: usize,
    pub before_context: usize,
    pub after_context: usize,
    pub last_search: Option<Seq<u8>>,
    pub unsaved_changes: bool,
    pub readonly: bool,
    pub show_chars: bool,
    pub show_byte_numbers: bool,
    pub color: bool,
    pub filename: Seq<char>,
}

impl View for EditorState {
    type V = StateView;

    open spec fn view(&self) -> StateView {
        StateView {
            cursor: self.cursor,
            radix: self.radix,
            buffer: self.buffer@,
            width: self.width,
            before_context: self.before_context,
            after_context: self.after_context,
            last_search: match self.last_search {
                Some(needle) => Some(needle@),
                None => None,
            },
            unsaved_changes: self.unsaved_changes,
            readonly: self.readonly,
            show_chars: self.show_chars,
            show_byte_numbers: self.show_byte_numbers,
            color: self.color,
            filename: self.filename@,
        }
    }
}

impl StateView {
    /// What holds of every state that the editor works on: a line has at
    /// least one byte, the radix is 10 or 16, and the cursor lies on a
    /// byte or just past the last one.
    pub open spec fn wf(self) -> bool {
        &&& self.width > 0
        &&& (self.radix == 10 || self.radix == 16)
        &&& self.cursor <= self.buffer.len()
        &&& self.buffer.len() <= usize::MAX
    }

    /// The index of the last byte, which an empty buffer does not have.
    pub open spec fn max_index(self) -> Option<usize> {
        if self.buffer.len() == 0 {
            None
        } else {
            Some((self.buffer.len() - 1) as usize)
        }
    }

    /// Whether the cursor lies on a byte, or at index zero of a buffer
    /// without bytes.
    pub open spec fn cursor_on_byte(self) -> bool {
        if self.buffer.len() == 0 {
            self.cursor == 0
        } else {
            self.cursor < self.buffer.len()
        }
    }

    /// The same state with the cursor at `cursor`.
    pub open spec fn at(self, cursor: usize) -> StateView {
        StateView { cursor, ..self }
    }

    /// The state after a move to the byte at `index`, which must exist.
    pub open spec fn moved_to(self, index: usize) -> Result<StateView, ErrorView> {
        if self.buffer.len() == 0 {
            Err(ErrorView::EmptyFile)
        } else if index >= self.buffer.len() {
            Err(ErrorView::IndexTooLarge { index, max: (self.buffer.len() - 1) as usize })
        } else {
            Ok(self.at(index))
        }
    }

    /// The state after a step of `count` bytes towards the end, which must
    /// not start at the last byte nor lead past it.
    pub open spec fn stepped_forward(self, count: usize) -> Result<StateView, ErrorView> {
        if self.buffer.len() == 0 {
            Err(ErrorView::EmptyFile)
        } else if self.cursor == self.buffer.len() - 1 {
            Err(ErrorView::AlreadyAtLastByte)
        } else if self.cursor + count > self.buffer.len() - 1 {
            Err(ErrorView::PastLastByte { count })
        } else {
            Ok(self.at((self.cursor + count) as usize))
        }
    }

    /// The state after a step of `count` bytes towards the start, which
    /// must not start at index zero nor lead below it.
    pub open spec fn stepped_backward(self, count: usize) -> Result<StateView, ErrorView> {
        if self.buffer.len() == 0 {
            Err(ErrorView::EmptyFile)
        } else if self.cursor == 0 {
            Err(ErrorView::AlreadyAtFirstByte)
        } else if self.cursor < count {
            Err(ErrorView::BeyondFirstByte { count })
        } else {
            Ok(self.at((self.cursor - count) as usize))
        }
    }

    /// The state after a step of one line towards the end. Where the next
    /// line would begin past the last byte, the step is refused.
    pub open spec fn next_window(self) -> Result<StateView, ErrorView> {
        if self.buffer.len() == 0 {
            Err(ErrorView::EmptyFile)
        } else if self.cursor + self.width > self.buffer.len() - 1 {
            Err(ErrorView::AlreadyShowingLastByte { last: (self.buffer.len() - 1) as usize })
        } else {
            Ok(self.at((self.cursor + self.width) as usize))
        }
    }

    /// The state after a step of one line towards the start, which stops
    /// at index zero.
    pub open spec fn previous_window(self) -> StateView {
        if self.cursor < self.width {
            self.at(0)
        } else {
            self.at((self.cursor - self.width) as usize)
        }
    }

    /// The state with `flag` switched to its other value.
    pub open spec fn toggled(self, flag: Flag) -> StateView {
        match flag {
            Flag::ShowChars => StateView { show_chars: !self.show_chars, ..self },
            Flag::ShowByteNumbers => StateView {
                show_byte_numbers: !self.show_byte_numbers,
                ..self
            },
            Flag::Color => StateView { color: !self.color, ..self },
            Flag::ReadOnly => StateView { readonly: !self.readonly, ..self },
            Flag::Radix => StateView {
                radix: if self.radix == 16 {
                    10
                } else {
                    16
                },
                ..self
            },
        }
    }

    /// Whether `flag` is on; for the radix, whether it is hex.
    pub open spec fn flag(self, flag: Flag) -> bool {
        match flag {
            Flag::ShowChars => self.show_chars,
            Flag::ShowByteNumbers => self.show_byte_numbers,
            Flag::Color => self.color,
            Flag::ReadOnly => self.readonly,
            Flag::Radix => self.radix == 16,
        }
    }

    /// The state with `bytes` inserted before the byte at index `at`, or
    /// after the last byte where `at` is the buffer's length. The cursor
    /// stands on the first inserted byte.
    pub open spec fn inserted(self, at: usize, bytes: Seq<u8>) -> Result<StateView, ErrorView> {
        if at > self.buffer.len() || self.buffer.len() + bytes.len() > usize::MAX {
            Err(ErrorView::BadRange)
        } else {
            Ok(
                StateView {
                    buffer: self.buffer.subrange(0, at as int) + bytes + self.buffer.subrange(
                        at as int,
                        self.buffer.len() as int,
                    ),
                    cursor: at,
                    unsaved_changes: true,
                    ..self
                },
            )
        }
    }

    /// The state with the bytes from index `begin` to index `end` removed,
    /// both included. The cursor stands where the first of them stood.
    pub open spec fn killed(self, begin: usize, end: usize) -> Result<StateView, ErrorView> {
        if self.buffer.len() == 0 {
            Err(ErrorView::EmptyFile)
        } else if begin > end || end >= self.buffer.len() {
            Err(ErrorView::BadRange)
        } else {
            Ok(
                StateView {
                    buffer: self.buffer.subrange(0, begin as int) + self.buffer.subrange(
                        end + 1,
                        self.buffer.len() as int,
                    ),
                    cursor: begin,
                    unsaved_changes: true,
                    ..self
                },
            )
        }
    }
}

/// The state after a call and the error of a call that failed, with bytes
/// and texts as sequences.
pub open spec fn transition<T>(after: EditorState, r: Result<T, EditError>) -> Result<
    StateView,
    ErrorView,
> {
    match r {
        Ok(_) => Ok(after@),
        Err(e) => Err(e@),
    }
}

impl EditorState {
    /// Whether the state is one that the editor works on.
    pub open spec fn wf(&self) -> bool {
        self@.wf()
    }

    /// The state at the start: the cursor on the first byte, hex numbers,
    /// lines of sixteen bytes without context, and every kind of output on.
    /// Without a file to write to, the buffer counts as unsaved.
    pub fn new(buffer: Vec<u8>, filename: String, readonly: bool, color: bool) -> (state: Self)
        ensures
            state.wf(),
            state@.cursor_on_byte(),
            state@ == (StateView {
                cursor: 0,
                radix: 16,
                buffer: buffer@,
                width: 16,
                before_context: 0,
                after_context: 0,
                last_search: None,
                unsaved_changes: filename@.len() == 0,
                readonly,
                show_chars: true,
                show_byte_numbers: true,
                color,
                filename: filename@,
            }),
    {
        let unsaved_changes: bool = filename.as_str().unicode_len() == 0;
        assert(buffer@.len() == buffer.len());
        EditorState {
            cursor: 0,
            radix: 16,
            buffer,
            width: 16,
            before_context: 0,
            after_context: 0,
            last_search: None,
            unsaved_changes,
            readonly,
            show_chars: true,
            show_byte_numbers: true,
            color,
            filename,
        }
    }

    /// Whether the state is one that the editor can work on.
    pub fn is_valid(&self) -> (valid: bool)
        ensures
            valid == self.wf(),
    {
        assert(self.buffer@.len() == self.buffer.len());
        self.width > 0 && (self.radix == 10 || self.radix == 16) && self.cursor
            <= self.buffer.len()
    }

    /// Whether the cursor lies on a byte, or at index zero of a buffer
    /// without bytes.
    pub fn cursor_on_byte(&self) -> (r: bool)
        ensures
            r == self@.cursor_on_byte(),
    {
        if self.buffer.len() == 0 {
            self.cursor == 0
        } else {
            self.cursor < self.buffer.len()
        }
    }

    /// Whether the buffer holds no bytes.
    pub fn empty(&self) -> (r: bool)
        ensures
            r == (self@.buffer.len() == 0),
    {
        self.buffer.len() == 0
    }

    /// The index of the last byte.
    pub fn max_index(&self) -> (r: Result<usize, EditError>)
        ensures
            index_view(r) == (match self@.max_index() {
                Some(max) => Ok::<usize, ErrorView>(max),
                None => Err(ErrorView::NoMaxIndex),
            }),
    {
        if self.buffer.len() == 0 {
            Err(EditError::NoMaxIndex)
        } else {
            Ok(self.buffer.len() - 1)
        }
    }
}

} // verus!
