//! What the editor decides around the work on files. Reading and writing
//! themselves are the caller's: these functions take what was read and say
//! what is to be written.

use vstd::prelude::*;
use crate::chars::chars_of;
use crate::error::{EditError, ErrorView};
use crate::state::{transition, EditorState, StateView};

verus! {

/// Where the buffer is written to.
#[derive(Clone, Copy, Debug, PartialEq, Eq, Structural)]
pub enum WriteTarget {
    /// To the file that the state names.
    Named,
    /// To a file whose name is still to be asked for.
    Unnamed,
}

/// Why the bytes of a file could not be had.
#[derive(Clone, Copy, Debug, PartialEq, Eq, Structural)]
pub enum ReadFailure {
    /// There is no such file.
    Missing,
    /// The path names something that is no regular file.
    NotARegularFile,
    /// The file could not be opened or read.
    Unreadable,
    /// Fewer or more bytes were read than the file was said to hold.
    Incomplete,
}

/// Why the program ends.
#[derive(Clone, Copy, Debug, PartialEq, Eq, Structural)]
pub enum Ending {
    /// The user asked to quit.
    Quit,
    /// The input came to its end.
    EndOfInput,
    /// The next line of input could not be read.
    InputFailed,
    /// The file to edit is no regular file.
    NotARegularFile,
    /// The file to edit could not be read.
    Unreadable,
    /// The file to edit was not read in full.
    Incomplete,
}

/// The exit code for each way to end: zero for a quit and for the end of
/// the input, and a code of its own for each failure.
pub open spec fn exit_code_of(ending: Ending) -> i32 {
    match ending {
        Ending::Quit => 0,
        Ending::EndOfInput => 0,
        Ending::NotARegularFile => 1,
        Ending::InputFailed => 3,
        Ending::Unreadable => 4,
        Ending::Incomplete => 5,
    }
}

/// The bytes to start with, given how reading the file went: a file that
/// does not exist yet gives an empty buffer, and any other failure ends
/// the program.
pub open spec fn initial_buffer(read: Result<Seq<u8>, ReadFailure>) -> Result<Seq<u8>, Ending> {
    match read {
        Ok(bytes) => Ok(bytes),
        Err(ReadFailure::Missing) => Ok(Seq::empty()),
        Err(ReadFailure::NotARegularFile) => Err(Ending::NotARegularFile),
        Err(ReadFailure::Unreadable) => Err(Ending::Unreadable),
        Err(ReadFailure::Incomplete) => Err(Ending::Incomplete),
    }
}

/// The settings that are kept from one session to the next.
#[derive(Clone, Copy, Debug, PartialEq, Eq, Structural)]
pub struct Preferences {
    pub radix: u32,
    pub show_byte_numbers: bool,
    pub show_chars: bool,
    pub color: bool,
    pub width: usize,
    pub before_context: usize,
    pub after_context: usize,
}

impl StateView {
    /// The state with these settings. A radix other than 10 counts as hex.
    pub open spec fn with_preferences(self, prefs: Preferences) -> Result<StateView, ErrorView> {
        if prefs.width == 0 {
            Err(ErrorView::WidthNotPositive)
        } else {
            Ok(
                StateView {
                    radix: if prefs.radix == 10 {
                        10
                    } else {
                        16
                    },
                    show_byte_numbers: prefs.show_byte_numbers,
                    show_chars: prefs.show_chars,
                    color: prefs.color,
                    width: prefs.width,
                    before_context: prefs.before_context,
                    after_context: prefs.after_context,
                    ..self
                },
            )
        }
    }

    /// The settings of the state.
    pub open spec fn preferences(self) -> Preferences {
        Preferences {
            radix: self.radix,
            show_byte_numbers: self.show_byte_numbers,
            show_chars: self.show_chars,
            color: self.color,
            width: self.width,
            before_context: self.before_context,
            after_context: self.after_context,
        }
    }

    /// Whether the buffer may be written out, and where to.
    pub open spec fn write_target(self) -> Result<WriteTarget, ErrorView> {
        if self.readonly {
            Err(ErrorView::ReadOnly)
        } else if self.filename.len() == 0 {
            Ok(WriteTarget::Unnamed)
        } else {
            Ok(WriteTarget::Named)
        }
    }
}

/// What an answer to a yes-or-no question means: `y`, `Y`, `Yes` and `yes`
/// are a yes, `n`, `N`, `No` and `no` are a no, and anything else is no
/// answer.
pub open spec fn yes_or_no(answer: Seq<char>) -> Option<bool> {
    if (answer.len() == 1 && (answer[0] == 'y' || answer[0] == 'Y')) || (answer.len() == 3 && (
    answer[0] == 'y' || answer[0] == 'Y') && answer[1] == 'e' && answer[2] == 's') {
        Some(true)
    } else if (answer.len() == 1 && (answer[0] == 'n' || answer[0] == 'N')) || (answer.len() == 2
        && (answer[0] == 'n' || answer[0] == 'N') && answer[1] == 'o') {
        Some(false)
    } else {
        None
    }
}

/// Reads the answer to the question whether to go on and lose what was
/// not written out.
pub fn carry_on(answer: &str) -> (r: Option<bool>)
    ensures
        r == yes_or_no(answer@),
{
    let text: Vec<char> = chars_of(answer);
    let n: usize = text.len();
    if n == 0 || n > 3 {
        return None;
    }
    let first: char = text[0];
    if first == 'y' || first == 'Y' {
        if n == 1 || (n == 3 && text[1] == 'e' && text[2] == 's') {
            Some(true)
        } else {
            None
        }
    } else if first == 'n' || first == 'N' {
        if n == 1 || (n == 2 && text[1] == 'o') {
            Some(false)
        } else {
            None
        }
    } else {
        None
    }
}

/// The exit code for `ending`.
pub fn exit_code(ending: Ending) -> (code: i32)
    ensures
        code == exit_code_of(ending),
{
    match ending {
        Ending::Quit => 0,
        Ending::EndOfInput => 0,
        Ending::NotARegularFile => 1,
        Ending::InputFailed => 3,
        Ending::Unreadable => 4,
        Ending::Incomplete => 5,
    }
}

/// The bytes to start with, given how reading the file went.
pub fn initial_bytes(read: Result<Vec<u8>, ReadFailure>) -> (r: Result<Vec<u8>, Ending>)
    ensures
        (match r {
            Ok(bytes) => Ok::<Seq<u8>, Ending>(bytes@),
            Err(ending) => Err(ending),
        }) == initial_buffer(
            match read {
                Ok(bytes) => Ok(bytes@),
                Err(failure) => Err(failure),
            },
        ),
{
    match read {
        Ok(bytes) => Ok(bytes),
        Err(ReadFailure::Missing) => Ok(Vec::new()),
        Err(ReadFailure::NotARegularFile) => Err(Ending::NotARegularFile),
        Err(ReadFailure::Unreadable) => Err(Ending::Unreadable),
        Err(ReadFailure::Incomplete) => Err(Ending::Incomplete),
    }
}

/// Names the file that the buffer is written to. Nothing has been written
/// to that file yet, so the buffer counts as unsaved.
pub fn update_filename(state: &mut EditorState, filename: String)
    ensures
        final(state)@ == (StateView {
            filename: filename@,
            unsaved_changes: true,
            ..old(state)@
        }),
        old(state).wf() ==> final(state).wf(),
{
    state.filename = filename;
    state.unsaved_changes = true;
}

impl StateView {
    /// Where the cursor stands once the buffer holds `len` bytes: where it
    /// stood, if there is a byte there; on the last byte, if it stood
    /// further on; and at index zero, if there are no bytes at all.
    pub open spec fn cursor_within(self, len: nat) -> usize {
        if len == 0 {
            0
        } else if self.cursor < len {
            self.cursor
        } else {
            (len - 1) as usize
        }
    }
}

/// Replaces the buffer by `all_bytes`, the bytes of the file `filename`.
/// The cursor stays where it is if the new buffer has a byte there. If
/// not, it moves to the last byte of the new buffer, or to index zero
/// where the new buffer is empty: after a load the cursor never stands
/// past the last byte.
pub fn load_new_file(state: &mut EditorState, filename: String, all_bytes: Vec<u8>)
    ensures
        final(state)@ == (StateView {
            filename: filename@,
            buffer: all_bytes@,
            cursor: old(state)@.cursor_within(all_bytes@.len()),
            ..old(state)@
        }),
        final(state)@.cursor_on_byte(),
        old(state).wf() ==> final(state).wf(),
{
    let len: usize = all_bytes.len();
    if len == 0 {
        state.cursor = 0;
    } else if state.cursor >= len {
        state.cursor = len - 1;
    }
    state.filename = filename;
    state.buffer = all_bytes;
}

/// Takes over the settings `prefs`. A width of zero is refused.
pub fn load_prefs(state: &mut EditorState, prefs: Preferences) -> (r: Result<(), EditError>)
    ensures
        transition(*final(state), r) == old(state)@.with_preferences(prefs),
        r is Err ==> *final(state) == *old(state),
        old(state).wf() ==> final(state).wf(),
{
    if prefs.width == 0 {
        return Err(EditError::WidthNotPositive);
    }
    state.radix = if prefs.radix == 10 {
        10
    } else {
        16
    };
    state.show_byte_numbers = prefs.show_byte_numbers;
    state.show_chars = prefs.show_chars;
    state.color = prefs.color;
    state.width = prefs.width;
    state.before_context = prefs.before_context;
    state.after_context = prefs.after_context;
    Ok(())
}

/// The settings to save.
pub fn save_prefs(state: &EditorState) -> (prefs: Preferences)
    ensures
        prefs == state@.preferences(),
{
    Preferences {
        radix: state.radix,
        show_byte_numbers: state.show_byte_numbers,
        show_chars: state.show_chars,
        color: state.color,
        width: state.width,
        before_context: state.before_context,
        after_context: state.after_context,
    }
}

/// Whether the buffer may be written out, and where to. In read-only mode
/// it may not. The buffer is not touched either way.
pub fn write_out(state: &EditorState) -> (r: Result<WriteTarget, EditError>)
    ensures
        (match r {
            Ok(target) => Ok::<WriteTarget, ErrorView>(target),
            Err(e) => Err(e@),
        }) == state@.write_target(),
{
    if state.readonly {
        Err(EditError::ReadOnly)
    } else if state.filename.as_str().unicode_len() == 0 {
        Ok(WriteTarget::Unnamed)
    } else {
        Ok(WriteTarget::Named)
    }
}

/// Records that the buffer was written out. Where it went to a file that
/// was asked for, `asked` holds that file's name, which the state keeps.
pub fn written(state: &mut EditorState, asked: Option<String>)
    ensures
        final(state)@ == (StateView {
            unsaved_changes: false,
            filename: match asked {
                Some(name) => name@,
                None => old(state)@.filename,
            },
            ..old(state)@
        }),
        old(state).wf() ==> final(state).wf(),
{
    match asked {
        Some(name) => {
            state.filename = name;
        },
        None => {},
    }
    state.unsaved_changes = false;
}

} // verus!
