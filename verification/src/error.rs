//! What can go wrong with a command, and the message shown for it.

use vstd::prelude::*;
use vstd::string::StringExecFns;
use crate::chars::push_char;
use crate::ec;
use crate::hex::{hex_text, index_text};

verus! {

/// Why a line was not understood or a command not carried out. The editor's
/// state is unchanged whenever one of these is returned.
#[derive(Debug, PartialEq, Eq)]
pub enum EditError {
    /// The buffer holds no bytes.
    EmptyFile,
    /// `$` was used while the buffer holds no bytes.
    NoMaxIndex,
    /// `token` is not an unsigned number written in base `radix`.
    NotANumber { token: String, radix: u32 },
    /// A width of zero was asked for.
    WidthNotPositive,
    /// A range was given without a command after it.
    NoArguments,
    /// The line has none of the shapes of the command language.
    Unparseable { line: String },
    /// `text` is not a sequence of pairs of hex digits.
    BadHex { text: String },
    /// A search for no bytes at all.
    EmptyNeedle,
    /// A search was to be repeated before any was made.
    NoPreviousSearch,
    /// The bytes searched for do not occur where the search looked.
    NotFound { needle: Vec<u8> },
    /// A range that is reversed or reaches past the last byte.
    BadRange,
    /// An index past the last byte, whose index is `max`.
    IndexTooLarge { index: usize, max: usize },
    /// The window shown already holds the last byte; `last` is the index of
    /// the last byte that the next window would have shown.
    AlreadyShowingLastByte { last: usize },
    /// A step back was asked for at index zero.
    AlreadyAtFirstByte,
    /// A step forward was asked for at the last byte.
    AlreadyAtLastByte,
    /// A step back of `count` bytes from the cursor would pass index zero.
    BeyondFirstByte { count: usize },
    /// A step forward of `count` bytes from the cursor would pass the last
    /// byte, or any index at all.
    PastLastByte { count: usize },
    /// The letter names no command.
    UnknownCommand { letter: char },
    /// The buffer may not be written while the editor is read-only.
    ReadOnly,
}

/// An `EditError` with its texts and bytes as sequences.
pub enum ErrorView {
    EmptyFile,
    NoMaxIndex,
    NotANumber { token: Seq<char>, radix: u32 },
    WidthNotPositive,
    NoArguments,
    Unparseable { line: Seq<char> },
    BadHex { text: Seq<char> },
    EmptyNeedle,
    NoPreviousSearch,
    NotFound { needle: Seq<u8> },
    BadRange,
    IndexTooLarge { index: usize, max: usize },
    AlreadyShowingLastByte { last: usize },
    AlreadyAtFirstByte,
    AlreadyAtLastByte,
    BeyondFirstByte { count: usize },
    PastLastByte { count: usize },
    UnknownCommand { letter: char },
    ReadOnly,
}

impl View for EditError {
    type V = ErrorView;

    open spec fn view(&self) -> ErrorView {
        match *self {
            EditError::EmptyFile => ErrorView::EmptyFile,
            EditError::NoMaxIndex => ErrorView::NoMaxIndex,
            EditError::NotANumber { token, radix } => ErrorView::NotANumber { token: token@, radix },
            EditError::WidthNotPositive => ErrorView::WidthNotPositive,
            EditError::NoArguments => ErrorView::NoArguments,
            EditError::Unparseable { line } => ErrorView::Unparseable { line: line@ },
            EditError::BadHex { text } => ErrorView::BadHex { text: text@ },
            EditError::EmptyNeedle => ErrorView::EmptyNeedle,
            EditError::NoPreviousSearch => ErrorView::NoPreviousSearch,
            EditError::NotFound { needle } => ErrorView::NotFound { needle: needle@ },
            EditError::BadRange => ErrorView::BadRange,
            EditError::IndexTooLarge { index, max } => ErrorView::IndexTooLarge { index, max },
            EditError::AlreadyShowingLastByte { last } => ErrorView::AlreadyShowingLastByte { last },
            EditError::AlreadyAtFirstByte => ErrorView::AlreadyAtFirstByte,
            EditError::AlreadyAtLastByte => ErrorView::AlreadyAtLastByte,
            EditError::BeyondFirstByte { count } => ErrorView::BeyondFirstByte { count },
            EditError::PastLastByte { count } => ErrorView::PastLastByte { count },
            EditError::UnknownCommand { letter } => ErrorView::UnknownCommand { letter },
            EditError::ReadOnly => ErrorView::ReadOnly,
        }
    }
}

/// How an index is shown where its radix matters: `0d` and the decimal
/// digits where `radix` is 10, `0x` and the hex digits otherwise.
pub open spec fn prefixed_text(number: usize, radix: u32) -> Seq<char> {
    if radix == 10 {
        "0d"@ + index_text(number, radix)
    } else {
        "0x"@ + index_text(number, radix)
    }
}

impl ErrorView {
    /// Whether the error says that there are no bytes to work on.
    pub open spec fn is_empty_file(self) -> bool {
        self is EmptyFile || self is NoMaxIndex
    }

    /// The message for the error, with indices written in `radix`.
    pub open spec fn text(self, radix: u32) -> Seq<char> {
        match self {
            ErrorView::EmptyFile => "Empty file"@,
            ErrorView::NoMaxIndex => "No bytes, so no max index."@,
            ErrorView::NotANumber { token, radix: base } => token + " isn't a number in base "@
                + index_text(base as usize, 10),
            ErrorView::WidthNotPositive => "Width must be positive"@,
            ErrorView::NoArguments => "No arguments given"@,
            ErrorView::Unparseable { line } => "Unable to parse '"@ + line + "'"@,
            ErrorView::BadHex { text } => "Couldn't interpret '"@ + text
                + "' as a sequence of bytes"@,
            ErrorView::EmptyNeedle => "Searching for empty string"@,
            ErrorView::NoPreviousSearch => "No previous search."@,
            ErrorView::NotFound { needle } => hex_text(needle) + " not found"@,
            ErrorView::BadRange => "bad range"@,
            ErrorView::IndexTooLarge { index, max } => prefixed_text(index, radix) + " > "@
                + prefixed_text(max, radix) + " = maximum index"@,
            ErrorView::AlreadyShowingLastByte { last } => "already showing last byte at index "@
                + index_text(last, radix),
            ErrorView::AlreadyAtFirstByte => "already at 0th byte"@,
            ErrorView::AlreadyAtLastByte => "already at last byte"@,
            ErrorView::BeyondFirstByte { count } => "Going back "@ + index_text(count, 10)
                + " bytes would take you beyond the 0th byte"@,
            ErrorView::PastLastByte { count } => "Moving "@ + index_text(count, 10)
                + " bytes would put you past last byte"@,
            ErrorView::UnknownCommand { letter } => "Don't understand command '"@.push(letter)
                + "'"@,
            ErrorView::ReadOnly => "Read-only mode"@,
        }
    }
}

fn prefixed(number: usize, radix: u32) -> (r: String)
    ensures
        r@ == prefixed_text(number, radix),
{
    let mut out: String = if radix == 10 {
        "0d".to_owned()
    } else {
        "0x".to_owned()
    };
    out.append(ec::hex_unless_dec(number, radix).as_str());
    out
}

impl EditError {
    /// The message for the error, with indices written in `radix`: in
    /// decimal where `radix` is 10, in hex otherwise.
    pub fn message(&self, radix: u32) -> (r: String)
        ensures
            r@ == self@.text(radix),
    {
        match self {
            EditError::EmptyFile => "Empty file".to_owned(),
            EditError::NoMaxIndex => "No bytes, so no max index.".to_owned(),
            EditError::NotANumber { token, radix: base } => {
                let mut out: String = token.clone();
                out.append(" isn't a number in base ");
                out.append(ec::hex_unless_dec(*base as usize, 10).as_str());
                out
            },
            EditError::WidthNotPositive => "Width must be positive".to_owned(),
            EditError::NoArguments => "No arguments given".to_owned(),
            EditError::Unparseable { line } => {
                let mut out: String = "Unable to parse '".to_owned();
                out.append(line.as_str());
                out.append("'");
                out
            },
            EditError::BadHex { text } => {
                let mut out: String = "Couldn't interpret '".to_owned();
                out.append(text.as_str());
                out.append("' as a sequence of bytes");
                out
            },
            EditError::EmptyNeedle => "Searching for empty string".to_owned(),
            EditError::NoPreviousSearch => "No previous search.".to_owned(),
            EditError::NotFound { needle } => {
                let mut out: String = ec::string_from_bytes(needle);
                out.append(" not found");
                out
            },
            EditError::BadRange => "bad range".to_owned(),
            EditError::IndexTooLarge { index, max } => {
                let mut out: String = prefixed(*index, radix);
                out.append(" > ");
                out.append(prefixed(*max, radix).as_str());
                out.append(" = maximum index");
                out
            },
            EditError::AlreadyShowingLastByte { last } => {
                let mut out: String = "already showing last byte at index ".to_owned();
                out.append(ec::hex_unless_dec(*last, radix).as_str());
                out
            },
            EditError::AlreadyAtFirstByte => "already at 0th byte".to_owned(),
            EditError::AlreadyAtLastByte => "already at last byte".to_owned(),
            EditError::BeyondFirstByte { count } => {
                let mut out: String = "Going back ".to_owned();
                out.append(ec::hex_unless_dec(*count, 10).as_str());
                out.append(" bytes would take you beyond the 0th byte");
                out
            },
            EditError::PastLastByte { count } => {
                let mut out: String = "Moving ".to_owned();
                out.append(ec::hex_unless_dec(*count, 10).as_str());
                out.append(" bytes would put you past last byte");
                out
            },
            EditError::UnknownCommand { letter } => {
                let mut out: String = "Don't understand command '".to_owned();
                push_char(&mut out, *letter);
                out.append("'");
                out
            },
            EditError::ReadOnly => "Read-only mode".to_owned(),
        }
    }
}

} // verus!
