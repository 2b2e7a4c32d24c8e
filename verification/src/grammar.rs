//! The command language: which command a line of input stands for.
//!
//! A line is trimmed of the whitespace around it and then held against the
//! shapes below, in this order. The first shape that fits decides.
//!
//! 1. Nothing at all: one window on.
//! 2. Only `+`, or only `-`: as many bytes on, or back, as the line has
//!    graphemes.
//! 3. `/` or `?`: a search. `/hex/k` and `/hex/i` search and then kill or
//!    insert, `/hex` and `?hex` search onwards or backwards, and `/` or `?`
//!    alone repeats the last search.
//! 4. A command letter. What follows it is ignored.
//! 5. `W`, `T` or `t` and a number: the width, the lines of context before
//!    and the lines of context after.
//! 6. Two numerals with a comma between them, and a command letter: the
//!    command for that range.
//! 7. One numeral, alone or with a command letter.
//! 8. `+` or `-` and a number: an offset from the cursor, alone or with a
//!    command letter.
//!
//! A numeral is `.`, `$` or a number in the radix in use. After a numeral
//! `p` shows one window at that index, while `p` alone shows the window at
//! the cursor and `p` after a range shows the range.

use vstd::prelude::*;
use crate::chars::{chars_of, run_end, scan, string_of, trim, trim_chars, CharClass};
use crate::chars::lemma_run_end;
use crate::command::{Command, CommandView, Flag};
use crate::ec;
use crate::ec::grapheme_count;
use crate::error::{EditError, ErrorView};
use crate::hex::{decoded, encode};
use crate::numeral::{numeral, numeral_at, parse, parse_number};
use crate::state::{EditorState, StateView};

verus! {

/// What stands before a command letter.
#[derive(Clone, Copy, Debug, PartialEq, Eq, Structural)]
pub enum Address {
    /// Nothing: the command is for the cursor.
    Bare,
    /// One index.
    Index,
    /// A first and a last index.
    Range,
}

/// A line as it was understood: the command, and the words that followed
/// the command letter.
#[derive(Debug, PartialEq, Eq)]
pub struct Parsed {
    pub command: Command,
    pub args: Vec<String>,
}

/// A `Parsed` with its texts and bytes as sequences.
pub struct ParsedView {
    pub command: CommandView,
    pub args: Seq<Seq<char>>,
}

impl View for Parsed {
    type V = ParsedView;

    open spec fn view(&self) -> ParsedView {
        ParsedView { command: self.command@, args: self.args.deep_view() }
    }
}

/// A parsed line or the error in its place, with texts and bytes as
/// sequences.
pub open spec fn parsed_view(r: Result<Parsed, EditError>) -> Result<ParsedView, ErrorView> {
    match r {
        Ok(parsed) => Ok(parsed@),
        Err(e) => Err(e@),
    }
}

/// The letters that are commands by themselves.
pub open spec fn is_command_letter(c: char) -> bool {
    c == 'h' || c == 'i' || c == 'j' || c == 'k' || c == 'm' || c == 'n' || c == 'o' || c == 'p'
        || c == 'q' || c == 'R' || c == 'r' || c == 's' || c == 'S' || c == 'l' || c == 'L' || c
        == 'P' || c == 'u' || c == 'w' || c == 'x'
}

/// The command that `letter` stands for after the address `begin` to
/// `end`. Only `p`, `i` and `k` take the address; any other command letter
/// means what it means alone; a letter that is no command is handed on as
/// it is.
pub open spec fn letter_command(letter: char, begin: usize, end: usize, address: Address)
    -> CommandView {
    if letter == 'p' {
        match address {
            Address::Bare => CommandView::PrintWindow,
            Address::Index => CommandView::PrintWindowAt(begin),
            Address::Range => CommandView::PrintRange(begin, end),
        }
    } else if letter == 'k' {
        CommandView::Kill(begin, end)
    } else if letter == 'i' {
        CommandView::Insert(end)
    } else if letter == 'h' {
        CommandView::Help
    } else if letter == 'j' {
        CommandView::PreviousWindow
    } else if letter == 'm' {
        CommandView::ToggleFlag(Flag::ShowChars)
    } else if letter == 'n' {
        CommandView::ToggleFlag(Flag::ShowByteNumbers)
    } else if letter == 'o' {
        CommandView::ToggleFlag(Flag::Color)
    } else if letter == 'q' {
        CommandView::Quit
    } else if letter == 'R' {
        CommandView::ToggleFlag(Flag::ReadOnly)
    } else if letter == 'r' {
        CommandView::LoadPreferences
    } else if letter == 's' {
        CommandView::ShowState
    } else if letter == 'S' {
        CommandView::SaveState
    } else if letter == 'l' {
        CommandView::LoadFile
    } else if letter == 'L' {
        CommandView::LoadState
    } else if letter == 'P' {
        CommandView::SavePreferences
    } else if letter == 'u' {
        CommandView::UpdateFilename
    } else if letter == 'w' {
        CommandView::Write
    } else if letter == 'x' {
        CommandView::ToggleFlag(Flag::Radix)
    } else {
        CommandView::Unknown(letter)
    }
}

/// The words of `s` from index `from` on: the runs of characters that are
/// no whitespace, in order.
pub open spec fn words_from(s: Seq<char>, from: int) -> Seq<Seq<char>>
    decreases s.len() - from,
{
    let start = run_end(s, from, CharClass::Whitespace);
    let stop = run_end(s, start, CharClass::Word);
    if from < 0 || start < from || start >= s.len() || stop <= start || stop > s.len() {
        Seq::empty()
    } else {
        seq![s.subrange(start, stop)] + words_from(s, stop)
    }
}

/// A command without words after it.
pub open spec fn alone(command: CommandView) -> ParsedView {
    ParsedView { command, args: Seq::empty() }
}

/// What follows an address that ended before index `from`: nothing, which
/// moves to the index and is an error after a range, or a command letter
/// and its words.
pub open spec fn after_address(
    t: Seq<char>,
    from: int,
    begin: usize,
    end: usize,
    address: Address,
) -> Result<ParsedView, ErrorView> {
    let at = run_end(t, from, CharClass::Whitespace);
    if at >= t.len() {
        if address is Range {
            Err(ErrorView::NoArguments)
        } else {
            Ok(alone(CommandView::MoveTo(begin)))
        }
    } else {
        Ok(
            ParsedView {
                command: letter_command(t[at], begin, end, address),
                args: words_from(t, at + 1),
            },
        )
    }
}

/// Whether `t` is a run of `class` characters and nothing else.
pub open spec fn is_run(t: Seq<char>, class: CharClass) -> bool {
    t.len() > 0 && run_end(t, 0, class) == t.len()
}

/// A line that begins with `/` or `?`: `/hex/k` or `/hex/i`, with nothing
/// between the parts, searches and then kills or inserts; `/hex` or `?hex`
/// only searches; `/` or `?` alone repeats the last search.
pub open spec fn search_form(t: Seq<char>) -> Result<ParsedView, ErrorView> {
    let forward = t[0] == '/';
    let a = run_end(t, 1, CharClass::Space);
    let b = run_end(t, a, CharClass::HexDigit);
    if forward && a == 1 && a < b && b + 2 == t.len() && t[b] == '/' && (t[b + 1] == 'k' || t[b
        + 1] == 'i') {
        match decoded(t.subrange(a, b)) {
            Err(e) => Err(e),
            Ok(needle) => if needle.len() == 0 {
                Err(ErrorView::EmptyNeedle)
            } else if t[b + 1] == 'k' {
                Ok(alone(CommandView::SearchThenKill(needle)))
            } else {
                Ok(alone(CommandView::SearchThenInsert(needle)))
            },
        }
    } else if a < b && b == t.len() {
        match decoded(t.subrange(a, b)) {
            Err(e) => Err(e),
            Ok(needle) => Ok(
                alone(
                    if forward {
                        CommandView::SearchForward(needle)
                    } else {
                        CommandView::SearchBackward(needle)
                    },
                ),
            ),
        }
    } else if a >= t.len() {
        Ok(alone(CommandView::RepeatSearch(forward)))
    } else {
        Err(ErrorView::Unparseable { line: t })
    }
}

/// A line that begins with `W`, `T` or `t`.
pub open spec fn setting_form(t: Seq<char>, radix: u32) -> Result<ParsedView, ErrorView> {
    let a = run_end(t, 1, CharClass::Space);
    let b = run_end(t, a, CharClass::HexDigit);
    if a < b && b == t.len() {
        match parse(t.subrange(a, b), radix) {
            None => Err(ErrorView::NotANumber { token: t.subrange(a, b), radix }),
            Some(value) => if t[0] == 'W' {
                if value == 0 {
                    Err(ErrorView::WidthNotPositive)
                } else {
                    Ok(alone(CommandView::SetWidth(value)))
                }
            } else if t[0] == 'T' {
                Ok(alone(CommandView::SetBeforeContext(value)))
            } else {
                Ok(alone(CommandView::SetAfterContext(value)))
            },
        }
    } else {
        Err(ErrorView::Unparseable { line: t })
    }
}

/// A line that begins with a numeral: a range, if a comma and a second
/// numeral follow the first, and a single index if not. Neither means
/// anything while the buffer is empty.
pub open spec fn address_form(t: Seq<char>, s: StateView) -> Result<ParsedView, ErrorView> {
    let a = run_end(t, 0, CharClass::Numeral);
    let b = run_end(t, a, CharClass::Space);
    let c = run_end(t, b + 1, CharClass::Space);
    let d = run_end(t, c, CharClass::Numeral);
    if s.buffer.len() == 0 {
        Err(ErrorView::EmptyFile)
    } else {
        match numeral(t.subrange(0, a), s.cursor, s.max_index(), s.radix) {
            Err(e) => Err(e),
            Ok(begin) => if b < t.len() && t[b] == ',' && c < d {
                match numeral(t.subrange(c, d), s.cursor, s.max_index(), s.radix) {
                    Err(e) => Err(e),
                    Ok(end) => after_address(t, d, begin, end, Address::Range),
                }
            } else {
                after_address(t, a, begin, begin, Address::Index)
            },
        }
    }
}

/// A line that begins with a sign and is not a run of signs: the sign and
/// a number, which is an offset from the cursor. It means nothing while the
/// buffer is empty. An offset that would lead below zero, or beyond what an
/// index can hold, is an error.
pub open spec fn offset_form(t: Seq<char>, s: StateView) -> Result<ParsedView, ErrorView> {
    let stop = run_end(t, 1, CharClass::HexDigit);
    if stop <= 1 {
        Err(ErrorView::Unparseable { line: t })
    } else if s.buffer.len() == 0 {
        Err(ErrorView::EmptyFile)
    } else {
        match parse(t.subrange(1, stop), s.radix) {
            None => Err(ErrorView::NotANumber { token: t.subrange(1, stop), radix: s.radix }),
            Some(offset) => if t[0] == '+' {
                if s.cursor + offset > usize::MAX {
                    Err(ErrorView::PastLastByte { count: offset })
                } else {
                    let target = (s.cursor + offset) as usize;
                    after_address(t, stop, target, target, Address::Index)
                }
            } else {
                if offset > s.cursor {
                    Err(ErrorView::BeyondFirstByte { count: offset })
                } else {
                    let target = (s.cursor - offset) as usize;
                    after_address(t, stop, target, target, Address::Index)
                }
            },
        }
    }
}

/// The command that the trimmed line `t` stands for, before its indices
/// are held against the buffer.
pub open spec fn recognized(t: Seq<char>, s: StateView) -> Result<ParsedView, ErrorView> {
    if t.len() == 0 {
        Ok(alone(CommandView::NextWindow))
    } else if is_run(t, CharClass::Plus) {
        Ok(alone(CommandView::StepForward(grapheme_count(t) as usize)))
    } else if is_run(t, CharClass::Minus) {
        Ok(alone(CommandView::StepBackward(grapheme_count(t) as usize)))
    } else if t[0] == '/' || t[0] == '?' {
        search_form(t)
    } else if is_command_letter(t[0]) {
        Ok(alone(letter_command(t[0], s.cursor, s.cursor, Address::Bare)))
    } else if t[0] == 'W' || t[0] == 'T' || t[0] == 't' {
        setting_form(t, s.radix)
    } else if CharClass::Numeral.has(t[0]) {
        address_form(t, s)
    } else if t[0] == '+' || t[0] == '-' {
        offset_form(t, s)
    } else {
        Err(ErrorView::Unparseable { line: t })
    }
}

/// The command that `line` stands for in state `s`, or why it stands for
/// none. A command whose indices the buffer cannot serve is refused here.
pub open spec fn understood(line: Seq<char>, s: StateView) -> Result<ParsedView, ErrorView> {
    match recognized(trim(line), s) {
        Err(e) => Err(e),
        Ok(parsed) => match parsed.command.refusal(s.buffer.len()) {
            Some(e) => Err(e),
            None => Ok(parsed),
        },
    }
}

/// The words of `text` from index `from` on.
pub fn words(text: &Vec<char>, from: usize) -> (r: Vec<String>)
    requires
        from <= text.len(),
    ensures
        r.deep_view() == words_from(text@, from as int),
{
    let mut out: Vec<String> = Vec::new();
    let mut i: usize = from;
    assert(out.deep_view() =~= Seq::<Seq<char>>::empty());
    loop
        invariant
            from <= i <= text.len(),
            words_from(text@, from as int) == out.deep_view() + words_from(text@, i as int),
        ensures
            out.deep_view() == words_from(text@, from as int),
        decreases text.len() - i,
    {
        let start: usize = scan(text, i, CharClass::Whitespace);
        if start >= text.len() {
            assert(out.deep_view() + Seq::<Seq<char>>::empty() =~= out.deep_view());
            break ;
        }
        let stop: usize = scan(text, start, CharClass::Word);
        proof {
            lemma_run_end(text@, start + 1, CharClass::Word);
        }
        let word: String = string_of(text, start, stop);
        let ghost before = out.deep_view();
        out.push(word);
        proof {
            assert(out.deep_view() =~= before.push(word@));
            assert(before + (seq![word@] + words_from(text@, stop as int)) =~= before.push(word@)
                + words_from(text@, stop as int));
        }
        i = stop;
    }
    out
}

/// The command that `letter` stands for after the address `begin` to
/// `end`.
pub fn command_for(letter: char, begin: usize, end: usize, address: Address) -> (r: Command)
    ensures
        r@ == letter_command(letter, begin, end, address),
{
    if letter == 'p' {
        match address {
            Address::Bare => Command::PrintWindow,
            Address::Index => Command::PrintWindowAt(begin),
            Address::Range => Command::PrintRange(begin, end),
        }
    } else if letter == 'k' {
        Command::Kill(begin, end)
    } else if letter == 'i' {
        Command::Insert(end)
    } else if letter == 'h' {
        Command::Help
    } else if letter == 'j' {
        Command::PreviousWindow
    } else if letter == 'm' {
        Command::ToggleFlag(Flag::ShowChars)
    } else if letter == 'n' {
        Command::ToggleFlag(Flag::ShowByteNumbers)
    } else if letter == 'o' {
        Command::ToggleFlag(Flag::Color)
    } else if letter == 'q' {
        Command::Quit
    } else if letter == 'R' {
        Command::ToggleFlag(Flag::ReadOnly)
    } else if letter == 'r' {
        Command::LoadPreferences
    } else if letter == 's' {
        Command::ShowState
    } else if letter == 'S' {
        Command::SaveState
    } else if letter == 'l' {
        Command::LoadFile
    } else if letter == 'L' {
        Command::LoadState
    } else if letter == 'P' {
        Command::SavePreferences
    } else if letter == 'u' {
        Command::UpdateFilename
    } else if letter == 'w' {
        Command::Write
    } else if letter == 'x' {
        Command::ToggleFlag(Flag::Radix)
    } else {
        Command::Unknown(letter)
    }
}

fn is_letter(c: char) -> (r: bool)
    ensures
        r == is_command_letter(c),
{
    c == 'h' || c == 'i' || c == 'j' || c == 'k' || c == 'm' || c == 'n' || c == 'o' || c == 'p'
        || c == 'q' || c == 'R' || c == 'r' || c == 's' || c == 'S' || c == 'l' || c == 'L' || c
        == 'P' || c == 'u' || c == 'w' || c == 'x'
}

fn just(command: Command) -> (r: Parsed)
    ensures
        r@ == alone(command@),
{
    let r = Parsed { command, args: Vec::new() };
    assert(r.args.deep_view() =~= Seq::<Seq<char>>::empty());
    r
}

fn unparseable(t: &Vec<char>) -> (e: EditError)
    ensures
        e@ == (ErrorView::Unparseable { line: t@ }),
{
    assert(t@.subrange(0, t.len() as int) =~= t@);
    EditError::Unparseable { line: string_of(t, 0, t.len()) }
}

fn read_after_address(t: &Vec<char>, from: usize, begin: usize, end: usize, address: Address)
    -> (r: Result<Parsed, EditError>)
    requires
        from <= t.len(),
    ensures
        parsed_view(r) == after_address(t@, from as int, begin, end, address),
{
    let at: usize = scan(t, from, CharClass::Whitespace);
    if at >= t.len() {
        match address {
            Address::Range => Err(EditError::NoArguments),
            _ => Ok(just(Command::MoveTo(begin))),
        }
    } else {
        Ok(Parsed { command: command_for(t[at], begin, end, address), args: words(t, at + 1) })
    }
}

fn read_search(t: &Vec<char>) -> (r: Result<Parsed, EditError>)
    requires
        t.len() > 0,
    ensures
        parsed_view(r) == search_form(t@),
{
    let forward: bool = t[0] == '/';
    let a: usize = scan(t, 1, CharClass::Space);
    let b: usize = scan(t, a, CharClass::HexDigit);
    if forward && a == 1 && a < b && t.len() - b == 2 && t[b] == '/' && (t[b + 1] == 'k' || t[b
        + 1] == 'i') {
        let text: String = string_of(t, a, b);
        match encode(text.as_str()) {
            Err(e) => Err(e),
            Ok(needle) => if needle.len() == 0 {
                Err(EditError::EmptyNeedle)
            } else if t[b + 1] == 'k' {
                Ok(just(Command::SearchThenKill(needle)))
            } else {
                Ok(just(Command::SearchThenInsert(needle)))
            },
        }
    } else if a < b && b == t.len() {
        let text: String = string_of(t, a, b);
        match encode(text.as_str()) {
            Err(e) => Err(e),
            Ok(needle) => Ok(
                just(
                    if forward {
                        Command::SearchForward(needle)
                    } else {
                        Command::SearchBackward(needle)
                    },
                ),
            ),
        }
    } else if a >= t.len() {
        Ok(just(Command::RepeatSearch(forward)))
    } else {
        Err(unparseable(t))
    }
}

fn read_setting(t: &Vec<char>, radix: u32) -> (r: Result<Parsed, EditError>)
    requires
        t.len() > 0,
        2 <= radix <= 36,
    ensures
        parsed_view(r) == setting_form(t@, radix),
{
    let a: usize = scan(t, 1, CharClass::Space);
    let b: usize = scan(t, a, CharClass::HexDigit);
    if a < b && b == t.len() {
        match parse_number(t, a, b, radix) {
            None => Err(EditError::NotANumber { token: string_of(t, a, b), radix }),
            Some(value) => if t[0] == 'W' {
                if value == 0 {
                    Err(EditError::WidthNotPositive)
                } else {
                    Ok(just(Command::SetWidth(value)))
                }
            } else if t[0] == 'T' {
                Ok(just(Command::SetBeforeContext(value)))
            } else {
                Ok(just(Command::SetAfterContext(value)))
            },
        }
    } else {
        Err(unparseable(t))
    }
}

fn read_address(t: &Vec<char>, state: &EditorState) -> (r: Result<Parsed, EditError>)
    requires
        t.len() > 0,
        state.wf(),
    ensures
        parsed_view(r) == address_form(t@, state@),
{
    let a: usize = scan(t, 0, CharClass::Numeral);
    let b: usize = scan(t, a, CharClass::Space);
    if state.buffer.len() == 0 {
        return Err(EditError::EmptyFile);
    }
    let max_index: Option<usize> = Some(state.buffer.len() - 1);
    match numeral_at(t, 0, a, state.cursor, max_index, state.radix) {
        Err(e) => Err(e),
        Ok(begin) => {
            if b < t.len() && t[b] == ',' {
                let c: usize = scan(t, b + 1, CharClass::Space);
                let d: usize = scan(t, c, CharClass::Numeral);
                if c < d {
                    return match numeral_at(t, c, d, state.cursor, max_index, state.radix) {
                        Err(e) => Err(e),
                        Ok(end) => read_after_address(t, d, begin, end, Address::Range),
                    };
                }
            }
            read_after_address(t, a, begin, begin, Address::Index)
        },
    }
}

fn read_offset(t: &Vec<char>, state: &EditorState) -> (r: Result<Parsed, EditError>)
    requires
        t.len() > 0,
        state.wf(),
    ensures
        parsed_view(r) == offset_form(t@, state@),
{
    let stop: usize = scan(t, 1, CharClass::HexDigit);
    if stop <= 1 {
        return Err(unparseable(t));
    }
    if state.buffer.len() == 0 {
        return Err(EditError::EmptyFile);
    }
    match parse_number(t, 1, stop, state.radix) {
        None => Err(EditError::NotANumber { token: string_of(t, 1, stop), radix: state.radix }),
        Some(offset) => if t[0] == '+' {
            match state.cursor.checked_add(offset) {
                None => Err(EditError::PastLastByte { count: offset }),
                Some(target) => read_after_address(t, stop, target, target, Address::Index),
            }
        } else {
            if offset > state.cursor {
                Err(EditError::BeyondFirstByte { count: offset })
            } else {
                let target: usize = state.cursor - offset;
                read_after_address(t, stop, target, target, Address::Index)
            }
        },
    }
}

fn read_trimmed(t: &Vec<char>, state: &EditorState) -> (r: Result<Parsed, EditError>)
    requires
        state.wf(),
    ensures
        parsed_view(r) == recognized(t@, state@),
{
    if t.len() == 0 {
        return Ok(just(Command::NextWindow));
    }
    let first: char = t[0];
    if scan(t, 0, CharClass::Plus) == t.len() {
        assert(t@.subrange(0, t.len() as int) =~= t@);
        let run: String = string_of(t, 0, t.len());
        Ok(just(Command::StepForward(ec::num_graphemes(run.as_str()))))
    } else if scan(t, 0, CharClass::Minus) == t.len() {
        assert(t@.subrange(0, t.len() as int) =~= t@);
        let run: String = string_of(t, 0, t.len());
        Ok(just(Command::StepBackward(ec::num_graphemes(run.as_str()))))
    } else if first == '/' || first == '?' {
        read_search(t)
    } else if is_letter(first) {
        Ok(just(command_for(first, state.cursor, state.cursor, Address::Bare)))
    } else if first == 'W' || first == 'T' || first == 't' {
        read_setting(t, state.radix)
    } else if CharClass::Numeral.contains(first) {
        read_address(t, state)
    } else if first == '+' || first == '-' {
        read_offset(t, state)
    } else {
        Err(unparseable(t))
    }
}

impl Command {
    /// Reads one line of input as a command for the editor in `state`.
    ///
    /// The state is only read. A command that names bytes is returned only
    /// if the buffer holds them, so a range that comes back is never
    /// reversed and never reaches past the last byte.
    pub fn from_state_and_line(state: &EditorState, line: &str) -> (r: Result<Parsed, EditError>)
        requires
            state.wf(),
        ensures
            parsed_view(r) == understood(line@, state@),
            r matches Ok(parsed) ==> !parsed.command@.has_bad_range(state@.buffer.len()),
    {
        let text: Vec<char> = chars_of(line);
        let t: Vec<char> = trim_chars(&text);
        match read_trimmed(&t, state) {
            Err(e) => Err(e),
            Ok(parsed) => match parsed.command.validate(&state.buffer) {
                Err(e) => Err(e),
                Ok(_) => Ok(parsed),
            },
        }
    }
}

/// A command that is understood names no bytes that the buffer does not
/// hold: its range is not reversed and does not reach past the last byte,
/// and where it inserts there is a place to insert at.
pub proof fn lemma_understood_fits(line: Seq<char>, s: StateView)
    ensures
        understood(line, s) matches Ok(parsed) ==> parsed.command.refusal(s.buffer.len()) is None
            && !parsed.command.has_bad_range(s.buffer.len()),
{
}

/// While the buffer is empty, a line that begins with a numeral, or with
/// a sign and a digit, is an error that says so, whatever follows: neither
/// an index nor a range nor an offset is read against a buffer without
/// bytes.
pub proof fn lemma_empty_buffer_has_no_address(line: Seq<char>, s: StateView)
    requires
        s.buffer.len() == 0,
        trim(line).len() > 0,
        CharClass::Numeral.has(trim(line)[0]) || (trim(line).len() > 1 && (trim(line)[0] == '+'
            || trim(line)[0] == '-') && CharClass::HexDigit.has(trim(line)[1])),
    ensures
        understood(line, s) == Err::<ParsedView, ErrorView>(ErrorView::EmptyFile),
{
    let t = trim(line);
    if !CharClass::Numeral.has(t[0]) {
        lemma_run_end(t, 2, CharClass::HexDigit);
        lemma_run_end(t, 0, CharClass::Plus);
        lemma_run_end(t, 0, CharClass::Minus);
    }
}

/// While the buffer is empty, no line is understood as a command that
/// names bytes.
pub proof fn lemma_empty_buffer_names_no_bytes(line: Seq<char>, s: StateView)
    requires
        s.buffer.len() == 0,
    ensures
        understood(line, s) matches Ok(parsed) ==> parsed.command.range() is None,
{
}

} // verus!
