use edhex::command::{Command, Flag};
use edhex::error::EditError;
use edhex::grammar::Parsed;
use edhex::state::EditorState;

fn editor(len: usize, cursor: usize) -> EditorState {
    let mut state = EditorState::new(vec![0u8; len], String::from("scratch"), false, false);
    state.cursor = cursor;
    state
}

fn read(state: &EditorState, line: &str) -> Result<Command, EditError> {
    Command::from_state_and_line(state, line).map(|parsed| parsed.command)
}

fn text(s: &str) -> String {
    String::from(s)
}

#[test]
fn blank_line_moves_one_window_on() {
    let state = editor(8, 0);
    assert_eq!(read(&state, ""), Ok(Command::NextWindow));
    assert_eq!(read(&state, "    "), Ok(Command::NextWindow));
    assert_eq!(read(&state, "\t \n"), Ok(Command::NextWindow));
}

#[test]
fn run_of_pluses_steps_forward_by_its_length() {
    let state = editor(8, 0);
    assert_eq!(read(&state, "+"), Ok(Command::StepForward(1)));
    assert_eq!(read(&state, "+++"), Ok(Command::StepForward(3)));
    assert_eq!(read(&state, "  +++++  "), Ok(Command::StepForward(5)));
}

#[test]
fn run_of_minuses_steps_backward_by_its_length() {
    let state = editor(8, 4);
    assert_eq!(read(&state, "-"), Ok(Command::StepBackward(1)));
    assert_eq!(read(&state, "--"), Ok(Command::StepBackward(2)));
}

#[test]
fn mixed_signs_are_not_a_command() {
    let state = editor(8, 4);
    assert_eq!(read(&state, "+-"), Err(EditError::Unparseable { line: text("+-") }));
    assert_eq!(read(&state, "++5"), Err(EditError::Unparseable { line: text("++5") }));
    assert_eq!(read(&state, "+ 5"), Err(EditError::Unparseable { line: text("+ 5") }));
}

#[test]
fn slash_and_hex_search_forward() {
    let state = editor(8, 0);
    assert_eq!(
        read(&state, "/deadbeef"),
        Ok(Command::SearchForward(vec![0xde, 0xad, 0xbe, 0xef]))
    );
    assert_eq!(read(&state, "/ DEAD"), Ok(Command::SearchForward(vec![0xde, 0xad])));
}

#[test]
fn question_mark_and_hex_search_backward() {
    let state = editor(8, 0);
    assert_eq!(read(&state, "?be"), Ok(Command::SearchBackward(vec![0xbe])));
    assert_eq!(read(&state, "?  00ff"), Ok(Command::SearchBackward(vec![0x00, 0xff])));
}

#[test]
fn search_for_half_a_byte_is_refused() {
    let state = editor(8, 0);
    assert_eq!(read(&state, "/dea"), Err(EditError::BadHex { text: text("dea") }));
    assert_eq!(read(&state, "/dea/k"), Err(EditError::BadHex { text: text("dea") }));
}

#[test]
fn bare_slash_and_question_mark_repeat_the_search() {
    let state = editor(8, 0);
    assert_eq!(read(&state, "/"), Ok(Command::RepeatSearch(true)));
    assert_eq!(read(&state, "?"), Ok(Command::RepeatSearch(false)));
}

#[test]
fn search_with_kill_or_insert_suffix() {
    let state = editor(8, 0);
    assert_eq!(read(&state, "/dead/k"), Ok(Command::SearchThenKill(vec![0xde, 0xad])));
    assert_eq!(read(&state, "/dead/i"), Ok(Command::SearchThenInsert(vec![0xde, 0xad])));
}

#[test]
fn malformed_search_lines_are_unparseable() {
    let state = editor(8, 0);
    for line in ["?dead/k", "/dead/x", "/dead /k", "/ dead/k", "/xyz", "/dead/"] {
        assert_eq!(read(&state, line), Err(EditError::Unparseable { line: text(line) }));
    }
}

#[test]
fn every_command_letter_alone() {
    let state = editor(8, 3);
    assert_eq!(read(&state, "h"), Ok(Command::Help));
    assert_eq!(read(&state, "i"), Ok(Command::Insert(3)));
    assert_eq!(read(&state, "j"), Ok(Command::PreviousWindow));
    assert_eq!(read(&state, "k"), Ok(Command::Kill(3, 3)));
    assert_eq!(read(&state, "m"), Ok(Command::ToggleFlag(Flag::ShowChars)));
    assert_eq!(read(&state, "n"), Ok(Command::ToggleFlag(Flag::ShowByteNumbers)));
    assert_eq!(read(&state, "o"), Ok(Command::ToggleFlag(Flag::Color)));
    assert_eq!(read(&state, "p"), Ok(Command::PrintWindow));
    assert_eq!(read(&state, "q"), Ok(Command::Quit));
    assert_eq!(read(&state, "R"), Ok(Command::ToggleFlag(Flag::ReadOnly)));
    assert_eq!(read(&state, "r"), Ok(Command::LoadPreferences));
    assert_eq!(read(&state, "s"), Ok(Command::ShowState));
    assert_eq!(read(&state, "S"), Ok(Command::SaveState));
    assert_eq!(read(&state, "l"), Ok(Command::LoadFile));
    assert_eq!(read(&state, "L"), Ok(Command::LoadState));
    assert_eq!(read(&state, "P"), Ok(Command::SavePreferences));
    assert_eq!(read(&state, "u"), Ok(Command::UpdateFilename));
    assert_eq!(read(&state, "w"), Ok(Command::Write));
    assert_eq!(read(&state, "x"), Ok(Command::ToggleFlag(Flag::Radix)));
}

#[test]
fn text_after_a_command_letter_is_ignored() {
    let state = editor(8, 3);
    let parsed = Command::from_state_and_line(&state, "q and more").unwrap();
    assert_eq!(parsed, Parsed { command: Command::Quit, args: vec![] });
    assert_eq!(read(&state, "k5"), Ok(Command::Kill(3, 3)));
    assert_eq!(read(&state, "p 1,2"), Ok(Command::PrintWindow));
}

#[test]
fn width_and_context_settings() {
    let state = editor(8, 0);
    assert_eq!(read(&state, "W10"), Ok(Command::SetWidth(0x10)));
    assert_eq!(read(&state, "W 3d"), Ok(Command::SetWidth(0x3d)));
    assert_eq!(read(&state, "T2"), Ok(Command::SetBeforeContext(2)));
    assert_eq!(read(&state, "T0"), Ok(Command::SetBeforeContext(0)));
    assert_eq!(read(&state, "t3"), Ok(Command::SetAfterContext(3)));
    assert_eq!(read(&state, "t  a"), Ok(Command::SetAfterContext(10)));
}

#[test]
fn width_of_zero_is_refused() {
    let state = editor(8, 0);
    assert_eq!(read(&state, "W0"), Err(EditError::WidthNotPositive));
    assert_eq!(read(&state, "W000"), Err(EditError::WidthNotPositive));
}

#[test]
fn settings_follow_the_radix() {
    let mut state = editor(8, 0);
    state.radix = 10;
    assert_eq!(read(&state, "W10"), Ok(Command::SetWidth(10)));
    assert_eq!(
        read(&state, "Wff"),
        Err(EditError::NotANumber { token: text("ff"), radix: 10 })
    );
    assert_eq!(
        read(&state, "t1f"),
        Err(EditError::NotANumber { token: text("1f"), radix: 10 })
    );
}

#[test]
fn settings_without_a_number_are_unparseable() {
    let state = editor(8, 0);
    for line in ["W", "T", "t", "Wzz", "W 1 2", "t5p"] {
        assert_eq!(read(&state, line), Err(EditError::Unparseable { line: text(line) }));
    }
}

#[test]
fn range_with_a_command_letter() {
    let state = editor(0x80, 3);
    assert_eq!(read(&state, "1,2p"), Ok(Command::PrintRange(1, 2)));
    assert_eq!(read(&state, "12,3dp"), Ok(Command::PrintRange(0x12, 0x3d)));
    assert_eq!(read(&state, "1d,72k"), Ok(Command::Kill(0x1d, 0x72)));
    assert_eq!(read(&state, " 1 , 2  k "), Ok(Command::Kill(1, 2)));
    assert_eq!(read(&state, ".,$p"), Ok(Command::PrintRange(3, 0x7f)));
    assert_eq!(read(&state, "0,.k"), Ok(Command::Kill(0, 3)));
    assert_eq!(read(&state, "1,2i"), Ok(Command::Insert(2)));
    assert_eq!(read(&state, "1,2q"), Ok(Command::Quit));
    assert_eq!(read(&state, "1,2z"), Ok(Command::Unknown('z')));
}

#[test]
fn range_without_a_command_has_no_arguments() {
    let state = editor(8, 0);
    assert_eq!(read(&state, "1,2"), Err(EditError::NoArguments));
    assert_eq!(read(&state, "1 , 2   "), Err(EditError::NoArguments));
}

#[test]
fn reversed_or_overlong_range_is_refused() {
    let state = editor(8, 0);
    assert_eq!(read(&state, "2,1p"), Err(EditError::BadRange));
    assert_eq!(read(&state, "1,8p"), Err(EditError::BadRange));
    assert_eq!(read(&state, "1,ffk"), Err(EditError::BadRange));
    assert_eq!(read(&state, "0,7k"), Ok(Command::Kill(0, 7)));
}

#[test]
fn range_with_a_bad_numeral() {
    let state = editor(8, 0);
    assert_eq!(
        read(&state, "1.5,2p"),
        Err(EditError::NotANumber { token: text("1.5"), radix: 16 })
    );
    assert_eq!(
        read(&state, "1,$$p"),
        Err(EditError::NotANumber { token: text("$$"), radix: 16 })
    );
}

#[test]
fn words_after_the_command_letter_are_kept() {
    let state = editor(8, 0);
    let parsed = Command::from_state_and_line(&state, "1,2p  foo \t bar ").unwrap();
    assert_eq!(
        parsed,
        Parsed { command: Command::PrintRange(1, 2), args: vec![text("foo"), text("bar")] }
    );
    let parsed = Command::from_state_and_line(&state, "3pxy z").unwrap();
    assert_eq!(
        parsed,
        Parsed { command: Command::PrintWindowAt(3), args: vec![text("xy"), text("z")] }
    );
    let parsed = Command::from_state_and_line(&state, "3k").unwrap();
    assert_eq!(parsed, Parsed { command: Command::Kill(3, 3), args: vec![] });
}

#[test]
fn single_numeral_moves_there() {
    let state = editor(0x400, 7);
    assert_eq!(read(&state, "3d4"), Ok(Command::MoveTo(0x3d4)));
    assert_eq!(read(&state, "0"), Ok(Command::MoveTo(0)));
    assert_eq!(read(&state, "$"), Ok(Command::MoveTo(0x3ff)));
    assert_eq!(read(&state, "."), Ok(Command::MoveTo(7)));
    assert_eq!(read(&state, "  1F  "), Ok(Command::MoveTo(0x1f)));
}

#[test]
fn numeral_with_a_command_letter() {
    let state = editor(0x80, 7);
    assert_eq!(read(&state, "7dk"), Ok(Command::Kill(0x7d, 0x7d)));
    assert_eq!(read(&state, "72i"), Ok(Command::Insert(0x72)));
    assert_eq!(read(&state, "80i"), Ok(Command::Insert(0x80)));
    assert_eq!(read(&state, "5 p"), Ok(Command::PrintWindowAt(5)));
    assert_eq!(read(&state, "$p"), Ok(Command::PrintWindowAt(0x7f)));
    assert_eq!(read(&state, "5j"), Ok(Command::PreviousWindow));
    assert_eq!(read(&state, "5g"), Ok(Command::Unknown('g')));
    assert_eq!(read(&state, "5G"), Ok(Command::Unknown('G')));
}

#[test]
fn p_after_an_index_is_not_p_alone() {
    let state = editor(0x80, 7);
    assert_eq!(read(&state, "p"), Ok(Command::PrintWindow));
    assert_eq!(read(&state, "20p"), Ok(Command::PrintWindowAt(0x20)));
    assert_eq!(read(&state, "20,20p"), Ok(Command::PrintRange(0x20, 0x20)));
}

#[test]
fn index_past_the_last_byte_is_refused() {
    let state = editor(8, 0);
    assert_eq!(read(&state, "8"), Err(EditError::IndexTooLarge { index: 8, max: 7 }));
    assert_eq!(read(&state, "ff"), Err(EditError::IndexTooLarge { index: 0xff, max: 7 }));
    assert_eq!(read(&state, "8p"), Err(EditError::BadRange));
    assert_eq!(read(&state, "8k"), Err(EditError::BadRange));
    assert_eq!(read(&state, "9i"), Err(EditError::BadRange));
    assert_eq!(read(&state, "7"), Ok(Command::MoveTo(7)));
}

#[test]
fn comma_without_a_second_numeral_is_a_letter() {
    let state = editor(8, 0);
    let parsed = Command::from_state_and_line(&state, "5,p").unwrap();
    assert_eq!(parsed, Parsed { command: Command::Unknown(','), args: vec![text("p")] });
}

#[test]
fn numerals_follow_the_radix() {
    let mut state = editor(0x80, 0);
    state.radix = 10;
    assert_eq!(read(&state, "10"), Ok(Command::MoveTo(10)));
    assert_eq!(read(&state, "1f"), Err(EditError::NotANumber { token: text("1f"), radix: 10 }));
    state.radix = 16;
    assert_eq!(read(&state, "10"), Ok(Command::MoveTo(16)));
}

#[test]
fn signed_offset_moves_from_the_cursor() {
    let state = editor(0x80, 0x10);
    assert_eq!(read(&state, "+5"), Ok(Command::MoveTo(0x15)));
    assert_eq!(read(&state, "-5"), Ok(Command::MoveTo(0xb)));
    assert_eq!(read(&state, "+1f"), Ok(Command::MoveTo(0x2f)));
    assert_eq!(read(&state, "-10"), Ok(Command::MoveTo(0)));
    assert_eq!(read(&state, "+5 k"), Ok(Command::Kill(0x15, 0x15)));
    assert_eq!(read(&state, "-1i"), Ok(Command::Insert(0xf)));
}

#[test]
fn offset_forward_resolves_against_the_cursor() {
    let state = editor(0x20, 0x10);
    assert_eq!(read(&state, "+5p"), Ok(Command::PrintWindowAt(0x15)));
}

#[test]
fn offset_back_past_zero_is_an_error() {
    let state = editor(0x20, 0x2);
    assert_eq!(read(&state, "-5p"), Err(EditError::BeyondFirstByte { count: 5 }));
    assert_eq!(read(&state, "-3"), Err(EditError::BeyondFirstByte { count: 3 }));
    assert_eq!(read(&state, "-2"), Ok(Command::MoveTo(0)));
}

#[test]
fn offset_beyond_every_index_is_an_error() {
    let state = editor(0x20, 0x2);
    let huge = format!("+{:x}", usize::MAX);
    assert_eq!(read(&state, &huge), Err(EditError::PastLastByte { count: usize::MAX }));
    let too_long = format!("+{:x}0", usize::MAX);
    assert_eq!(
        read(&state, &too_long),
        Err(EditError::NotANumber { token: format!("{:x}0", usize::MAX), radix: 16 })
    );
}

#[test]
fn offset_past_the_last_byte_is_refused() {
    let state = editor(0x20, 0x10);
    assert_eq!(read(&state, "+10"), Err(EditError::IndexTooLarge { index: 0x20, max: 0x1f }));
    assert_eq!(read(&state, "+f"), Ok(Command::MoveTo(0x1f)));
}

#[test]
fn anything_else_is_unparseable() {
    let state = editor(8, 0);
    for line in ["zzz", "#", "g", "G", ",5", "=", "Q"] {
        assert_eq!(read(&state, line), Err(EditError::Unparseable { line: text(line) }));
    }
    assert_eq!(read(&state, "  zzz \t"), Err(EditError::Unparseable { line: text("zzz") }));
}

#[test]
fn whitespace_around_the_line_is_dropped() {
    let state = editor(8, 0);
    assert_eq!(read(&state, "  5p  "), Ok(Command::PrintWindowAt(5)));
    assert_eq!(read(&state, "\t1,2k\r\n"), Ok(Command::Kill(1, 2)));
    assert_eq!(read(&state, "\u{3000}q\u{a0}"), Ok(Command::Quit));
}

#[test]
fn reading_a_line_leaves_the_state_alone() {
    let state = editor(8, 2);
    let _ = Command::from_state_and_line(&state, "/dead");
    assert_eq!(state.cursor, 2);
    assert_eq!(state.last_search, None);
    assert_eq!(state.buffer, vec![0u8; 8]);
}

#[test]
fn empty_buffer_has_neither_index_nor_range() {
    let state = editor(0, 0);
    for line in ["0", "$", ".", "5p", "0,0p", "1,2k", ".,$k", "3i"] {
        assert_eq!(read(&state, line), Err(EditError::EmptyFile));
    }
    assert_eq!(read(&state, "k"), Err(EditError::EmptyFile));
    assert_eq!(read(&state, "+1"), Err(EditError::EmptyFile));
    assert_eq!(read(&state, "i"), Ok(Command::Insert(0)));
}

#[test]
fn kill_at_a_cursor_past_the_end_is_a_bad_range() {
    let state = editor(4, 4);
    assert_eq!(read(&state, "k"), Err(EditError::BadRange));
    assert_eq!(read(&state, "i"), Ok(Command::Insert(4)));
}
