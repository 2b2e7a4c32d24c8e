use edhex::cargo_version;
use edhex::command::Flag;
use edhex::error::EditError;
use edhex::files::{
    carry_on, exit_code, initial_bytes, load_new_file, load_prefs, save_prefs, update_filename,
    write_out, written, Ending, Preferences, ReadFailure, WriteTarget,
};
use edhex::settings::{set_after_context, set_before_context, set_width, toggle};
use edhex::state::EditorState;

#[test]
fn new_state_has_the_defaults() {
    let state = EditorState::new(vec![1, 2, 3], String::from("a.bin"), true, false);
    assert_eq!(state.cursor, 0);
    assert_eq!(state.radix, 16);
    assert_eq!(state.buffer, vec![1, 2, 3]);
    assert_eq!(state.width, 16);
    assert_eq!(state.before_context, 0);
    assert_eq!(state.after_context, 0);
    assert_eq!(state.last_search, None);
    assert!(!state.unsaved_changes);
    assert!(state.readonly);
    assert!(state.show_chars);
    assert!(state.show_byte_numbers);
    assert!(!state.color);
    assert_eq!(state.filename, "a.bin");
    assert!(state.is_valid());
    assert!(!state.empty());
    assert_eq!(state.max_index(), Ok(2));
}

#[test]
fn new_state_without_a_file_counts_as_unsaved() {
    let state = EditorState::new(vec![], String::new(), false, true);
    assert!(state.unsaved_changes);
    assert!(state.empty());
    assert_eq!(state.max_index(), Err(EditError::NoMaxIndex));
    assert!(state.color);
}

#[test]
fn validity_of_a_state() {
    let mut state = EditorState::new(vec![1, 2, 3], String::new(), false, false);
    assert!(state.is_valid());
    state.cursor = 3;
    assert!(state.is_valid());
    state.cursor = 4;
    assert!(!state.is_valid());
    state.cursor = 0;
    state.width = 0;
    assert!(!state.is_valid());
    state.width = 1;
    state.radix = 8;
    assert!(!state.is_valid());
    state.radix = 10;
    assert!(state.is_valid());
}

#[test]
fn answers_to_a_yes_or_no_question() {
    for yes in ["y", "Y", "Yes", "yes"] {
        assert_eq!(carry_on(yes), Some(true));
    }
    for no in ["n", "N", "No", "no"] {
        assert_eq!(carry_on(no), Some(false));
    }
    for other in ["", "YES", "yEs", "ye", "yess", "nO", "NO", "nope", " y", "maybe"] {
        assert_eq!(carry_on(other), None);
    }
}

#[test]
fn new_filename_makes_the_buffer_unsaved() {
    let mut state = EditorState::new(vec![1], String::from("a.bin"), false, false);
    assert!(!state.unsaved_changes);
    update_filename(&mut state, String::from("b.bin"));
    assert_eq!(state.filename, "b.bin");
    assert!(state.unsaved_changes);
    assert_eq!(state.buffer, vec![1]);
}

#[test]
fn loading_a_file_replaces_the_buffer() {
    let mut state = EditorState::new(vec![1, 2, 3, 4, 5], String::from("a.bin"), false, false);
    state.cursor = 4;
    load_new_file(&mut state, String::from("b.bin"), vec![9, 8, 7, 6, 5, 4]);
    assert_eq!(state.buffer, vec![9, 8, 7, 6, 5, 4]);
    assert_eq!(state.filename, "b.bin");
    assert_eq!(state.cursor, 4);
    load_new_file(&mut state, String::from("c.bin"), vec![1, 2]);
    assert_eq!(state.cursor, 1);
    assert!(state.is_valid());
    assert!(state.cursor_on_byte());
}

#[test]
fn loading_a_file_keeps_the_cursor_on_a_byte() {
    for old_cursor in 0..=5usize {
        for new_len in 0..=7usize {
            let mut state =
                EditorState::new(vec![1, 2, 3, 4, 5], String::from("a.bin"), false, false);
            state.cursor = old_cursor;
            load_new_file(&mut state, String::from("b.bin"), vec![7u8; new_len]);
            let expected = if new_len == 0 {
                0
            } else if old_cursor < new_len {
                old_cursor
            } else {
                new_len - 1
            };
            assert_eq!(state.cursor, expected);
            assert_eq!(state.buffer, vec![7u8; new_len]);
            assert_eq!(state.filename, "b.bin");
            assert!(state.cursor_on_byte());
            assert!(state.is_valid());
        }
    }
}

#[test]
fn loading_a_file_changes_nothing_else() {
    let mut state = EditorState::new(vec![1, 2, 3], String::from("a.bin"), true, true);
    state.last_search = Some(vec![9]);
    state.width = 4;
    state.radix = 10;
    state.unsaved_changes = true;
    load_new_file(&mut state, String::from("b.bin"), vec![]);
    assert_eq!(state.cursor, 0);
    assert_eq!(state.last_search, Some(vec![9]));
    assert_eq!(state.width, 4);
    assert_eq!(state.radix, 10);
    assert!(state.unsaved_changes);
    assert!(state.readonly);
    assert!(state.color);
}

#[test]
fn cursor_on_a_byte_or_past_the_end() {
    let mut state = EditorState::new(vec![1, 2, 3], String::from("a.bin"), false, false);
    assert!(state.cursor_on_byte());
    state.cursor = 2;
    assert!(state.cursor_on_byte());
    state.cursor = 3;
    assert!(!state.cursor_on_byte());
    assert!(state.is_valid());
    let mut empty = EditorState::new(vec![], String::new(), false, false);
    assert!(empty.cursor_on_byte());
    empty.cursor = 1;
    assert!(!empty.cursor_on_byte());
}

#[test]
fn preferences_round_trip() {
    let mut state = EditorState::new(vec![1], String::from("a.bin"), false, false);
    let prefs = Preferences {
        radix: 10,
        show_byte_numbers: false,
        show_chars: false,
        color: true,
        width: 8,
        before_context: 1,
        after_context: 2,
    };
    assert_eq!(load_prefs(&mut state, prefs), Ok(()));
    assert_eq!(save_prefs(&state), prefs);
    assert_eq!(state.radix, 10);
    assert_eq!(state.width, 8);
}

#[test]
fn preferences_with_a_width_of_zero_are_refused() {
    let mut state = EditorState::new(vec![1], String::from("a.bin"), false, false);
    let before = save_prefs(&state);
    let prefs = Preferences { width: 0, radix: 10, ..before };
    assert_eq!(load_prefs(&mut state, prefs), Err(EditError::WidthNotPositive));
    assert_eq!(save_prefs(&state), before);
}

#[test]
fn preferences_with_another_radix_count_as_hex() {
    let mut state = EditorState::new(vec![1], String::from("a.bin"), false, false);
    let prefs = Preferences { radix: 8, ..save_prefs(&state) };
    assert_eq!(load_prefs(&mut state, prefs), Ok(()));
    assert_eq!(state.radix, 16);
}

#[test]
fn read_only_mode_refuses_writing() {
    let mut state = EditorState::new(vec![1, 2], String::from("a.bin"), true, false);
    assert_eq!(write_out(&state), Err(EditError::ReadOnly));
    assert_eq!(state.buffer, vec![1, 2]);
    state.readonly = false;
    assert_eq!(write_out(&state), Ok(WriteTarget::Named));
    state.filename = String::new();
    assert_eq!(write_out(&state), Ok(WriteTarget::Unnamed));
}

#[test]
fn writing_clears_the_unsaved_mark() {
    let mut state = EditorState::new(vec![1, 2], String::new(), false, false);
    assert!(state.unsaved_changes);
    written(&mut state, Some(String::from("out.bin")));
    assert!(!state.unsaved_changes);
    assert_eq!(state.filename, "out.bin");
    state.unsaved_changes = true;
    written(&mut state, None);
    assert!(!state.unsaved_changes);
    assert_eq!(state.filename, "out.bin");
}

#[test]
fn version_is_reported_or_said_to_be_unknown() {
    assert_eq!(cargo_version(Some("1.2.3")), Ok(String::from("1.2.3")));
    assert_eq!(
        cargo_version(None),
        Err(String::from("Version unknown (not compiled with cargo)"))
    );
}

#[test]
fn toggle_returns_the_new_value() {
    let mut state = EditorState::new(vec![1, 2], String::from("a.bin"), false, false);
    assert!(!toggle(&mut state, Flag::ShowChars));
    assert!(toggle(&mut state, Flag::ShowChars));
    assert!(toggle(&mut state, Flag::ReadOnly));
    assert!(state.readonly);
    assert!(!toggle(&mut state, Flag::Radix));
    assert_eq!(state.radix, 10);
    assert!(toggle(&mut state, Flag::Radix));
    assert_eq!(state.radix, 16);
    assert!(toggle(&mut state, Flag::Color));
    assert!(!toggle(&mut state, Flag::ShowByteNumbers));
}

#[test]
fn width_and_context_setters() {
    let mut state = EditorState::new(vec![1, 2], String::from("a.bin"), false, false);
    assert_eq!(set_width(&mut state, 4), Ok(()));
    assert_eq!(state.width, 4);
    assert_eq!(set_width(&mut state, 0), Err(EditError::WidthNotPositive));
    assert_eq!(state.width, 4);
    set_before_context(&mut state, 3);
    set_after_context(&mut state, 5);
    assert_eq!(state.before_context, 3);
    assert_eq!(state.after_context, 5);
}

#[test]
fn exit_codes() {
    assert_eq!(exit_code(Ending::Quit), 0);
    assert_eq!(exit_code(Ending::EndOfInput), 0);
    assert_eq!(exit_code(Ending::NotARegularFile), 1);
    assert_eq!(exit_code(Ending::InputFailed), 3);
    assert_eq!(exit_code(Ending::Unreadable), 4);
    assert_eq!(exit_code(Ending::Incomplete), 5);
}

#[test]
fn missing_file_starts_an_empty_buffer() {
    assert_eq!(initial_bytes(Ok(vec![1, 2, 3])), Ok(vec![1, 2, 3]));
    assert_eq!(initial_bytes(Err(ReadFailure::Missing)), Ok(vec![]));
    assert_eq!(initial_bytes(Err(ReadFailure::NotARegularFile)), Err(Ending::NotARegularFile));
    assert_eq!(initial_bytes(Err(ReadFailure::Unreadable)), Err(Ending::Unreadable));
    assert_eq!(initial_bytes(Err(ReadFailure::Incomplete)), Err(Ending::Incomplete));
}
