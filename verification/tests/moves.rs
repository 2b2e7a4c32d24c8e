use edhex::error::EditError;
use edhex::moves::{minuses, move_to, next_window, pluses, previous_window};
use edhex::state::EditorState;

fn editor(len: usize, cursor: usize) -> EditorState {
    let mut state = EditorState::new(vec![0u8; len], String::from("scratch"), false, false);
    state.cursor = cursor;
    state
}

#[test]
fn move_to_a_byte_that_exists() {
    let mut state = editor(10, 3);
    assert_eq!(move_to(&mut state, 9), Ok(9));
    assert_eq!(state.cursor, 9);
    assert_eq!(move_to(&mut state, 0), Ok(0));
    assert_eq!(state.cursor, 0);
}

#[test]
fn move_past_the_last_byte_is_refused() {
    let mut state = editor(10, 3);
    assert_eq!(move_to(&mut state, 10), Err(EditError::IndexTooLarge { index: 10, max: 9 }));
    assert_eq!(state.cursor, 3);
}

#[test]
fn move_in_an_empty_buffer_is_refused() {
    let mut state = editor(0, 0);
    assert_eq!(move_to(&mut state, 0), Err(EditError::EmptyFile));
}

#[test]
fn pluses_move_forward() {
    let mut state = editor(10, 3);
    assert_eq!(pluses(&mut state, 2), Ok(5));
    assert_eq!(pluses(&mut state, 4), Ok(9));
    assert_eq!(state.cursor, 9);
}

#[test]
fn pluses_at_or_past_the_last_byte_are_refused() {
    let mut state = editor(10, 9);
    assert_eq!(pluses(&mut state, 1), Err(EditError::AlreadyAtLastByte));
    state.cursor = 8;
    assert_eq!(pluses(&mut state, 2), Err(EditError::PastLastByte { count: 2 }));
    assert_eq!(pluses(&mut state, usize::MAX), Err(EditError::PastLastByte { count: usize::MAX }));
    assert_eq!(state.cursor, 8);
    let mut empty = editor(0, 0);
    assert_eq!(pluses(&mut empty, 1), Err(EditError::EmptyFile));
}

#[test]
fn minuses_move_backward() {
    let mut state = editor(10, 5);
    assert_eq!(minuses(&mut state, 2), Ok(3));
    assert_eq!(minuses(&mut state, 3), Ok(0));
    assert_eq!(state.cursor, 0);
}

#[test]
fn minuses_at_or_past_index_zero_are_refused() {
    let mut state = editor(10, 0);
    assert_eq!(minuses(&mut state, 1), Err(EditError::AlreadyAtFirstByte));
    state.cursor = 2;
    assert_eq!(minuses(&mut state, 3), Err(EditError::BeyondFirstByte { count: 3 }));
    assert_eq!(state.cursor, 2);
    let mut empty = editor(0, 0);
    assert_eq!(minuses(&mut empty, 1), Err(EditError::EmptyFile));
}

#[test]
fn next_window_moves_one_width_on() {
    let mut state = editor(20, 0);
    state.width = 4;
    assert_eq!(next_window(&mut state), Ok(4));
    assert_eq!(next_window(&mut state), Ok(8));
    state.cursor = 15;
    assert_eq!(next_window(&mut state), Ok(19));
}

#[test]
fn next_window_past_the_last_byte_is_refused() {
    let mut state = editor(20, 16);
    state.width = 4;
    assert_eq!(next_window(&mut state), Err(EditError::AlreadyShowingLastByte { last: 19 }));
    assert_eq!(state.cursor, 16);
    state.width = usize::MAX;
    state.cursor = 0;
    assert_eq!(next_window(&mut state), Err(EditError::AlreadyShowingLastByte { last: 19 }));
    let mut empty = editor(0, 0);
    assert_eq!(next_window(&mut empty), Err(EditError::EmptyFile));
}

#[test]
fn previous_window_stops_at_index_zero() {
    let mut state = editor(20, 10);
    state.width = 4;
    assert_eq!(previous_window(&mut state), 6);
    assert_eq!(previous_window(&mut state), 2);
    assert_eq!(previous_window(&mut state), 0);
    assert_eq!(previous_window(&mut state), 0);
    assert_eq!(state.cursor, 0);
    let mut empty = editor(0, 0);
    assert_eq!(previous_window(&mut empty), 0);
}
