use edhex::chars::{chars_of, scan, slice_chars, string_of, trim_chars, whitespace, CharClass};
use edhex::grammar::{command_for, words, Address};
use edhex::command::Command;

#[test]
fn classes_of_characters() {
    assert!(CharClass::Space.contains(' '));
    assert!(!CharClass::Space.contains('\t'));
    assert!(CharClass::HexDigit.contains('0'));
    assert!(CharClass::HexDigit.contains('f'));
    assert!(CharClass::HexDigit.contains('A'));
    assert!(!CharClass::HexDigit.contains('g'));
    assert!(!CharClass::HexDigit.contains('.'));
    assert!(CharClass::Numeral.contains('.'));
    assert!(CharClass::Numeral.contains('$'));
    assert!(CharClass::Numeral.contains('9'));
    assert!(!CharClass::Numeral.contains(','));
    assert!(CharClass::Plus.contains('+'));
    assert!(!CharClass::Plus.contains('-'));
    assert!(CharClass::Minus.contains('-'));
    assert!(CharClass::Word.contains('x'));
    assert!(!CharClass::Word.contains(' '));
}

#[test]
fn whitespace_is_what_the_standard_library_calls_whitespace() {
    for code in 0u32..0x3100 {
        if let Some(c) = char::from_u32(code) {
            assert_eq!(whitespace(c), c.is_whitespace(), "U+{:04X}", code);
            assert_eq!(CharClass::Whitespace.contains(c), c.is_whitespace());
        }
    }
    assert!(!whitespace('\u{feff}'));
    assert!(!whitespace('\u{10ffff}'));
}

#[test]
fn scanning_a_run() {
    let text = chars_of("  12ab,  x");
    assert_eq!(scan(&text, 0, CharClass::Space), 2);
    assert_eq!(scan(&text, 2, CharClass::HexDigit), 6);
    assert_eq!(scan(&text, 6, CharClass::HexDigit), 6);
    assert_eq!(scan(&text, 7, CharClass::Space), 9);
    assert_eq!(scan(&text, 9, CharClass::Word), 10);
    assert_eq!(scan(&text, 10, CharClass::Word), 10);
}

#[test]
fn trimming_and_slicing() {
    let text = chars_of(" \t héllo wörld \n");
    assert_eq!(trim_chars(&text), chars_of("héllo wörld"));
    assert_eq!(trim_chars(&chars_of("   ")), Vec::<char>::new());
    assert_eq!(trim_chars(&chars_of("")), Vec::<char>::new());
    assert_eq!(trim_chars(&chars_of("x")), vec!['x']);
    assert_eq!(slice_chars(&text, 3, 8), chars_of("héllo"));
    assert_eq!(string_of(&text, 9, 14), "wörld");
    assert_eq!(string_of(&text, 4, 4), "");
}

#[test]
fn words_of_a_text() {
    let text = chars_of("p  foo\tbar  baz ");
    assert_eq!(words(&text, 1), vec!["foo", "bar", "baz"]);
    assert_eq!(words(&text, 0), vec!["p", "foo", "bar", "baz"]);
    assert_eq!(words(&text, 4), vec!["oo", "bar", "baz"]);
    assert_eq!(words(&text, text.len()), Vec::<String>::new());
    assert_eq!(words(&chars_of("   "), 0), Vec::<String>::new());
}

#[test]
fn command_for_a_letter_and_an_address() {
    assert_eq!(command_for('p', 1, 2, Address::Bare), Command::PrintWindow);
    assert_eq!(command_for('p', 1, 1, Address::Index), Command::PrintWindowAt(1));
    assert_eq!(command_for('p', 1, 2, Address::Range), Command::PrintRange(1, 2));
    assert_eq!(command_for('k', 1, 2, Address::Range), Command::Kill(1, 2));
    assert_eq!(command_for('i', 1, 2, Address::Range), Command::Insert(2));
    assert_eq!(command_for('q', 1, 2, Address::Range), Command::Quit);
    assert_eq!(command_for('?', 1, 2, Address::Range), Command::Unknown('?'));
}
