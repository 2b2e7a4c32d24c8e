//! A line-oriented editor for binary files, in the manner of `ed`: the
//! command language, the resolution of its operands against the editor's
//! state, and the operations that move the cursor, search the buffer and
//! edit it.
//!
//! [`command::Command::from_state_and_line`] reads a line of input as a
//! command, [`engine::apply`] carries a command out on an
//! [`state::EditorState`] and says what is to be shown or asked for next.
//! Reading input, printing and work on files are the caller's; the
//! functions of `edhex_core` that the editor relies on are gathered, with
//! their contracts, in [`ec`].

pub mod chars;
pub mod command;
pub mod ec;
pub mod edit;
pub mod engine;
pub mod error;
pub mod files;
pub mod grammar;
pub mod hex;
pub mod moves;
pub mod numeral;
pub mod search;
pub mod settings;
pub mod state;
pub mod version;
pub mod window;

pub use files::{load_new_file, load_prefs, save_prefs, update_filename, write_out};
pub use version::cargo_version;
