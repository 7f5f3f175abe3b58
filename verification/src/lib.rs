//! An interactive terminal prompt engine.
//!
//! The engine drives user-facing input widgets through a
//! read-key / update-state / redraw loop:
//!
//! - [`StringCursor`] is a Unicode-codepoint text buffer with an edit
//!   position, the backing store of every text-like prompt.
//! - [`PromptInteraction`] is the surface a concrete prompt implements:
//!   `on` turns one key event into a new render state, `render` turns the
//!   current state into one full frame.
//! - [`drive`] feeds a sequence of key events to a prompt until a terminal
//!   state (submit or cancel) is reached; an unverified front end performs
//!   the blocking reads and hands the decoded events in.
//! - [`Password`] is a concrete masked-input prompt with an optional
//!   [`Validator`] that may veto submission.
//! - [`Theme`] is the catalogue of pure formatting functions that compose
//!   each frame; styling is carried as plain prefix/suffix strings so that
//!   rendering stays a pure function of its inputs.

mod cursor;
mod interaction;
mod password;
mod text;
mod theme;
mod validate;

pub use password::Password;
pub use password::spec_is_ascii_control;
pub use password::lemma_render_pure;
pub use password::lemma_submit_unvalidated;

pub use theme::Theme;
pub use theme::ThemeState;
pub use theme::ThemeStateModel;
pub use theme::theme_state_of;
pub use theme::Styling;
pub use theme::is_default_theme;
pub use theme::note_width;
pub use theme::reset_theme;

pub use text::repeated;
pub use text::repeat_str;
pub use text::lemma_repeated_len;
pub use text::split_newlines;
pub use text::split_lines;
pub use text::lines_of;
pub use text::lines_vec;
pub use text::max_seg_len;
pub use text::max_line_len;
pub use text::lemma_split_newlines_len;

pub use validate::Validator;
pub use validate::NoValidator;
pub use validate::MinLength;

pub use interaction::KeyEvent;
pub use interaction::State;
pub use interaction::StateModel;
pub use interaction::PromptInteraction;
pub use interaction::is_terminal;
pub use interaction::terminal;
pub use interaction::drive;
pub use interaction::drive_rel;
pub use interaction::outcome_view;
pub use interaction::lemma_cancel_is_terminal;
pub use cursor::StringCursor;
pub use cursor::buffer_insert;
pub use cursor::buffer_delete_left;
pub use cursor::buffer_after_insertions;
pub use cursor::lemma_insertions_concatenate;
pub use cursor::lemma_insertions_splice;
pub use cursor::lemma_insert_delete_round_trip;
