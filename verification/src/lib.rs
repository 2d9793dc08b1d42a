//! Interactive terminal menu engine: a list of keyed options that the user
//! navigates with keyboard or mouse, narrows with incremental fuzzy search,
//! and confirms to produce the chosen option's output.
//!
//! The crate holds the selection logic itself: cyclic navigation, layout and
//! centering of the list against a variable-size terminal, text wrapping of
//! long rows, mouse hit-testing against the last rendered rectangle, fuzzy
//! re-ranking, and the event-dispatch state machine. Drawing and terminal
//! plumbing live with the host program.

pub mod config;
pub mod events;
pub mod geometry;
pub mod list;
pub mod options;
pub mod query;
pub mod search;
pub mod searchbar;
pub mod state;
pub mod style;
pub mod ui;
pub mod wrapping;
