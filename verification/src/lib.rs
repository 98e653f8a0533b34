//! Core state model of an interactive terminal kanban board.
//!
//! The board is a fixed, ordered set of named lanes, each holding cards in a
//! [`selection::SelectionList`]; a keyboard-driven input-mode state machine
//! ([`input::InputController`]) edits a text buffer and commits new cards and
//! description paragraphs into the [`board::Board`]. Terminal rendering and
//! key-event decoding are external collaborators: they call the read and
//! mutate operations exposed here and feed the controller a decoded key
//! stream.

pub mod board;
pub mod card;
pub mod errors;
pub mod help;
pub mod input;
pub mod layout;
pub mod selection;
mod text;
