//! The filtering and selection engine of a keyboard-driven action picker.
//!
//! A fixed registry of named actions is narrowed by a fuzzy query typed one
//! character at a time; a cursor over the narrowed list stays in bounds
//! through every edit and move, and confirming yields the action under it.

pub mod action;
pub mod cursor;
pub mod filter;
mod matcher;
pub mod session;
pub mod state;
mod text;

pub use action::{Handler, HandlerView};
pub use cursor::Dir;
pub use matcher::skim_match;
pub use session::{Key, KeyPress, Op, Outcome};
pub use state::State;
