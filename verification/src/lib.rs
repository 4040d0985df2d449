//! Terminal presentation layer for an interactive git-rebase editor.
//!
//! The library renders a scrollable list of rebase steps, a commit-detail
//! screen, a help screen and yes/no confirmation prompts, and reports simple
//! keypress results back to the caller.  All drawing goes through a small
//! terminal-control capability trait, so the same rendering logic runs
//! against a real curses session or against an in-memory recording backend.

pub mod action;
pub mod color;
pub mod commit;
pub mod curses;
pub mod line;
pub mod mock;
pub mod terminal;
pub mod text;
pub mod window;
