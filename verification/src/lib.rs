//! A small interactive editor core for building a flat JSON object
//! (string keys to string values) from keyboard input.
//!
//! The crate has two halves: an input-driven state machine over the
//! editor's screens and buffers, and a pure layout planner that maps an
//! editor state and a viewport rectangle to a tree of drawable regions.
//! A driver outside this crate owns the terminal: it feeds one key event
//! at a time into the state machine and hands each resulting plan to a
//! drawing routine.

pub mod editor;
pub mod ui;
