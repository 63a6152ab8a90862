//! Line prompts for console programs.
//!
//! A prompt writes a text to standard output or standard error, flushes it,
//! reads one line from standard input and hands that line back without its
//! terminator. This crate holds the rules of that exchange; the host performs
//! the writes and the read and reports how each of them went.
//!
//! - [`line`] says what a line is and strips its terminator.
//! - [`prompt`] decides, step by step, what the host does next.

pub mod line;
pub mod prompt;
