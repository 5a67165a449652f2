//! Cross-platform terminal control with verified dispatch.
//!
//! The library lets a caller issue cursor, color and terminal commands
//! without knowing whether the device understands ANSI control sequences
//! or must be driven through native console calls. Every command is routed
//! through a shared output sink, [`output::TerminalOutput`], which buffers
//! the emitted bytes and carries a model of the observable device state
//! (cursor position, size, raw mode, attributes). Each operation's contract
//! states both the exact bytes it emits and the device state it leaves
//! behind; the facades in [`cursor`], [`style`] and [`terminal`] bind a
//! backend chosen once at construction time and forward every call to it.

pub mod ansi;
pub mod cursor;
pub mod error;
pub mod functions;
pub mod output;
pub mod style;
pub mod terminal;
