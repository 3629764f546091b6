//! State machine of a terminal command menu.
//!
//! The library owns a fixed list of shell commands and lets a caller
//! fuzzy-filter it, move a selection through the visible entries, prepare the
//! invocation of the selected command, and accumulate the running command's
//! output lines, while a spinner ticks. Key dispatch, filtering, selection
//! policy and output bookkeeping are all verified; the terminal, the process
//! spawn and the clock stay with the caller, which feeds plain values in
//! (key events, elapsed milliseconds, drained output lines) and reads the
//! state back out for drawing.

pub mod filter;
pub mod invocation;
pub mod laws;
pub mod state;
