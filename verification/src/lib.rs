//! A modal text editor core: a line buffer, a cursor, a modal input state
//! machine, and the edit applier that interprets decoded commands against
//! them. Terminal I/O (raw mode, rendering, key polling) lives outside the
//! library; the core works on plain values and keeps the cursor and buffer
//! invariants across every edit.

pub mod input;
pub mod model;
pub mod editor;
pub mod laws;
