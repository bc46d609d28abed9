//! Inspection of raw TCP payloads and hand-written replies.
//!
//! `render` turns a received payload into text for an operator: an inline
//! view and a hex dump with an ASCII gutter. `session` holds the per-connection
//! state machine that decides what happens on each read, operator line and
//! I/O failure; the caller performs the I/O. `settings` reads the port and
//! hex-mode flag from their command-line text.
pub mod render;
pub mod session;
pub mod settings;
