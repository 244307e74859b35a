//! Core logic of a small audio-streaming proxy: a format classifier that sizes
//! read-ahead buffers, a seekable sub-stream adapter that hides a fixed
//! container header from its callers, a comment stripper for JSON-with-comments
//! configuration text, and the decision logic that picks the first usable
//! candidate encoding of a track.
//!
//! Session management, HTTP routing and all network I/O live outside this
//! crate; the library works on plain in-memory values.

pub mod config;
pub mod format;
pub mod jsonc;
pub mod resolve;
pub mod subfile;
