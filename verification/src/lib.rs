//! Unwraps link-protection redirects in clipboard text.
//!
//! The crate has three layers. `classify` decides whether one URL is a
//! wrapped redirect and extracts its destination, `rewrite` replaces every
//! such URL in a text, and `monitor` is the polling state machine that
//! decides when the clipboard is rewritten and how failures back off.

pub mod classify;
pub mod config;
pub mod monitor;
pub mod rewrite;
pub mod text;
