//! Core of an interactive single-line calculator: the input buffer, the
//! append-only expression history with its browsing cursor, live-preview and
//! commit-mode evaluation, and the formatting of numeric results into display
//! strings. The host window, text rendering and process termination stay
//! outside; they feed events in and read the displayed state back.

pub mod app;
pub mod eval;
pub mod laws;
pub mod text;
