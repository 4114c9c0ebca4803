//! Incremental, per-document syntax highlighting for a text editor.
//!
//! A [`highlighter::SyntaxHighlighter`] keeps one document snapshot together
//! with the highlight spans computed for it. The spans are recomputed only
//! when the buffer generation changes, and range queries are answered by
//! clipping the cached spans.

pub mod outside;
pub mod text;
pub mod color;
pub mod language;
pub mod span;
pub mod events;
pub mod grammar;
pub mod classifier;
pub mod cache;
pub mod highlighter;
pub mod laws;
