//! A source-analysis rule that flags `map(f)` calls on optional- or
//! result-shaped containers where `f` is a function or closure returning
//! the unit type, and builds an `if let` rewrite suggestion out of the
//! original source text.
//!
//! The rule consumes a finished typed syntax tree: every node carries the
//! answer the external type system would give about it, as plain data
//! (`types::Ty`), together with a `source::Span` into the original text.
//! All analysis is pure; the single entry point is `driver::check_stmt`.

pub mod ast;
pub mod classify;
pub mod diagnostics;
pub mod driver;
pub mod reduce;
pub mod source;
pub mod suggest;
pub mod types;
