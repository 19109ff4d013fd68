//! A generator of recursive-descent, backtracking parsers for parsing
//! expression grammars.
//!
//! A `Grammar` is translated into the text of a Rust module: a fixed banner,
//! the grammar's own prelude, three runtime helpers, then one parse function
//! per rule and a public wrapper per exported rule. The text is specified
//! exactly by spec functions (`translate::grammar_text` and those it calls),
//! and the translation is proved to produce it.
pub mod emit;
pub mod escape;
pub mod grammar;
pub mod laws;
pub mod translate;
pub mod writer;

pub use grammar::{CharSetCase, ErrorKind, Expr, Grammar, Rule, TaggedExpr, TranslateError};
pub use translate::{compile_grammar, translate};
pub use writer::CodeWriter;
