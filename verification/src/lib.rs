//! A parser for a GraphQL-style query language: lexical analysis followed by
//! recursive-descent tree construction with backtracking alternation, plus
//! the literal decoders and a serializer back to text.
//!
//! The behaviour of every function is stated against a mathematical model:
//! the lexer against character-level scanning functions, each grammar
//! production against its twin (`p_..`), and the printer against the `pr_..`
//! text functions, all over sequences of characters and the AST mirrors.
//! `query_grammar::parse_query` is the entry point: it takes a complete
//! source text and returns the `query::Document` AST, or a
//! `query_error::QueryParseError` tagged with the (line, column) at which
//! parsing stopped.
use vstd::prelude::*;

pub mod chars;
pub mod format;
pub mod helpers;
pub mod position;
pub mod query;
pub mod query_error;
pub mod query_grammar;
pub mod tokenizer;

verus! {

} // verus!
