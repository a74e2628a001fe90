//! Primitive matchers over the token stream: exact punctuator, exact keyword,
//! arbitrary name, token of a given kind, end of input. Each restores the
//! stream when it fails, so alternation can try something else; each is
//! specified against its mathematical twin (the `p_..` functions), which maps
//! a source offset to a result and the offset reached.
use vstd::prelude::*;

use crate::query_error::{ParseErrorKind, QueryParseError};
use crate::tokenizer::{peek_token_spec, skip_ws_end, Kind, Lexed, Token, TokenStream};

verus! {

/// What a parsing step yields: a result and the offset just past what it
/// consumed, or a failure with the offset at which parsing stopped. A failure
/// whose offset equals the step's starting offset consumed nothing, and
/// alternation may try the next production; any other failure is final.
pub enum PRes<A> {
    POk { v: A, next: int },
    PFail { at: int },
}

/// Matching an exact punctuator.
pub open spec fn p_punct(s: Seq<char>, off: int, expected: Seq<char>) -> PRes<()> {
    match peek_token_spec(s, off) {
        Lexed::Token { kind, len } => if kind == Kind::Punctuator && s.subrange(off, off + len)
            == expected {
            PRes::POk { v: (), next: skip_ws_end(s, off + len) }
        } else {
            PRes::PFail { at: off }
        },
        Lexed::End => PRes::PFail { at: off },
        Lexed::Error { err } => PRes::PFail { at: off },
    }
}

/// Matching an exact keyword identifier.
pub open spec fn p_ident(s: Seq<char>, off: int, expected: Seq<char>) -> PRes<()> {
    match peek_token_spec(s, off) {
        Lexed::Token { kind, len } => if kind == Kind::Name && s.subrange(off, off + len)
            == expected {
            PRes::POk { v: (), next: skip_ws_end(s, off + len) }
        } else {
            PRes::PFail { at: off }
        },
        Lexed::End => PRes::PFail { at: off },
        Lexed::Error { err } => PRes::PFail { at: off },
    }
}

/// Matching any name, yielding its text.
pub open spec fn p_name(s: Seq<char>, off: int) -> PRes<Seq<char>> {
    match peek_token_spec(s, off) {
        Lexed::Token { kind, len } => if kind == Kind::Name {
            PRes::POk { v: s.subrange(off, off + len), next: skip_ws_end(s, off + len) }
        } else {
            PRes::PFail { at: off }
        },
        Lexed::End => PRes::PFail { at: off },
        Lexed::Error { err } => PRes::PFail { at: off },
    }
}

/// Matching any token of the given kind, yielding its text.
pub open spec fn p_kind(s: Seq<char>, off: int, k: Kind) -> PRes<Seq<char>> {
    match peek_token_spec(s, off) {
        Lexed::Token { kind, len } => if kind == k {
            PRes::POk { v: s.subrange(off, off + len), next: skip_ws_end(s, off + len) }
        } else {
            PRes::PFail { at: off }
        },
        Lexed::End => PRes::PFail { at: off },
        Lexed::Error { err } => PRes::PFail { at: off },
    }
}

/// Demanding the end of the input.
pub open spec fn p_eof(s: Seq<char>, off: int) -> PRes<()> {
    match peek_token_spec(s, off) {
        Lexed::End => PRes::POk { v: (), next: off },
        Lexed::Token { kind, len } => PRes::PFail { at: off },
        Lexed::Error { err } => PRes::PFail { at: off },
    }
}

/// An error at the stream's current position.
pub(crate) fn err_here(input: &TokenStream, kind: ParseErrorKind) -> (r: QueryParseError)
    ensures
        r.line == input.pos.line,
        r.column == input.pos.column,
        r.kind == kind,
{
    let p = input.position();
    QueryParseError { line: p.line, column: p.column, kind }
}

/// Consumes the given punctuator, or fails without consuming anything.
pub fn punct(input: &mut TokenStream, expected: &str) -> (r: Result<(), QueryParseError>)
    requires
        old(input).wf(),
    ensures
        final(input).wf(),
        final(input).buf@ == old(input).buf@,
        match p_punct(old(input).buf@, old(input).off as int, expected@) {
            PRes::POk { v, next } => r matches Ok(u) && final(input).off as int == next && old(
                input,
            ).off < final(input).off,
            PRes::PFail { at } => r matches Err(e) && final(input).off as int == at
                && final(input).off == old(input).off && e.line == final(input).pos.line
                && e.column == final(input).pos.column,
        },
{
    let cp = input.checkpoint();
    match input.uncons() {
        Ok(t) => {
            if matches!(t.kind, Kind::Punctuator) && crate::chars::str_eq(t.value.as_str(), expected) {
                Ok(())
            } else {
                input.reset(cp);
                Err(err_here(input, ParseErrorKind::ExpectedToken))
            }
        },
        Err(e) => Err(err_here(input, ParseErrorKind::Lexical(e))),
    }
}

/// Consumes the given keyword, or fails without consuming anything.
pub fn ident(input: &mut TokenStream, expected: &str) -> (r: Result<(), QueryParseError>)
    requires
        old(input).wf(),
    ensures
        final(input).wf(),
        final(input).buf@ == old(input).buf@,
        match p_ident(old(input).buf@, old(input).off as int, expected@) {
            PRes::POk { v, next } => r matches Ok(u) && final(input).off as int == next && old(
                input,
            ).off < final(input).off,
            PRes::PFail { at } => r matches Err(e) && final(input).off as int == at
                && final(input).off == old(input).off && e.line == final(input).pos.line
                && e.column == final(input).pos.column,
        },
{
    let cp = input.checkpoint();
    match input.uncons() {
        Ok(t) => {
            if matches!(t.kind, Kind::Name) && crate::chars::str_eq(t.value.as_str(), expected) {
                Ok(())
            } else {
                input.reset(cp);
                Err(err_here(input, ParseErrorKind::ExpectedToken))
            }
        },
        Err(e) => Err(err_here(input, ParseErrorKind::Lexical(e))),
    }
}

/// Consumes a name token and yields its text, or fails without consuming
/// anything.
pub fn name(input: &mut TokenStream) -> (r: Result<String, QueryParseError>)
    requires
        old(input).wf(),
    ensures
        final(input).wf(),
        final(input).buf@ == old(input).buf@,
        match p_name(old(input).buf@, old(input).off as int) {
            PRes::POk { v, next } => r matches Ok(nm) && nm@ == v && final(input).off as int
                == next && old(input).off < final(input).off,
            PRes::PFail { at } => r matches Err(e) && final(input).off as int == at
                && final(input).off == old(input).off && e.line == final(input).pos.line
                && e.column == final(input).pos.column,
        },
{
    let cp = input.checkpoint();
    match input.uncons() {
        Ok(t) => {
            if matches!(t.kind, Kind::Name) {
                Ok(t.value)
            } else {
                input.reset(cp);
                Err(err_here(input, ParseErrorKind::ExpectedName))
            }
        },
        Err(e) => Err(err_here(input, ParseErrorKind::Lexical(e))),
    }
}

/// Consumes a token of the given kind, or fails without consuming anything.
pub fn kind(input: &mut TokenStream, expected: Kind) -> (r: Result<Token, QueryParseError>)
    requires
        old(input).wf(),
    ensures
        final(input).wf(),
        final(input).buf@ == old(input).buf@,
        match p_kind(old(input).buf@, old(input).off as int, expected) {
            PRes::POk { v, next } => r matches Ok(t) && t.kind == expected && t.value@ == v
                && final(input).off as int == next && old(input).off < final(input).off,
            PRes::PFail { at } => r matches Err(e) && final(input).off as int == at
                && final(input).off == old(input).off && e.line == final(input).pos.line
                && e.column == final(input).pos.column,
        },
{
    let cp = input.checkpoint();
    match input.uncons() {
        Ok(t) => {
            if t.kind == expected {
                Ok(t)
            } else {
                input.reset(cp);
                Err(err_here(input, ParseErrorKind::ExpectedToken))
            }
        },
        Err(e) => Err(err_here(input, ParseErrorKind::Lexical(e))),
    }
}

/// Demands that no token is left, consuming nothing either way.
pub fn eof(input: &mut TokenStream) -> (r: Result<(), QueryParseError>)
    requires
        old(input).wf(),
    ensures
        final(input).wf(),
        final(input).buf@ == old(input).buf@,
        final(input).off == old(input).off,
        final(input).pos == old(input).pos,
        match p_eof(old(input).buf@, old(input).off as int) {
            PRes::POk { v, next } => r matches Ok(u),
            PRes::PFail { at } => r matches Err(e) && e.line == final(input).pos.line
                && e.column == final(input).pos.column,
        },
{
    let cp = input.checkpoint();
    match input.uncons() {
        Ok(_) => {
            input.reset(cp);
            Err(err_here(input, ParseErrorKind::ExpectedEndOfInput))
        },
        Err(e) => {
            if matches!(e, crate::tokenizer::TokenError::EndOfInput) {
                Ok(())
            } else {
                Err(err_here(input, ParseErrorKind::Lexical(e)))
            }
        },
    }
}

} // verus!
