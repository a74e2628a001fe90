//! The structured error a failed parse returns: the (line, column) at which
//! the failure was detected and a short description of what was wrong.
use vstd::prelude::*;

use crate::tokenizer::TokenError;

verus! {

/// What went wrong at the reported position.
#[derive(Debug, PartialEq, Eq, Clone, Copy, Structural)]
pub enum ParseErrorKind {
    /// The lexer could not classify the next lexeme.
    Lexical(TokenError),
    /// A required punctuator or keyword was absent.
    ExpectedToken,
    /// A name was required.
    ExpectedName,
    /// A selection set requires at least one selection.
    ExpectedSelection,
    /// A value was required.
    ExpectedValue,
    /// A parenthesized variable list requires at least one definition.
    ExpectedVariableDefinition,
    /// A document requires at least one definition.
    ExpectedDefinition,
    /// Trailing tokens stand after the last definition.
    ExpectedEndOfInput,
    /// A syntactically valid integer literal does not fit the value range.
    NumberTooLarge,
    /// An unsupported escape sequence inside a string literal.
    BadEscape,
}

/// A parse failure, tagged with the position at which it was detected.
#[derive(Debug, PartialEq, Eq, Clone, Copy)]
pub struct QueryParseError {
    pub line: usize,
    pub column: usize,
    pub kind: ParseErrorKind,
}

/// The message that belongs to each failure kind.
pub open spec fn error_message(k: ParseErrorKind) -> Seq<char> {
    match k {
        ParseErrorKind::Lexical(TokenError::EndOfInput) => "unexpected end of input"@,
        ParseErrorKind::Lexical(TokenError::BareDot) => "bare dot is not supported"@,
        ParseErrorKind::Lexical(TokenError::UnsupportedInt) => "unsupported integer"@,
        ParseErrorKind::Lexical(TokenError::UnsupportedFloat) => "unsupported float"@,
        ParseErrorKind::Lexical(TokenError::UnterminatedString) => "unterminated string value"@,
        ParseErrorKind::Lexical(TokenError::UnterminatedBlockString) => (
        "unterminated block string value"@),
        ParseErrorKind::Lexical(TokenError::UnexpectedCharacter) => "unexpected character"@,
        ParseErrorKind::ExpectedToken => "expected token"@,
        ParseErrorKind::ExpectedName => "expected a name"@,
        ParseErrorKind::ExpectedSelection => "expected a selection"@,
        ParseErrorKind::ExpectedValue => "expected a value"@,
        ParseErrorKind::ExpectedVariableDefinition => "expected a variable definition"@,
        ParseErrorKind::ExpectedDefinition => "expected a definition"@,
        ParseErrorKind::ExpectedEndOfInput => "expected end of input"@,
        ParseErrorKind::NumberTooLarge => "number too large"@,
        ParseErrorKind::BadEscape => "bad escaped character"@,
    }
}

impl QueryParseError {
    /// A short human-readable account of the failure.
    pub fn describe(&self) -> (r: &'static str)
        ensures
            r@ == error_message(self.kind),
    {
        match self.kind {
            ParseErrorKind::Lexical(TokenError::EndOfInput) => "unexpected end of input",
            ParseErrorKind::Lexical(TokenError::BareDot) => "bare dot is not supported",
            ParseErrorKind::Lexical(TokenError::UnsupportedInt) => "unsupported integer",
            ParseErrorKind::Lexical(TokenError::UnsupportedFloat) => "unsupported float",
            ParseErrorKind::Lexical(TokenError::UnterminatedString) => "unterminated string value",
            ParseErrorKind::Lexical(TokenError::UnterminatedBlockString) => (
            "unterminated block string value"),
            ParseErrorKind::Lexical(TokenError::UnexpectedCharacter) => "unexpected character",
            ParseErrorKind::ExpectedToken => "expected token",
            ParseErrorKind::ExpectedName => "expected a name",
            ParseErrorKind::ExpectedSelection => "expected a selection",
            ParseErrorKind::ExpectedValue => "expected a value",
            ParseErrorKind::ExpectedVariableDefinition => "expected a variable definition",
            ParseErrorKind::ExpectedDefinition => "expected a definition",
            ParseErrorKind::ExpectedEndOfInput => "expected end of input",
            ParseErrorKind::NumberTooLarge => "number too large",
            ParseErrorKind::BadEscape => "bad escaped character",
        }
    }
}

} // verus!
