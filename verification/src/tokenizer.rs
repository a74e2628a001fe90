//! The lexer: classifies the next lexeme of a query document into a token
//! kind and span, skips insignificant content (whitespace, commas, comments),
//! and tracks a (line, column) position. Supports checkpoint/reset so the
//! grammar parser can backtrack.
use vstd::prelude::*;

use crate::chars::{str_chars, string_from_range};
use crate::position::{advanced_column, advanced_line, newline_count, tail_column_count, Pos};

verus! {

/// The classification of one lexeme.
#[derive(Debug, PartialEq, Eq, Clone, Copy, Structural)]
pub enum Kind {
    Punctuator,
    Name,
    IntValue,
    FloatValue,
    StringValue,
    BlockString,
}

/// A classified lexeme: its kind and its text, exactly as it stands in the
/// source.
#[derive(Debug, PartialEq, Eq, Clone)]
pub struct Token {
    pub kind: Kind,
    pub value: String,
}

/// A lexical failure, or the end of the input (which is a distinguished
/// condition, not a fault of the source text).
#[derive(Debug, PartialEq, Eq, Clone, Copy, Structural)]
pub enum TokenError {
    /// No token is left.
    EndOfInput,
    /// A `.` that does not begin `...`.
    BareDot,
    /// An integer literal of invalid shape, such as a leading zero.
    UnsupportedInt,
    /// A float literal of invalid shape, such as an unsigned exponent.
    UnsupportedFloat,
    /// A single-line string without a closing quote.
    UnterminatedString,
    /// A block string without a closing triple quote.
    UnterminatedBlockString,
    /// A character that can begin no token.
    UnexpectedCharacter,
}

// ---------------------------------------------------------------------------
// Character classes
// ---------------------------------------------------------------------------

/// The single-character punctuators.
pub open spec fn is_punct_char(c: char) -> bool {
    c == '!' || c == '$' || c == ':' || c == '=' || c == '@' || c == '|' || c == '(' || c == ')'
        || c == '[' || c == ']' || c == '{' || c == '}'
}

pub open spec fn is_digit(c: char) -> bool {
    '0' <= c && c <= '9'
}

pub open spec fn is_name_start(c: char) -> bool {
    c == '_' || ('a' <= c && c <= 'z') || ('A' <= c && c <= 'Z')
}

pub open spec fn is_name_cont(c: char) -> bool {
    is_name_start(c) || is_digit(c)
}

/// A character that ends a numeric lexeme.
pub open spec fn is_num_break(c: char) -> bool {
    c == ' ' || c == '\n' || c == '\r' || c == '\t' || c == ',' || c == '#' || is_punct_char(c)
}

/// Insignificant between tokens: byte-order mark, whitespace and commas.
pub open spec fn is_insignificant(c: char) -> bool {
    c == '\u{feff}' || c == '\t' || c == ' ' || c == '\r' || c == '\n' || c == ','
}

// ---------------------------------------------------------------------------
// Scanning: where runs end
// ---------------------------------------------------------------------------

/// First index at or after `i` whose character does not continue a name.
pub open spec fn name_end(s: Seq<char>, i: int) -> int
    decreases s.len() - i,
{
    if 0 <= i < s.len() && is_name_cont(s[i]) {
        name_end(s, i + 1)
    } else {
        i
    }
}

/// First index at or after `i` whose character ends a numeric lexeme.
pub open spec fn num_end(s: Seq<char>, i: int) -> int
    decreases s.len() - i,
{
    if 0 <= i < s.len() && !is_num_break(s[i]) {
        num_end(s, i + 1)
    } else if i < s.len() {
        i
    } else {
        s.len() as int
    }
}

/// Index of the last `.` in `s[lo..hi]`, if any.
pub open spec fn last_dot(s: Seq<char>, lo: int, hi: int) -> Option<int>
    decreases hi - lo,
{
    if lo >= hi {
        None
    } else if s[hi - 1] == '.' {
        Some(hi - 1)
    } else {
        last_dot(s, lo, hi - 1)
    }
}

/// Index of the last `e` or `E` in `s[lo..hi]`, if any.
pub open spec fn last_exp(s: Seq<char>, lo: int, hi: int) -> Option<int>
    decreases hi - lo,
{
    if lo >= hi {
        None
    } else if s[hi - 1] == 'e' || s[hi - 1] == 'E' {
        Some(hi - 1)
    } else {
        last_exp(s, lo, hi - 1)
    }
}

/// First index `j >= i` with an unescaped closing quote: `s[j] == '"'` and
/// the character before it is not a backslash. The check looks one character
/// back only, as the lexeme grammar prescribes.
pub open spec fn string_close(s: Seq<char>, i: int) -> Option<int>
    decreases s.len() - i,
{
    if !(1 <= i < s.len()) {
        None
    } else if s[i] == '"' && s[i - 1] != '\\' {
        Some(i)
    } else {
        string_close(s, i + 1)
    }
}

/// First index `j >= i` where a `"""` run begins, if any.
pub open spec fn find_triple_quote(s: Seq<char>, i: int) -> Option<int>
    decreases s.len() - i,
{
    if !(0 <= i && i + 3 <= s.len()) {
        None
    } else if s[i] == '"' && s[i + 1] == '"' && s[i + 2] == '"' {
        Some(i)
    } else {
        find_triple_quote(s, i + 1)
    }
}

/// Index of the `"""` that closes a block string whose body begins at
/// `start`. Candidate closers are successive non-overlapping `"""` runs; one
/// directly preceded by a backslash does not close.
pub open spec fn block_close(s: Seq<char>, start: int, i: int) -> Option<int>
    decreases s.len() - i,
{
    match find_triple_quote(s, i) {
        None => None,
        Some(j) => if j == start || s[j - 1] != '\\' {
            Some(j)
        } else if i < j + 3 && j + 3 <= s.len() {
            block_close(s, start, j + 3)
        } else {
            None
        },
    }
}

/// Index just past a comment that began at `i`: past the first carriage
/// return or newline, or the end of the input.
pub open spec fn comment_end(s: Seq<char>, i: int) -> int
    decreases s.len() - i,
{
    if !(0 <= i < s.len()) {
        s.len() as int
    } else if s[i] == '\r' || s[i] == '\n' {
        i + 1
    } else {
        comment_end(s, i + 1)
    }
}

/// First index at or after `i` that holds significant content: not
/// whitespace, not a comma, not inside a comment.
pub open spec fn skip_ws_end(s: Seq<char>, i: int) -> int
    decreases s.len() - i,
{
    if !(0 <= i < s.len()) {
        s.len() as int
    } else if is_insignificant(s[i]) {
        skip_ws_end(s, i + 1)
    } else if s[i] == '#' {
        if i < comment_end(s, i + 1) && comment_end(s, i + 1) <= s.len() {
            skip_ws_end(s, comment_end(s, i + 1))
        } else {
            s.len() as int
        }
    } else {
        i
    }
}

// ---------------------------------------------------------------------------
// Shape rules for numeric literals
// ---------------------------------------------------------------------------

pub open spec fn all_digits(s: Seq<char>) -> bool {
    forall|i: int| 0 <= i < s.len() ==> is_digit(#[trigger] s[i])
}

/// The shape of a valid integer literal: `0`, `-0`, or a string that does
/// not begin with `0`, is not a bare `-`, does not begin `-0`, and has only
/// digits after its first character.
pub open spec fn check_int_spec(s: Seq<char>) -> bool {
    s =~= seq!['0'] || s =~= seq!['-', '0'] || (s.len() >= 1 && s[0] != '0' && !(s.len() == 1
        && s[0] == '-') && !(s.len() >= 2 && s[0] == '-' && s[1] == '0') && all_digits(
        s.subrange(1, s.len() as int),
    ))
}

/// The shape of a fractional part: one or more digits.
pub open spec fn check_dec_spec(s: Seq<char>) -> bool {
    s.len() > 0 && all_digits(s)
}

/// The shape of an exponent part: an explicit sign, then one or more digits.
pub open spec fn check_exp_spec(s: Seq<char>) -> bool {
    s.len() >= 2 && (s[0] == '-' || s[0] == '+') && all_digits(s.subrange(1, s.len() as int))
}

/// The shape of a valid float literal, given the indices of the last `.`
/// and the last `e`/`E` within it: integer part, then an optional fraction,
/// then an optional signed exponent.
pub open spec fn check_float_spec(v: Seq<char>, exponent: Option<int>, frac: Option<int>) -> bool {
    match (exponent, frac) {
        (Some(e), Some(r)) => if e < r {
            false
        } else {
            check_int_spec(v.subrange(0, r)) && check_dec_spec(v.subrange(r + 1, e))
                && check_exp_spec(v.subrange(e + 1, v.len() as int))
        },
        (Some(e), None) => check_int_spec(v.subrange(0, e)) && check_exp_spec(
            v.subrange(e + 1, v.len() as int),
        ),
        (None, Some(r)) => check_int_spec(v.subrange(0, r)) && check_dec_spec(
            v.subrange(r + 1, v.len() as int),
        ),
        (None, None) => false,
    }
}

// ---------------------------------------------------------------------------
// The next token
// ---------------------------------------------------------------------------

/// What lexing finds at offset `off`: a token of some kind and length, the
/// end of the input, or a lexical error.
pub enum Lexed {
    Token { kind: Kind, len: int },
    End,
    Error { err: TokenError },
}

/// Classifies the lexeme beginning at `off`, mirroring the lexing rules:
/// punctuators, `...`, names, numeric literals with shape validation,
/// single-line strings and block strings.
pub open spec fn peek_token_spec(s: Seq<char>, off: int) -> Lexed {
    if !(0 <= off < s.len()) {
        Lexed::End
    } else {
        let c = s[off];
        if is_punct_char(c) {
            Lexed::Token { kind: Kind::Punctuator, len: 1 }
        } else if c == '.' {
            if off + 3 <= s.len() && s[off + 1] == '.' && s[off + 2] == '.' {
                Lexed::Token { kind: Kind::Punctuator, len: 3 }
            } else {
                Lexed::Error { err: TokenError::BareDot }
            }
        } else if is_name_start(c) {
            Lexed::Token { kind: Kind::Name, len: name_end(s, off + 1) - off }
        } else if c == '-' || is_digit(c) {
            let end = num_end(s, off + 1);
            let lex = s.subrange(off, end);
            let dot = last_dot(s, off + 1, end);
            let exp = last_exp(s, off + 1, end);
            if dot is Some || exp is Some {
                if check_float_spec(lex, shift_opt(exp, off), shift_opt(dot, off)) {
                    Lexed::Token { kind: Kind::FloatValue, len: end - off }
                } else {
                    Lexed::Error { err: TokenError::UnsupportedFloat }
                }
            } else {
                if check_int_spec(lex) {
                    Lexed::Token { kind: Kind::IntValue, len: end - off }
                } else {
                    Lexed::Error { err: TokenError::UnsupportedInt }
                }
            }
        } else if c == '"' {
            if off + 3 <= s.len() && s[off + 1] == '"' && s[off + 2] == '"' {
                match block_close(s, off + 3, off + 3) {
                    Some(j) => Lexed::Token { kind: Kind::BlockString, len: j + 3 - off },
                    None => Lexed::Error { err: TokenError::UnterminatedBlockString },
                }
            } else {
                match string_close(s, off + 1) {
                    Some(j) => Lexed::Token { kind: Kind::StringValue, len: j + 1 - off },
                    None => Lexed::Error { err: TokenError::UnterminatedString },
                }
            }
        } else {
            Lexed::Error { err: TokenError::UnexpectedCharacter }
        }
    }
}

/// Rebases an absolute marker index against the start of the lexeme.
pub open spec fn shift_opt(o: Option<int>, off: int) -> Option<int> {
    match o {
        None => None,
        Some(i) => Some(i - off),
    }
}

pub open spec fn opt_int(o: Option<usize>) -> Option<int> {
    match o {
        None => None,
        Some(i) => Some(i as int),
    }
}

// ---------------------------------------------------------------------------
// Executable character classes
// ---------------------------------------------------------------------------

fn punct_char(c: char) -> (r: bool)
    ensures
        r == is_punct_char(c),
{
    c == '!' || c == '$' || c == ':' || c == '=' || c == '@' || c == '|' || c == '(' || c == ')'
        || c == '[' || c == ']' || c == '{' || c == '}'
}

fn digit_char(c: char) -> (r: bool)
    ensures
        r == is_digit(c),
{
    '0' <= c && c <= '9'
}

fn name_start_char(c: char) -> (r: bool)
    ensures
        r == is_name_start(c),
{
    c == '_' || ('a' <= c && c <= 'z') || ('A' <= c && c <= 'Z')
}

fn name_cont_at(buf: &Vec<char>, i: usize) -> (r: bool)
    requires
        i < buf@.len(),
    ensures
        r == is_name_cont(buf@[i as int]),
{
    let c = buf[i];
    name_start_char(c) || digit_char(c)
}

fn num_break_at(buf: &Vec<char>, i: usize) -> (r: bool)
    requires
        i < buf@.len(),
    ensures
        r == is_num_break(buf@[i as int]),
{
    let c = buf[i];
    c == ' ' || c == '\n' || c == '\r' || c == '\t' || c == ',' || c == '#' || punct_char(c)
}

fn insignificant_char(c: char) -> (r: bool)
    ensures
        r == is_insignificant(c),
{
    c == '\u{feff}' || c == '\t' || c == ' ' || c == '\r' || c == '\n' || c == ','
}

// ---------------------------------------------------------------------------
// Executable scanners
// ---------------------------------------------------------------------------

fn scan_name_end(buf: &Vec<char>, i0: usize) -> (r: usize)
    requires
        i0 <= buf@.len(),
    ensures
        r == name_end(buf@, i0 as int),
        i0 <= r <= buf@.len(),
{
    let n: usize = buf.len();
    let mut i: usize = i0;
    while i < n && name_cont_at(buf, i)
        invariant
            i0 <= i <= n,
            n == buf@.len(),
            name_end(buf@, i0 as int) == name_end(buf@, i as int),
        decreases n - i,
    {
        i = i + 1;
    }
    i
}

/// Scans a numeric lexeme beginning just before `i0`: returns where it ends
/// and the indices of the last `.` and the last `e`/`E` seen inside it.
fn scan_num(buf: &Vec<char>, i0: usize) -> (r: (usize, Option<usize>, Option<usize>))
    requires
        1 <= i0 <= buf@.len(),
    ensures
        r.0 == num_end(buf@, i0 as int),
        i0 <= r.0 <= buf@.len(),
        opt_int(r.1) == last_dot(buf@, i0 as int, r.0 as int),
        opt_int(r.2) == last_exp(buf@, i0 as int, r.0 as int),
        match r.1 {
            Some(d) => i0 <= d < r.0 && buf@[d as int] == '.',
            None => true,
        },
        match r.2 {
            Some(e) => i0 <= e < r.0 && (buf@[e as int] == 'e' || buf@[e as int] == 'E'),
            None => true,
        },
{
    let n: usize = buf.len();
    let mut i: usize = i0;
    let mut dot: Option<usize> = None;
    let mut exp: Option<usize> = None;
    while i < n && !num_break_at(buf, i)
        invariant
            i0 <= i <= n,
            n == buf@.len(),
            num_end(buf@, i0 as int) == num_end(buf@, i as int),
            opt_int(dot) == last_dot(buf@, i0 as int, i as int),
            opt_int(exp) == last_exp(buf@, i0 as int, i as int),
            match dot {
                Some(d) => i0 <= d < i && buf@[d as int] == '.',
                None => true,
            },
            match exp {
                Some(e) => i0 <= e < i && (buf@[e as int] == 'e' || buf@[e as int] == 'E'),
                None => true,
            },
        decreases n - i,
    {
        let c = buf[i];
        if c == '.' {
            dot = Some(i);
        } else if c == 'e' || c == 'E' {
            exp = Some(i);
        }
        i = i + 1;
    }
    (i, dot, exp)
}

fn close_quote_at(buf: &Vec<char>, i: usize) -> (r: bool)
    requires
        1 <= i < buf@.len(),
    ensures
        r == (buf@[i as int] == '"' && buf@[i as int - 1] != '\\'),
{
    buf[i] == '"' && buf[i - 1] != '\\'
}

fn scan_string_close(buf: &Vec<char>, i0: usize) -> (r: Option<usize>)
    requires
        1 <= i0 <= buf@.len(),
    ensures
        opt_int(r) == string_close(buf@, i0 as int),
        match r {
            Some(j) => i0 <= j < buf@.len(),
            None => true,
        },
{
    let n: usize = buf.len();
    let mut i: usize = i0;
    while i < n && !close_quote_at(buf, i)
        invariant
            1 <= i0 <= i <= n,
            n == buf@.len(),
            string_close(buf@, i0 as int) == string_close(buf@, i as int),
        decreases n - i,
    {
        i = i + 1;
    }
    if i < n {
        Some(i)
    } else {
        None
    }
}

fn triple_at(buf: &Vec<char>, i: usize) -> (r: bool)
    requires
        i + 3 <= buf@.len(),
    ensures
        r == (buf@[i as int] == '"' && buf@[i as int + 1] == '"' && buf@[i as int + 2] == '"'),
{
    let n: usize = buf.len();
    buf[i] == '"' && buf[i + 1] == '"' && buf[i + 2] == '"'
}

fn scan_triple(buf: &Vec<char>, i0: usize) -> (r: Option<usize>)
    requires
        i0 <= buf@.len(),
    ensures
        opt_int(r) == find_triple_quote(buf@, i0 as int),
        match r {
            Some(j) => i0 <= j && j + 3 <= buf@.len(),
            None => true,
        },
{
    let n: usize = buf.len();
    let mut i: usize = i0;
    while n - i >= 3 && !triple_at(buf, i)
        invariant
            i0 <= i,
            i <= n,
            n == buf@.len(),
            find_triple_quote(buf@, i0 as int) == find_triple_quote(buf@, i as int),
        decreases n - i,
    {
        i = i + 1;
    }
    if n - i >= 3 {
        Some(i)
    } else {
        None
    }
}

fn scan_block_close(buf: &Vec<char>, start: usize) -> (r: Option<usize>)
    requires
        start <= buf@.len(),
    ensures
        opt_int(r) == block_close(buf@, start as int, start as int),
        match r {
            Some(j) => start <= j && j + 3 <= buf@.len(),
            None => true,
        },
{
    let n: usize = buf.len();
    let mut i: usize = start;
    loop
        invariant
            start <= i <= n,
            n == buf@.len(),
            block_close(buf@, start as int, start as int) == block_close(
                buf@,
                start as int,
                i as int,
            ),
        ensures
            match block_close(buf@, start as int, start as int) {
                Some(j) => start <= j && j + 3 <= buf@.len(),
                None => true,
            },
            opt_int(
                match block_close(buf@, start as int, start as int) {
                    Some(j) => Some(j as usize),
                    None => None,
                },
            ) == block_close(buf@, start as int, start as int),
        decreases n - i,
    {
        match scan_triple(buf, i) {
            None => {
                return None;
            },
            Some(j) => {
                if j == start || buf[j - 1] != '\\' {
                    return Some(j);
                }
                i = j + 3;
            },
        }
    }
}

// ---------------------------------------------------------------------------
// Shape checks, over a range of the character buffer and over `&str`
// ---------------------------------------------------------------------------

fn all_digits_range(buf: &Vec<char>, start: usize, end: usize) -> (r: bool)
    requires
        start <= end <= buf@.len(),
    ensures
        r == all_digits(buf@.subrange(start as int, end as int)),
{
    let mut i: usize = start;
    while i < end && digit_at(buf, i)
        invariant
            start <= i <= end <= buf@.len(),
            forall|k: int| start <= k < i ==> is_digit(#[trigger] buf@[k]),
        decreases end - i,
    {
        i = i + 1;
    }
    if i < end {
        proof {
            assert(buf@.subrange(start as int, end as int)[i - start] == buf@[i as int]);
        }
        false
    } else {
        proof {
            assert forall|k: int| 0 <= k < end - start implies is_digit(
                #[trigger] buf@.subrange(start as int, end as int)[k],
            ) by {
                assert(buf@.subrange(start as int, end as int)[k] == buf@[start + k]);
            }
        }
        true
    }
}

fn digit_at(buf: &Vec<char>, i: usize) -> (r: bool)
    requires
        i < buf@.len(),
    ensures
        r == is_digit(buf@[i as int]),
{
    digit_char(buf[i])
}

fn check_int_range(buf: &Vec<char>, start: usize, end: usize) -> (r: bool)
    requires
        start <= end <= buf@.len(),
    ensures
        r == check_int_spec(buf@.subrange(start as int, end as int)),
{
    let ghost s = buf@.subrange(start as int, end as int);
    let n: usize = end - start;
    if n == 0 {
        return false;
    }
    let first = buf[start];
    if first == '0' {
        proof {
            if n == 1 {
                assert(s =~= seq!['0']);
            }
        }
        return n == 1;
    }
    if first == '-' {
        if n == 1 {
            proof {
                assert(s.len() == 1 && s[0] == '-');
            }
            return false;
        }
        if buf[start + 1] == '0' {
            proof {
                if n == 2 {
                    assert(s =~= seq!['-', '0']);
                }
            }
            return n == 2;
        }
        proof {
            assert(buf@.subrange(start as int + 1, end as int) =~= s.subrange(1, s.len() as int));
        }
        return all_digits_range(buf, start + 1, end);
    }
    proof {
        assert(buf@.subrange(start as int + 1, end as int) =~= s.subrange(1, s.len() as int));
    }
    all_digits_range(buf, start + 1, end)
}

fn check_dec_range(buf: &Vec<char>, start: usize, end: usize) -> (r: bool)
    requires
        start <= end <= buf@.len(),
    ensures
        r == check_dec_spec(buf@.subrange(start as int, end as int)),
{
    end > start && all_digits_range(buf, start, end)
}

fn check_exp_range(buf: &Vec<char>, start: usize, end: usize) -> (r: bool)
    requires
        start <= end <= buf@.len(),
    ensures
        r == check_exp_spec(buf@.subrange(start as int, end as int)),
{
    let ghost s = buf@.subrange(start as int, end as int);
    if end - start < 2 {
        return false;
    }
    let first = buf[start];
    if !(first == '-' || first == '+') {
        return false;
    }
    proof {
        assert(buf@.subrange(start as int + 1, end as int) =~= s.subrange(1, s.len() as int));
    }
    all_digits_range(buf, start + 1, end)
}

fn check_float_range(
    buf: &Vec<char>,
    start: usize,
    end: usize,
    exponent: Option<usize>,
    fract: Option<usize>,
) -> (r: bool)
    requires
        start <= end <= buf@.len(),
        match exponent {
            Some(e) => start < e < end,
            None => true,
        },
        match fract {
            Some(f) => start < f < end,
            None => true,
        },
        match (exponent, fract) {
            (Some(e), Some(f)) => e != f,
            _ => true,
        },
    ensures
        r == check_float_spec(
            buf@.subrange(start as int, end as int),
            shift_opt(opt_int(exponent), start as int),
            shift_opt(opt_int(fract), start as int),
        ),
{
    let ghost s = buf@.subrange(start as int, end as int);
    match (exponent, fract) {
        (Some(e), Some(f)) => {
            if e < f {
                false
            } else {
                proof {
                    assert(buf@.subrange(start as int, f as int) =~= s.subrange(0, f - start));
                    assert(buf@.subrange(f as int + 1, e as int) =~= s.subrange(
                        f - start + 1,
                        e - start,
                    ));
                    assert(buf@.subrange(e as int + 1, end as int) =~= s.subrange(
                        e - start + 1,
                        s.len() as int,
                    ));
                }
                check_int_range(buf, start, f) && check_dec_range(buf, f + 1, e)
                    && check_exp_range(buf, e + 1, end)
            }
        },
        (Some(e), None) => {
            proof {
                assert(buf@.subrange(start as int, e as int) =~= s.subrange(0, e - start));
                assert(buf@.subrange(e as int + 1, end as int) =~= s.subrange(
                    e - start + 1,
                    s.len() as int,
                ));
            }
            check_int_range(buf, start, e) && check_exp_range(buf, e + 1, end)
        },
        (None, Some(f)) => {
            proof {
                assert(buf@.subrange(start as int, f as int) =~= s.subrange(0, f - start));
                assert(buf@.subrange(f as int + 1, end as int) =~= s.subrange(
                    f - start + 1,
                    s.len() as int,
                ));
            }
            check_int_range(buf, start, f) && check_dec_range(buf, f + 1, end)
        },
        (None, None) => false,
    }
}

/// Whether `value` has the shape of a valid integer literal.
pub fn check_int(value: &str) -> (r: bool)
    ensures
        r == check_int_spec(value@),
{
    let buf = str_chars(value);
    let n: usize = buf.len();
    proof {
        assert(buf@.subrange(0, n as int) =~= value@);
    }
    check_int_range(&buf, 0, n)
}

/// Whether `value` has the shape of a valid fractional part.
pub fn check_dec(value: &str) -> (r: bool)
    ensures
        r == check_dec_spec(value@),
{
    let buf = str_chars(value);
    let n: usize = buf.len();
    proof {
        assert(buf@.subrange(0, n as int) =~= value@);
    }
    check_dec_range(&buf, 0, n)
}

/// Whether `value` has the shape of a valid exponent part.
pub fn check_exp(value: &str) -> (r: bool)
    ensures
        r == check_exp_spec(value@),
{
    let buf = str_chars(value);
    let n: usize = buf.len();
    proof {
        assert(buf@.subrange(0, n as int) =~= value@);
    }
    check_exp_range(&buf, 0, n)
}

/// Whether `value` has the shape of a valid float literal, `exponent` and
/// `fract` being the indices of the last `e`/`E` and the last `.` within it.
pub fn check_float(value: &str, exponent: Option<usize>, fract: Option<usize>) -> (r: bool)
    requires
        match exponent {
            Some(e) => 0 < e < value@.len(),
            None => true,
        },
        match fract {
            Some(f) => 0 < f < value@.len(),
            None => true,
        },
        match (exponent, fract) {
            (Some(e), Some(f)) => e != f,
            _ => true,
        },
    ensures
        r == check_float_spec(value@, opt_int(exponent), opt_int(fract)),
{
    let buf = str_chars(value);
    let n: usize = buf.len();
    proof {
        assert(buf@.subrange(0, n as int) =~= value@);
        assert(shift_opt(opt_int(exponent), 0) == opt_int(exponent));
        assert(shift_opt(opt_int(fract), 0) == opt_int(fract));
    }
    check_float_range(&buf, 0, n, exponent, fract)
}


/// Scanning for a numeric lexeme's end stays inside the text.
pub proof fn lemma_num_end_bounds(s: Seq<char>, i: int)
    requires
        0 <= i <= s.len(),
    ensures
        i <= num_end(s, i) <= s.len(),
    decreases s.len() - i,
{
    if i < s.len() && !is_num_break(s[i]) {
        lemma_num_end_bounds(s, i + 1);
    }
}

/// An integer token's text passed the integer shape rule and begins with a
/// digit or a minus.
pub proof fn lemma_int_token_shape(s: Seq<char>, off: int)
    requires
        0 <= off,
    ensures
        match peek_token_spec(s, off) {
            Lexed::Token { kind, len } => kind == Kind::IntValue ==> (check_int_spec(
                s.subrange(off, off + len),
            ) && len > 0 && off + len <= s.len() && (s[off] == '-' || is_digit(s[off]))),
            Lexed::End => true,
            Lexed::Error { err } => true,
        },
{
    if 0 <= off < s.len() {
        let c = s[off];
        if !is_punct_char(c) && c != '.' && !is_name_start(c) && (c == '-' || is_digit(c)) {
            lemma_num_end_bounds(s, off + 1);
            let end = num_end(s, off + 1);
            assert(s.subrange(off, off + (end - off)) =~= s.subrange(off, end));
        }
    }
}

// ---------------------------------------------------------------------------
// The token stream
// ---------------------------------------------------------------------------

/// Where a cursor that started at line 1, column 1 stands after the first
/// `off` characters of `s`.
pub open spec fn pos_wf(p: Pos, s: Seq<char>, off: int) -> bool {
    &&& p.line as nat == advanced_line(1, s.take(off))
    &&& p.column as nat == advanced_column(1, s.take(off))
}

/// The source text together with a cursor: the characters, the offset of the
/// next token, and the (line, column) of that offset.
pub struct TokenStream {
    pub buf: Vec<char>,
    pub pos: Pos,
    pub off: usize,
}

/// A saved cursor, for backtracking.
#[derive(Clone, Copy, Debug)]
pub struct Checkpoint {
    pub pos: Pos,
    pub off: usize,
}

impl TokenStream {
    /// The stream is inside its buffer, past all insignificant content, and
    /// its position matches its offset.
    pub open spec fn wf(self) -> bool {
        &&& self.off <= self.buf@.len()
        &&& self.buf@.len() < usize::MAX
        &&& pos_wf(self.pos, self.buf@, self.off as int)
        &&& self.off as int == skip_ws_end(self.buf@, self.off as int)
    }

    /// A checkpoint earlier taken from this stream (whose buffer never
    /// changes) can be restored into it.
    pub open spec fn valid_checkpoint(self, cp: Checkpoint) -> bool {
        &&& cp.off <= self.buf@.len()
        &&& pos_wf(cp.pos, self.buf@, cp.off as int)
        &&& cp.off as int == skip_ws_end(self.buf@, cp.off as int)
    }

    /// Begins lexing `s`: the cursor starts at line 1, column 1 and moves
    /// past any leading insignificant content.
    pub fn new(s: &str) -> (r: TokenStream)
        requires
            s@.len() < usize::MAX,
        ensures
            r.wf(),
            r.buf@ == s@,
            r.off as int == skip_ws_end(s@, 0),
    {
        let buf = str_chars(s);
        let mut me = TokenStream { buf, pos: Pos { line: 1, column: 1 }, off: 0 };
        proof {
            assert(me.buf@.take(0) =~= Seq::<char>::empty());
        }
        me.skip_whitespace();
        me
    }

    /// The position of the next token (or of the end of the input).
    pub fn position(&self) -> (r: Pos)
        ensures
            r == self.pos,
    {
        self.pos
    }

    /// Saves the cursor, so that a failed grammatical alternative can be
    /// undone.
    pub fn checkpoint(&self) -> (r: Checkpoint)
        ensures
            r.pos == self.pos,
            r.off == self.off,
            self.wf() ==> self.valid_checkpoint(r),
    {
        Checkpoint { pos: self.pos, off: self.off }
    }

    /// Restores a cursor saved from this stream.
    pub fn reset(&mut self, checkpoint: Checkpoint)
        requires
            old(self).valid_checkpoint(checkpoint),
            old(self).buf@.len() < usize::MAX,
        ensures
            final(self).wf(),
            final(self).buf@ == old(self).buf@,
            final(self).off == checkpoint.off,
            final(self).pos == checkpoint.pos,
    {
        self.pos = checkpoint.pos;
        self.off = checkpoint.off;
    }

    /// Advances the cursor over `len` consumed characters, keeping the
    /// line/column in step with the offset.
    fn update_position(&mut self, len: usize)
        requires
            old(self).off + len <= old(self).buf@.len(),
            old(self).buf@.len() < usize::MAX,
            pos_wf(old(self).pos, old(self).buf@, old(self).off as int),
        ensures
            final(self).buf@ == old(self).buf@,
            final(self).off == old(self).off + len,
            pos_wf(final(self).pos, final(self).buf@, final(self).off as int),
    {
        let ghost s = self.buf@;
        let ghost off0 = self.off as int;
        let ghost span = s.subrange(off0, off0 + len);
        proof {
            crate::position::lemma_counts_bounded(s.take(off0));
            assert(s.take(off0).len() == off0);
        }
        let mut line: usize = self.pos.line;
        let mut column: usize = self.pos.column;
        let mut k: usize = 0;
        while k < len
            invariant
                k <= len,
                self.off + len <= s.len(),
                s.len() < usize::MAX,
                s == self.buf@,
                off0 == self.off as int,
                span == s.subrange(off0, off0 + len),
                line as nat == advanced_line(old(self).pos.line as nat, span.take(k as int)),
                column as nat == advanced_column(old(self).pos.column as nat, span.take(k as int)),
                old(self).pos.line <= 1 + off0,
                old(self).pos.column <= 1 + off0,
                line <= old(self).pos.line + k,
                column <= old(self).pos.column + k || column <= 1 + k,
            decreases len - k,
        {
            let ghost prefix = span.take(k as int);
            let c = self.buf[self.off + k];
            proof {
                assert(span.take(k as int + 1).drop_last() =~= prefix);
                assert(span.take(k as int + 1).last() == c);
                crate::position::lemma_counts_bounded(prefix);
            }
            if c == '\n' {
                line = line + 1;
                column = 1;
            } else {
                column = column + 1;
            }
            k = k + 1;
        }
        proof {
            assert(span.take(len as int) =~= span);
            crate::position::lemma_counts_concat(s.take(off0), span);
            assert(s.take(off0 + len) =~= s.take(off0) + span);
        }
        self.pos = Pos { line, column };
        self.off = self.off + len;
    }

    /// Moves the cursor past insignificant content: whitespace, commas and
    /// comments.
    fn skip_whitespace(&mut self)
        requires
            old(self).off <= old(self).buf@.len(),
            old(self).buf@.len() < usize::MAX,
            pos_wf(old(self).pos, old(self).buf@, old(self).off as int),
        ensures
            final(self).buf@ == old(self).buf@,
            final(self).off as int == skip_ws_end(old(self).buf@, old(self).off as int),
            old(self).off <= final(self).off,
            pos_wf(final(self).pos, final(self).buf@, final(self).off as int),
            final(self).wf(),
    {
        let ghost s = self.buf@;
        let off = self.off;
        let n: usize = self.buf.len();
        let mut i: usize = off;
        loop
            invariant
                off <= i <= n,
                n == s.len(),
                s == self.buf@,
                skip_ws_end(s, off as int) == skip_ws_end(s, i as int),
            ensures
                off <= i <= n,
                i as int == skip_ws_end(s, off as int),
            decreases n - i,
        {
            if i >= n {
                break ;
            }
            let c = self.buf[i];
            if insignificant_char(c) {
                i = i + 1;
            } else if c == '#' {
                let mut j: usize = i + 1;
                while j < n && !newline_at(&self.buf, j)
                    invariant
                        i + 1 <= j <= n,
                        n == s.len(),
                        s == self.buf@,
                        comment_end(s, i as int + 1) == comment_end(s, j as int),
                    decreases n - j,
                {
                    j = j + 1;
                }
                let ce: usize = if j < n {
                    j + 1
                } else {
                    n
                };
                proof {
                    assert(ce as int == comment_end(s, i as int + 1));
                }
                i = ce;
            } else {
                break ;
            }
        }
        let ghost pos0 = self.pos;
        self.update_position(i - off);
        proof {
            // the skipped span ends at significant content, so the stream
            // stays past all insignificant content
            assert(skip_ws_end(s, i as int) == i as int);
        }
    }

    /// Classifies the lexeme at the cursor without consuming it.
    fn peek_token(&self) -> (r: Result<(Kind, usize), TokenError>)
        requires
            self.off <= self.buf@.len(),
        ensures
            match peek_token_spec(self.buf@, self.off as int) {
                Lexed::Token { kind, len } => r matches Ok(p) && p.0 == kind && p.1 as int == len
                    && 1 <= len && self.off + len <= self.buf@.len(),
                Lexed::End => r matches Err(e) && e == TokenError::EndOfInput,
                Lexed::Error { err } => r matches Err(e) && e == err,
            },
    {
        let ghost s = self.buf@;
        let off = self.off;
        let n: usize = self.buf.len();
        if off >= n {
            return Err(TokenError::EndOfInput);
        }
        let c = self.buf[off];
        if punct_char(c) {
            return Ok((Kind::Punctuator, 1));
        }
        if c == '.' {
            if n - off >= 3 && self.buf[off + 1] == '.' && self.buf[off + 2] == '.' {
                return Ok((Kind::Punctuator, 3));
            }
            return Err(TokenError::BareDot);
        }
        if name_start_char(c) {
            let end = scan_name_end(&self.buf, off + 1);
            return Ok((Kind::Name, end - off));
        }
        if c == '-' || digit_char(c) {
            let (end, dot, exp) = scan_num(&self.buf, off + 1);
            if dot.is_some() || exp.is_some() {
                if check_float_range(&self.buf, off, end, exp, dot) {
                    return Ok((Kind::FloatValue, end - off));
                }
                return Err(TokenError::UnsupportedFloat);
            }
            if check_int_range(&self.buf, off, end) {
                return Ok((Kind::IntValue, end - off));
            }
            return Err(TokenError::UnsupportedInt);
        }
        if c == '"' {
            if n - off >= 3 && self.buf[off + 1] == '"' && self.buf[off + 2] == '"' {
                match scan_block_close(&self.buf, off + 3) {
                    Some(j) => {
                        return Ok((Kind::BlockString, j + 3 - off));
                    },
                    None => {
                        return Err(TokenError::UnterminatedBlockString);
                    },
                }
            }
            match scan_string_close(&self.buf, off + 1) {
                Some(j) => {
                    return Ok((Kind::StringValue, j + 1 - off));
                },
                None => {
                    return Err(TokenError::UnterminatedString);
                },
            }
        }
        Err(TokenError::UnexpectedCharacter)
    }

    /// Consumes and returns the next token, then moves past any
    /// insignificant content that follows it. At the end of the input, or on
    /// a lexical error, the stream does not move.
    pub fn uncons(&mut self) -> (r: Result<Token, TokenError>)
        requires
            old(self).wf(),
        ensures
            final(self).wf(),
            final(self).buf@ == old(self).buf@,
            match peek_token_spec(old(self).buf@, old(self).off as int) {
                Lexed::Token { kind, len } => {
                    &&& r matches Ok(t) && t.kind == kind
                    &&& r matches Ok(t) && t.value@ == old(self).buf@.subrange(
                        old(self).off as int,
                        old(self).off + len,
                    )
                    &&& final(self).off as int == skip_ws_end(old(self).buf@, old(self).off + len)
                    &&& old(self).off < final(self).off
                },
                Lexed::End => r matches Err(e) && e == TokenError::EndOfInput && final(self).off
                    == old(self).off && final(self).pos == old(self).pos,
                Lexed::Error { err } => r matches Err(e) && e == err && final(self).off == old(
                    self,
                ).off && final(self).pos == old(self).pos,
            },
    {
        match self.peek_token() {
            Err(e) => Err(e),
            Ok((kind, len)) => {
                let value = string_from_range(&self.buf, self.off, self.off + len);
                self.update_position(len);
                self.skip_whitespace();
                Ok(Token { kind, value })
            },
        }
    }
}

fn newline_at(buf: &Vec<char>, j: usize) -> (r: bool)
    requires
        j < buf@.len(),
    ensures
        r == (buf@[j as int] == '\r' || buf@[j as int] == '\n'),
{
    let c = buf[j];
    c == '\r' || c == '\n'
}

} // verus!
