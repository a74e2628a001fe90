//! The grammar parser: recursive descent with backtracking alternation over
//! the token stream, together with the literal decoders. Every production is
//! specified against a mathematical twin (the `p_..` spec functions) that
//! maps a source offset to the AST mirror produced and the offset reached.
use vstd::prelude::*;

use crate::chars::{char_from_u32, push_char, str_chars};
use crate::helpers::{eof, err_here, ident, kind, name, p_eof, p_ident, p_kind, p_name, p_punct, punct, PRes};
use crate::query::{
    arguments_view, definition_view, definitions_view, directive_view, directives_view,
    document_view, field_view, fragment_definition_view, operation_definition_view,
    directives_seq_view, opt_string_view, opt_type_condition_view, pairs_view,
    selection_set_view, selection_view, variable_definitions_seq_view,
    selections_view, type_condition_view, value_view, values_view, variable_definition_view,
    variable_definitions_view, variable_type_view, Definition, DefinitionV, Directive, DirectiveV, Document,
    DocumentV, Field, FieldV, FragmentDefinition, FragmentDefinitionV, FragmentSpread,
    FragmentSpreadV, InlineFragment, InlineFragmentV, Mutation, OperationBodyV,
    OperationDefinition, OperationDefinitionV, Query, Selection, SelectionSet, SelectionSetV,
    SelectionV, Subscription, TypeCondition, TypeConditionV, Value, ValueV, VariableDefinition,
    VariableDefinitionV, VariableType, VariableTypeV,
};
use crate::query_error::{ParseErrorKind, QueryParseError};
use crate::tokenizer::{is_digit, Kind as T, TokenStream};

verus! {

/// The sentinel for a field without braces: no selections.
pub fn empty_selection() -> (r: SelectionSet)
    ensures
        r.items@.len() == 0,
        selection_set_view(r) == (SelectionSetV { items: Seq::<SelectionV>::empty() }),
{
    let r = SelectionSet { items: Vec::new() };
    proof {
        assert(selections_view(r.items@) =~= Seq::<SelectionV>::empty());
    }
    r
}

// ---------------------------------------------------------------------------
// Integer literals: digits to value, with an exact range check
// ---------------------------------------------------------------------------

/// The numeric value of a digit string.
pub open spec fn digits_val(s: Seq<char>) -> int
    decreases s.len(),
{
    if s.len() == 0 {
        0
    } else {
        digits_val(s.drop_last()) * 10 + (s.last() as u32 - 48)
    }
}

/// The value of an integer literal: an optional leading minus, then digits.
pub open spec fn str_int(s: Seq<char>) -> int {
    if s.len() > 0 && s[0] == '-' {
        -digits_val(s.subrange(1, s.len() as int))
    } else {
        digits_val(s)
    }
}

/// Whether the literal's value fits the AST's integer representation.
pub open spec fn int_fits(s: Seq<char>) -> bool {
    i64::MIN <= str_int(s) <= i64::MAX
}

proof fn lemma_digits_val_nonneg(s: Seq<char>)
    requires
        crate::tokenizer::all_digits(s),
    ensures
        digits_val(s) >= 0,
    decreases s.len(),
{
    if s.len() > 0 {
        assert(crate::tokenizer::all_digits(s.drop_last())) by {
            assert(forall|i: int|
                0 <= i < s.len() - 1 ==> s.drop_last()[i] == #[trigger] s[i]);
        }
        lemma_digits_val_nonneg(s.drop_last());
        assert(is_digit(s[s.len() - 1]));
    }
}

/// A digit string's value only grows as digits are appended.
proof fn lemma_digits_val_prefix(s: Seq<char>, k: int)
    requires
        crate::tokenizer::all_digits(s),
        0 <= k <= s.len(),
    ensures
        digits_val(s) >= digits_val(s.take(k)),
    decreases s.len() - k,
{
    if k < s.len() {
        lemma_digits_val_prefix(s, k + 1);
        assert(s.take(k + 1).drop_last() =~= s.take(k));
        assert(s.take(k + 1).last() == s[k]);
        assert(crate::tokenizer::all_digits(s.take(k))) by {
            assert(forall|i: int| 0 <= i < k ==> s.take(k)[i] == #[trigger] s[i]);
        }
        lemma_digits_val_nonneg(s.take(k));
        assert(digits_val(s.take(k + 1)) == digits_val(s.take(k)) * 10 + (s[k] as u32 - 48));
        assert(digits_val(s.take(k)) * 10 >= digits_val(s.take(k))) by (nonlinear_arith)
            requires
                digits_val(s.take(k)) >= 0,
        ;
    } else {
        assert(s.take(k) =~= s);
    }
}

/// Converts the digit part of a validated integer lexeme to a value,
/// reporting a literal whose value does not fit instead of wrapping.
fn parse_int_digits(buf: &Vec<char>, start: usize, neg: bool) -> (r: Result<i64, ()>)
    requires
        start <= buf@.len(),
        crate::tokenizer::all_digits(buf@.subrange(start as int, buf@.len() as int)),
    ensures
        ({
            let digits = buf@.subrange(start as int, buf@.len() as int);
            let value = if neg {
                -digits_val(digits)
            } else {
                digits_val(digits)
            };
            match r {
                Ok(x) => i64::MIN <= value <= i64::MAX && x as int == value,
                Err(u) => !(i64::MIN <= value <= i64::MAX),
            }
        }),
{
    let ghost digits = buf@.subrange(start as int, buf@.len() as int);
    let n: usize = buf.len();
    // accumulate the negated value, so that the most negative value is
    // representable along the way
    let mut acc: i64 = 0;
    let mut i: usize = start;
    while i < n
        invariant
            start <= i <= n,
            n == buf@.len(),
            digits == buf@.subrange(start as int, n as int),
            crate::tokenizer::all_digits(digits),
            acc as int == -digits_val(digits.take(i - start)),
        decreases n - i,
    {
        let ghost prefix = digits.take(i - start);
        let c = buf[i];
        proof {
            assert(digits[i - start] == buf@[i as int]);
            assert(is_digit(c));
            assert(digits.take(i - start + 1).drop_last() =~= prefix);
            assert(digits.take(i - start + 1).last() == c);
        }
        let d: i64 = ((c as u32) - 48) as i64;
        let acc10 = match acc.checked_mul(10) {
            Some(v) => v,
            None => {
                proof {
                    lemma_digits_val_prefix(digits, i - start + 1);
                    lemma_digits_val_nonneg(prefix);
                    assert(digits_val(digits.take(i - start + 1)) == digits_val(prefix) * 10 + (
                    c as u32 - 48));
                    assert(digits_val(digits) >= digits_val(prefix) * 10);
                }
                return Err(());
            },
        };
        let acc2 = match acc10.checked_sub(d) {
            Some(v) => v,
            None => {
                proof {
                    lemma_digits_val_prefix(digits, i - start + 1);
                }
                return Err(());
            },
        };
        acc = acc2;
        i = i + 1;
    }
    proof {
        assert(digits.take(n - start) =~= digits);
    }
    if neg {
        Ok(acc)
    } else {
        if acc == i64::MIN {
            return Err(());
        }
        Ok(-acc)
    }
}

/// The value of a validated integer lexeme, or a range failure. The lexeme
/// comes from the lexer, so it passed the integer shape rule and begins with
/// a digit or a minus.
pub fn parse_int_literal(value: &str) -> (r: Result<i64, ()>)
    requires
        crate::tokenizer::check_int_spec(value@),
        value@.len() > 0,
        value@[0] == '-' || is_digit(value@[0]),
    ensures
        match r {
            Ok(x) => int_fits(value@) && x as int == str_int(value@),
            Err(u) => !int_fits(value@),
        },
{
    let buf = str_chars(value);
    let n: usize = buf.len();
    let ghost s = value@;
    if buf[0] == '-' {
        proof {
            assert(crate::tokenizer::all_digits(buf@.subrange(1, n as int))) by {
                if s =~= seq!['-', '0'] {
                    assert(forall|i: int|
                        0 <= i < s.subrange(1, s.len() as int).len() ==> is_digit(
                            #[trigger] s.subrange(1, s.len() as int)[i],
                        ));
                } else {
                    assert(!(s =~= seq!['0']));
                    assert(crate::tokenizer::all_digits(s.subrange(1, s.len() as int)));
                }
            }
        }
        parse_int_digits(&buf, 1, true)
    } else {
        proof {
            assert(is_digit(s[0]));
            assert(crate::tokenizer::all_digits(buf@.subrange(0, n as int))) by {
                if s =~= seq!['0'] {
                    assert(forall|i: int| 0 <= i < s.len() ==> is_digit(#[trigger] s[i]));
                } else {
                    assert(!(s =~= seq!['-', '0'])) by {
                        assert(s[0] != '-');
                    }
                    let tail = s.subrange(1, s.len() as int);
                    assert(crate::tokenizer::all_digits(tail));
                    assert forall|i: int| 0 <= i < s.len() implies is_digit(#[trigger] s[i]) by {
                        if i >= 1 {
                            assert(tail[i - 1] == s[i]);
                            assert(is_digit(tail[i - 1]));
                        }
                    }
                }
            }
            assert(buf@.subrange(0, n as int) =~= s);
        }
        parse_int_digits(&buf, 0, false)
    }
}

// ---------------------------------------------------------------------------
// Single-line string literals: escape processing
// ---------------------------------------------------------------------------

pub open spec fn is_hex(c: char) -> bool {
    is_digit(c) || ('a' <= c && c <= 'f') || ('A' <= c && c <= 'F')
}

/// The numeric value of one hex digit.
pub open spec fn hex_val(c: char) -> int {
    if is_digit(c) {
        c as u32 - 48
    } else if 'a' <= c && c <= 'f' {
        c as u32 - 87
    } else {
        c as u32 - 55
    }
}

pub open spec fn hex4_ok(s: Seq<char>, i: int) -> bool {
    0 <= i && i + 4 <= s.len() && is_hex(s[i]) && is_hex(s[i + 1]) && is_hex(s[i + 2]) && is_hex(
        s[i + 3],
    )
}

/// The value of four hex digits.
pub open spec fn hex4(s: Seq<char>, i: int) -> int {
    hex_val(s[i]) * 4096 + hex_val(s[i + 1]) * 256 + hex_val(s[i + 2]) * 16 + hex_val(s[i + 3])
}

/// Decodes the body of a single-line string from index `i` on: ordinary
/// characters stand for themselves; `\"`, `\\`, `\/`, `\b`, `\f`, `\n`,
/// `\r`, `\t` for the usual characters; `\uXXXX` for a code point, where a
/// high surrogate must be followed by a low surrogate and the pair names one
/// code point. Anything else escaped is a decode failure.
pub open spec fn string_unescape(inner: Seq<char>, i: int) -> Option<Seq<char>>
    decreases inner.len() - i,
{
    if i < 0 {
        None
    } else if i >= inner.len() {
        Some(Seq::empty())
    } else if inner[i] != '\\' {
        match string_unescape(inner, i + 1) {
            Some(rest) => Some(seq![inner[i]] + rest),
            None => None,
        }
    } else if i + 1 < inner.len() {
        let c = inner[i + 1];
        if c == '"' || c == '\\' || c == '/' {
            match string_unescape(inner, i + 2) {
                Some(rest) => Some(seq![c] + rest),
                None => None,
            }
        } else if c == 'b' {
            match string_unescape(inner, i + 2) {
                Some(rest) => Some(seq!['\u{0008}'] + rest),
                None => None,
            }
        } else if c == 'f' {
            match string_unescape(inner, i + 2) {
                Some(rest) => Some(seq!['\u{000C}'] + rest),
                None => None,
            }
        } else if c == 'n' {
            match string_unescape(inner, i + 2) {
                Some(rest) => Some(seq!['\n'] + rest),
                None => None,
            }
        } else if c == 'r' {
            match string_unescape(inner, i + 2) {
                Some(rest) => Some(seq!['\r'] + rest),
                None => None,
            }
        } else if c == 't' {
            match string_unescape(inner, i + 2) {
                Some(rest) => Some(seq!['\t'] + rest),
                None => None,
            }
        } else if c == 'u' {
            if hex4_ok(inner, i + 2) {
                let v = hex4(inner, i + 2);
                if 0xD800 <= v <= 0xDBFF {
                    if i + 8 <= inner.len() && inner[i + 6] == '\\' && inner[i + 7] == 'u'
                        && hex4_ok(inner, i + 8) {
                        let w = hex4(inner, i + 8);
                        if 0xDC00 <= w <= 0xDFFF {
                            let code = 0x10000 + (v - 0xD800) * 0x400 + (w - 0xDC00);
                            match string_unescape(inner, i + 12) {
                                Some(rest) => Some(seq![(code as u32) as char] + rest),
                                None => None,
                            }
                        } else {
                            None
                        }
                    } else {
                        None
                    }
                } else if 0xDC00 <= v <= 0xDFFF {
                    None
                } else {
                    match string_unescape(inner, i + 6) {
                        Some(rest) => Some(seq![(v as u32) as char] + rest),
                        None => None,
                    }
                }
            } else {
                None
            }
        } else {
            None
        }
    } else {
        None
    }
}

/// What decoding a raw quoted lexeme yields: the quotes stripped and every
/// escape processed, or nothing when an escape is invalid.
pub open spec fn unquote_string_spec(s: Seq<char>) -> Option<Seq<char>> {
    if s.len() >= 2 && s[0] == '"' && s[s.len() - 1] == '"' {
        string_unescape(s.subrange(1, s.len() - 1), 0)
    } else {
        None
    }
}

fn hex_digit_val(c: char) -> (r: Option<u32>)
    ensures
        match r {
            Some(x) => is_hex(c) && x == hex_val(c) && x <= 15,
            None => !is_hex(c),
        },
{
    if '0' <= c && c <= '9' {
        Some((c as u32) - 48)
    } else if 'a' <= c && c <= 'f' {
        Some((c as u32) - 87)
    } else if 'A' <= c && c <= 'F' {
        Some((c as u32) - 55)
    } else {
        None
    }
}

fn read_hex4(v: &Vec<char>, j: usize) -> (r: Option<u32>)
    requires
        j <= v@.len(),
    ensures
        match r {
            Some(x) => hex4_ok(v@, j as int) && x == hex4(v@, j as int) && x <= 0xFFFF,
            None => !hex4_ok(v@, j as int),
        },
{
    let n: usize = v.len();
    if n - j < 4 {
        return None;
    }
    let a = match hex_digit_val(v[j]) {
        Some(x) => x,
        None => {
            return None;
        },
    };
    let b = match hex_digit_val(v[j + 1]) {
        Some(x) => x,
        None => {
            return None;
        },
    };
    let c = match hex_digit_val(v[j + 2]) {
        Some(x) => x,
        None => {
            return None;
        },
    };
    let d = match hex_digit_val(v[j + 3]) {
        Some(x) => x,
        None => {
            return None;
        },
    };
    Some(a * 4096 + b * 256 + c * 16 + d)
}

/// Strips the surrounding quotes and processes every escape sequence,
/// refusing an escape the grammar does not know.
pub fn unquote_string(s: &str) -> (r: Result<String, ParseErrorKind>)
    ensures
        match unquote_string_spec(s@) {
            Some(t) => r matches Ok(out) && out@ == t,
            None => r matches Err(k) && k == ParseErrorKind::BadEscape,
        },
{
    let buf = str_chars(s);
    let n: usize = buf.len();
    if n < 2 || buf[0] != '"' || buf[n - 1] != '"' {
        return Err(ParseErrorKind::BadEscape);
    }
    let vin = crate::chars::chars_range(&buf, 1, n - 1);
    let ghost inner = vin@;
    let m: usize = vin.len();
    let mut out = String::new();
    let mut i: usize = 0;
    while i < m
        invariant
            0 <= i <= m,
            m == inner.len(),
            vin@ == inner,
            unquote_string_spec(s@) == string_unescape(inner, 0),
            match string_unescape(inner, i as int) {
                Some(rest) => string_unescape(inner, 0) == Some(out@ + rest),
                None => string_unescape(inner, 0) is None,
            },
        decreases m - i,
    {
        let ghost i0 = i as int;
        let ghost out0 = out@;
        let c = vin[i];
        let ch: char;
        let adv: usize;
        if c != '\\' {
            ch = c;
            adv = 1;
        } else {
            if i + 1 >= m {
                return Err(ParseErrorKind::BadEscape);
            }
            let e = vin[i + 1];
            if e == '"' || e == '\\' || e == '/' {
                ch = e;
                adv = 2;
            } else if e == 'b' {
                ch = '\u{0008}';
                adv = 2;
            } else if e == 'f' {
                ch = '\u{000C}';
                adv = 2;
            } else if e == 'n' {
                ch = '\n';
                adv = 2;
            } else if e == 'r' {
                ch = '\r';
                adv = 2;
            } else if e == 't' {
                ch = '\t';
                adv = 2;
            } else if e == 'u' {
                let v = match read_hex4(&vin, i + 2) {
                    Some(x) => x,
                    None => {
                        return Err(ParseErrorKind::BadEscape);
                    },
                };
                if 0xD800 <= v && v <= 0xDBFF {
                    if m - i >= 8 && vin[i + 6] == '\\' && vin[i + 7] == 'u' {
                        let w = match read_hex4(&vin, i + 8) {
                            Some(x) => x,
                            None => {
                                return Err(ParseErrorKind::BadEscape);
                            },
                        };
                        if 0xDC00 <= w && w <= 0xDFFF {
                            let code: u32 = 0x10000 + (v - 0xD800) * 0x400 + (w - 0xDC00);
                            match char_from_u32(code) {
                                Some(cc) => {
                                    proof {
                                        vstd::utf8::char_u32_cast(cc, code);
                                    }
                                    ch = cc;
                                    adv = 12;
                                },
                                None => {
                                    proof {
                                        assert(false);
                                    }
                                    return Err(ParseErrorKind::BadEscape);
                                },
                            }
                        } else {
                            return Err(ParseErrorKind::BadEscape);
                        }
                    } else {
                        return Err(ParseErrorKind::BadEscape);
                    }
                } else if 0xDC00 <= v && v <= 0xDFFF {
                    return Err(ParseErrorKind::BadEscape);
                } else {
                    match char_from_u32(v) {
                        Some(cc) => {
                            proof {
                                vstd::utf8::char_u32_cast(cc, v);
                            }
                            ch = cc;
                            adv = 6;
                        },
                        None => {
                            proof {
                                assert(false);
                            }
                            return Err(ParseErrorKind::BadEscape);
                        },
                    }
                }
            } else {
                return Err(ParseErrorKind::BadEscape);
            }
        }
        push_char(&mut out, ch);
        i = i + adv;
        proof {
            assert(string_unescape(inner, i0) == match string_unescape(inner, i0 + adv) {
                Some(rest) => Some(seq![ch] + rest),
                None => None::<Seq<char>>,
            });
            match string_unescape(inner, i as int) {
                Some(rest) => {
                    assert(out@ + rest =~= out0 + (seq![ch] + rest));
                },
                None => {},
            }
        }
    }
    proof {
        assert(string_unescape(inner, m as int) == Some(Seq::<char>::empty()));
        assert(out@ + Seq::<char>::empty() =~= out@);
    }
    Ok(out)
}

// ---------------------------------------------------------------------------
// Block string literals: line splitting, dedenting, trimming
// ---------------------------------------------------------------------------

/// Indentation whitespace inside a line.
pub open spec fn is_line_ws(c: char) -> bool {
    c == ' ' || c == '\t'
}

/// Whitespace for trimming a line's edges and the result's tail.
pub open spec fn is_trim_ws(c: char) -> bool {
    c == ' ' || c == '\t' || c == '\r' || c == '\n'
}

/// Index of the first newline at or after `i`, or the length.
pub open spec fn nl_pos(s: Seq<char>, i: int) -> int
    decreases s.len() - i,
{
    if !(0 <= i < s.len()) {
        s.len() as int
    } else if s[i] == '\n' {
        i
    } else {
        nl_pos(s, i + 1)
    }
}

/// A line keeps no trailing carriage return.
pub open spec fn strip_cr(l: Seq<char>) -> Seq<char> {
    if l.len() > 0 && l.last() == '\r' {
        l.drop_last()
    } else {
        l
    }
}

/// The lines of `s` from index `i` on, split at newlines; a final newline
/// opens no further line.
pub open spec fn split_lines_from(s: Seq<char>, i: int) -> Seq<Seq<char>>
    decreases s.len() - i,
{
    if !(0 <= i < s.len()) {
        Seq::empty()
    } else {
        let k = nl_pos(s, i);
        if i <= k < s.len() {
            seq![strip_cr(s.subrange(i, k))] + split_lines_from(s, k + 1)
        } else {
            seq![strip_cr(s.subrange(i, s.len() as int))]
        }
    }
}

/// How many indentation characters begin the line, counted from `i`.
pub open spec fn leading_ws_from(l: Seq<char>, i: int) -> int
    decreases l.len() - i,
{
    if 0 <= i < l.len() && is_line_ws(l[i]) {
        1 + leading_ws_from(l, i + 1)
    } else {
        0
    }
}

/// The least indentation width among the lines from index `i` on.
pub open spec fn min_tail_indent(lines: Seq<Seq<char>>, i: int) -> Option<int>
    decreases lines.len() - i,
{
    if !(0 <= i < lines.len()) {
        None
    } else {
        let w = leading_ws_from(lines[i], 0);
        match min_tail_indent(lines, i + 1) {
            None => Some(w),
            Some(mn) => Some(
                if w < mn {
                    w
                } else {
                    mn
                },
            ),
        }
    }
}

/// The width stripped from every line but the first: the least indentation
/// of the later lines, or nothing to strip when there are none.
pub open spec fn block_indent(lines: Seq<Seq<char>>) -> int {
    match min_tail_indent(lines, 1) {
        None => 0,
        Some(mn) => mn,
    }
}

pub open spec fn trim_end_ws(s: Seq<char>) -> Seq<char>
    decreases s.len(),
{
    if s.len() > 0 && is_trim_ws(s.last()) {
        trim_end_ws(s.drop_last())
    } else {
        s
    }
}

pub open spec fn trim_start_from(s: Seq<char>, i: int) -> int
    decreases s.len() - i,
{
    if 0 <= i < s.len() && is_trim_ws(s[i]) {
        trim_start_from(s, i + 1)
    } else {
        i
    }
}

/// The line with whitespace removed from both edges.
pub open spec fn trim_ws(s: Seq<char>) -> Seq<char> {
    let a = trim_start_from(s, 0);
    if 0 <= a <= s.len() {
        trim_end_ws(s.subrange(a, s.len() as int))
    } else {
        s
    }
}

/// `\"""` gives way to `"""`, left to right, without overlap, from `i` on.
pub open spec fn replace_esc_from(l: Seq<char>, i: int) -> Seq<char>
    decreases l.len() - i,
{
    if !(0 <= i < l.len()) {
        Seq::empty()
    } else if i + 4 <= l.len() && l[i] == '\\' && l[i + 1] == '"' && l[i + 2] == '"' && l[i + 3]
        == '"' {
        seq!['"', '"', '"'] + replace_esc_from(l, i + 4)
    } else {
        seq![l[i]] + replace_esc_from(l, i + 1)
    }
}

/// One dedented later line: the indentation width removed, escaped triple
/// quotes restored, a newline appended.
pub open spec fn dedented_line(l: Seq<char>, indent: int) -> Seq<char> {
    let dropped = if 0 <= indent <= l.len() {
        l.subrange(indent, l.len() as int)
    } else {
        l
    };
    replace_esc_from(dropped, 0) + seq!['\n']
}

/// The dedented later lines, from line `i` on.
pub open spec fn block_tail(lines: Seq<Seq<char>>, i: int, indent: int) -> Seq<char>
    decreases lines.len() - i,
{
    if !(0 <= i < lines.len()) {
        Seq::empty()
    } else {
        dedented_line(lines[i], indent) + block_tail(lines, i + 1, indent)
    }
}

/// The assembled body: the first line trimmed and kept only when something
/// remains of it, then every later line dedented.
pub open spec fn block_assembled(lines: Seq<Seq<char>>, indent: int) -> Seq<char> {
    let head: Seq<char> = if lines.len() == 0 {
        Seq::empty()
    } else {
        let ft = trim_ws(lines[0]);
        if ft.len() > 0 {
            ft + seq!['\n']
        } else {
            Seq::empty()
        }
    };
    head + block_tail(lines, 1, indent)
}

/// What decoding a raw triple-quoted lexeme yields: the quotes stripped,
/// the body split into lines, the common indentation of the later lines
/// removed, a blank first line discarded, and trailing whitespace trimmed.
pub open spec fn unquote_block_string_spec(s: Seq<char>) -> Option<Seq<char>> {
    if s.len() >= 6 && s[0] == '"' && s[1] == '"' && s[2] == '"' && s[s.len() - 3] == '"'
        && s[s.len() - 2] == '"' && s[s.len() - 1] == '"' {
        let inner = s.subrange(3, s.len() - 3);
        let lines = split_lines_from(inner, 0);
        Some(trim_end_ws(block_assembled(lines, block_indent(lines))))
    } else {
        None
    }
}

/// How many indentation characters begin the line.
fn leading_ws_count(l: &Vec<char>) -> (r: usize)
    ensures
        r as int == leading_ws_from(l@, 0),
        r <= l@.len(),
{
    let n: usize = l.len();
    let mut i: usize = 0;
    while i < n && line_ws_at(l, i)
        invariant
            0 <= i <= n,
            n == l@.len(),
            leading_ws_from(l@, 0) == i + leading_ws_from(l@, i as int),
        decreases n - i,
    {
        i = i + 1;
    }
    i
}

fn line_ws_at(l: &Vec<char>, i: usize) -> (r: bool)
    requires
        i < l@.len(),
    ensures
        r == is_line_ws(l@[i as int]),
{
    let c = l[i];
    c == ' ' || c == '\t'
}

fn trim_ws_at(l: &Vec<char>, i: usize) -> (r: bool)
    requires
        i < l@.len(),
    ensures
        r == is_trim_ws(l@[i as int]),
{
    let c = l[i];
    c == ' ' || c == '\t' || c == '\r' || c == '\n'
}

/// The lines as mathematical sequences.
pub open spec fn lines_view(v: Vec<Vec<char>>) -> Seq<Seq<char>> {
    Seq::new(v@.len(), |i: int| v@[i]@)
}

/// Splits the body into its lines, as the decoder's line rules read them.
fn split_into_lines(vin: &Vec<char>) -> (r: Vec<Vec<char>>)
    ensures
        lines_view(r) == split_lines_from(vin@, 0),
{
    let m: usize = vin.len();
    let mut lines: Vec<Vec<char>> = Vec::new();
    let mut pos: usize = 0;
    loop
        invariant
            0 <= pos <= m,
            m == vin@.len(),
            split_lines_from(vin@, 0) == lines_view(lines) + split_lines_from(vin@, pos as int),
        ensures
            lines_view(lines) == split_lines_from(vin@, 0),
        decreases m - pos,
    {
        if pos >= m {
            proof {
                assert(lines_view(lines) + split_lines_from(vin@, pos as int) =~= lines_view(
                    lines,
                ));
            }
            break ;
        }
        let ghost lines0 = lines_view(lines);
        let mut j: usize = pos;
        while j < m && !newline_at(vin, j)
            invariant
                pos <= j <= m,
                m == vin@.len(),
                nl_pos(vin@, pos as int) == nl_pos(vin@, j as int),
            decreases m - j,
        {
            j = j + 1;
        }
        let mut line = crate::chars::chars_range(vin, pos, j);
        if line.len() > 0 && line[line.len() - 1] == '\r' {
            line.pop();
        }
        proof {
            assert(line@ == strip_cr(vin@.subrange(pos as int, j as int)));
        }
        lines.push(line);
        proof {
            assert(lines_view(lines) =~= lines0.push(line@));
        }
        if j < m {
            pos = j + 1;
        } else {
            pos = m;
        }
        proof {
            assert(split_lines_from(vin@, 0) =~= lines_view(lines) + split_lines_from(
                vin@,
                pos as int,
            ));
        }
    }
    lines
}

fn newline_at(vin: &Vec<char>, j: usize) -> (r: bool)
    requires
        j < vin@.len(),
    ensures
        r == (vin@[j as int] == '\n'),
{
    vin[j] == '\n'
}

/// Strips the surrounding triple quotes and dedents the body: the least
/// indentation of the lines after the first is removed from each, a blank
/// first line goes away, escaped triple quotes are restored, and trailing
/// whitespace is trimmed.
pub fn unquote_block_string(s: &str) -> (r: Result<String, ParseErrorKind>)
    ensures
        match unquote_block_string_spec(s@) {
            Some(t) => r matches Ok(out) && out@ == t,
            None => r matches Err(k) && k == ParseErrorKind::BadEscape,
        },
{
    let buf = str_chars(s);
    let n: usize = buf.len();
    if n < 6 || buf[0] != '"' || buf[1] != '"' || buf[2] != '"' || buf[n - 3] != '"' || buf[n - 2]
        != '"' || buf[n - 1] != '"' {
        return Err(ParseErrorKind::BadEscape);
    }
    let vin = crate::chars::chars_range(&buf, 3, n - 3);
    let lines = split_into_lines(&vin);
    let ghost linesv = lines_view(lines);
    let nl: usize = lines.len();
    // least indentation among the later lines
    let mut indent_opt: Option<usize> = None;
    let mut idx: usize = nl;
    while idx > 1
        invariant
            1 <= idx <= nl || idx == nl,
            nl == lines.len(),
            linesv == lines_view(lines),
            match indent_opt {
                Some(w) => min_tail_indent(linesv, idx as int) == Some(w as int),
                None => min_tail_indent(linesv, idx as int) is None,
            },
        decreases idx,
    {
        idx = idx - 1;
        let w = leading_ws_count(&lines[idx]);
        proof {
            assert(linesv[idx as int] == lines@[idx as int]@);
        }
        indent_opt = match indent_opt {
            None => Some(w),
            Some(mn) => Some(
                if w < mn {
                    w
                } else {
                    mn
                },
            ),
        };
    }
    let indent: usize = match indent_opt {
        None => 0,
        Some(w) => w,
    };
    proof {
        if nl == 0 || nl == 1 {
            assert(min_tail_indent(linesv, 1) is None);
        }
        assert(indent as int == block_indent(linesv));
    }
    // assemble: trimmed first line, then each later line dedented
    let mut res: Vec<char> = Vec::new();
    if nl > 0 {
        let first = &lines[0];
        let fl: usize = first.len();
        proof {
            assert(linesv[0] == lines@[0int]@);
        }
        let mut a: usize = 0;
        while a < fl && trim_ws_at(first, a)
            invariant
                0 <= a <= fl,
                fl == first@.len(),
                trim_start_from(first@, 0) == trim_start_from(first@, a as int),
            decreases fl - a,
        {
            a = a + 1;
        }
        let mut b: usize = fl;
        while b > a && trim_ws_at(first, b - 1)
            invariant
                a <= b <= fl,
                fl == first@.len(),
                trim_end_ws(first@.subrange(a as int, fl as int)) == trim_end_ws(
                    first@.subrange(a as int, b as int),
                ),
            decreases b,
        {
            proof {
                assert(first@.subrange(a as int, b as int).drop_last() =~= first@.subrange(
                    a as int,
                    b as int - 1,
                ));
            }
            b = b - 1;
        }
        proof {
            assert(trim_end_ws(first@.subrange(a as int, b as int)) == first@.subrange(
                a as int,
                b as int,
            ));
            assert(trim_start_from(first@, a as int) == a);
            assert(trim_ws(first@) == first@.subrange(a as int, b as int));
        }
        if b > a {
            let mut k: usize = a;
            while k < b
                invariant
                    a <= k <= b <= first@.len(),
                    res@ == first@.subrange(a as int, k as int),
                decreases b - k,
            {
                res.push(first[k]);
                k = k + 1;
                proof {
                    assert(res@ =~= first@.subrange(a as int, k as int));
                }
            }
            res.push('\n');
            proof {
                assert(res@ =~= trim_ws(linesv[0]) + seq!['\n']);
            }
        }
    }
    let ghost head = res@;
    proof {
        assert(head == (if linesv.len() == 0 {
            Seq::<char>::empty()
        } else {
            let ft = trim_ws(linesv[0]);
            if ft.len() > 0 {
                ft + seq!['\n']
            } else {
                Seq::<char>::empty()
            }
        }));
    }
    // the later lines
    let mut li: usize = 1;
    proof {
        assert(res@.subrange(0, head.len() as int) =~= head);
        assert(res@.subrange(head.len() as int, res@.len() as int) =~= Seq::<char>::empty());
        assert(block_tail(linesv, 1, indent as int) =~= Seq::<char>::empty() + block_tail(
            linesv,
            1,
            indent as int,
        ));
    }
    while li < nl
        invariant
            1 <= li <= nl || li == 1,
            nl == lines.len(),
            linesv == lines_view(lines),
            res@.len() >= head.len(),
            res@.subrange(0, head.len() as int) == head,
            block_tail(linesv, 1, indent as int) == res@.subrange(
                head.len() as int,
                res@.len() as int,
            ) + block_tail(linesv, li as int, indent as int),
        decreases nl - li,
    {
        let ghost done = res@.subrange(head.len() as int, res@.len() as int);
        let l = &lines[li];
        let ll: usize = l.len();
        proof {
            assert(linesv[li as int] == lines@[li as int]@);
        }
        let dropped: Vec<char> = if indent <= ll {
            crate::chars::chars_range(l, indent, ll)
        } else {
            crate::chars::chars_range(l, 0, ll)
        };
        proof {
            if indent > ll {
                assert(dropped@ =~= l@);
            }
        }
        let ghost dv = dropped@;
        let dn: usize = dropped.len();
        // restore escaped triple quotes while copying
        let ghost res_before = res@;
        let mut p: usize = 0;
        while p < dn
            invariant
                0 <= p <= dn,
                dn == dv.len(),
                dropped@ == dv,
                res@.len() >= res_before.len(),
                res@.subrange(0, res_before.len() as int) == res_before,
                replace_esc_from(dv, 0) == res@.subrange(
                    res_before.len() as int,
                    res@.len() as int,
                ) + replace_esc_from(dv, p as int),
            decreases dn - p,
        {
            let ghost copied = res@.subrange(res_before.len() as int, res@.len() as int);
            if dn - p >= 4 && dropped[p] == '\\' && dropped[p + 1] == '"' && dropped[p + 2] == '"'
                && dropped[p + 3] == '"' {
                res.push('"');
                res.push('"');
                res.push('"');
                p = p + 4;
                proof {
                    assert(res@.subrange(res_before.len() as int, res@.len() as int) =~= copied
                        + seq!['"', '"', '"']);
                    assert(res@.subrange(0, res_before.len() as int) =~= res_before);
                    assert(copied + (seq!['"', '"', '"'] + replace_esc_from(dv, p as int)) =~= (
                    copied + seq!['"', '"', '"']) + replace_esc_from(dv, p as int));
                }
            } else {
                res.push(dropped[p]);
                p = p + 1;
                proof {
                    assert(res@.subrange(res_before.len() as int, res@.len() as int) =~= copied
                        + seq![dv[p - 1]]);
                    assert(res@.subrange(0, res_before.len() as int) =~= res_before);
                    assert(copied + (seq![dv[p - 1]] + replace_esc_from(dv, p as int)) =~= (copied
                        + seq![dv[p - 1]]) + replace_esc_from(dv, p as int));
                }
            }
        }
        res.push('\n');
        li = li + 1;
        proof {
            assert(replace_esc_from(dv, dn as int) =~= Seq::<char>::empty());
            assert(replace_esc_from(dv, 0) + Seq::<char>::empty() =~= replace_esc_from(dv, 0));
            let whole = res@.subrange(res_before.len() as int, res@.len() as int);
            assert(whole =~= replace_esc_from(dv, 0) + seq!['\n']);
            assert(whole =~= dedented_line(linesv[li - 1], indent as int));
            assert(res@.subrange(0, res_before.len() as int) =~= res_before);
            assert(res@.subrange(0, head.len() as int) =~= head);
            assert(res@.subrange(head.len() as int, res@.len() as int) =~= done + whole);
            assert(done + (dedented_line(linesv[li - 1], indent as int) + block_tail(
                linesv,
                li as int,
                indent as int,
            )) =~= (done + dedented_line(linesv[li - 1], indent as int)) + block_tail(
                linesv,
                li as int,
                indent as int,
            ));
        }
    }
    proof {
        assert(block_tail(linesv, nl as int, indent as int) =~= Seq::<char>::empty());
        assert(res@.subrange(head.len() as int, res@.len() as int) + Seq::<char>::empty()
            =~= res@.subrange(head.len() as int, res@.len() as int));
        assert(res@ =~= head + res@.subrange(head.len() as int, res@.len() as int));
        assert(res@ == block_assembled(linesv, indent as int));
    }
    // trim trailing whitespace off the assembled result
    let mut b2: usize = res.len();
    proof {
        assert(res@.subrange(0, b2 as int) =~= res@);
    }
    while b2 > 0 && trim_ws_at(&res, b2 - 1)
        invariant
            0 <= b2 <= res@.len(),
            trim_end_ws(res@) == trim_end_ws(res@.subrange(0, b2 as int)),
        decreases b2,
    {
        proof {
            assert(res@.subrange(0, b2 as int).drop_last() =~= res@.subrange(0, b2 as int - 1));
        }
        b2 = b2 - 1;
    }
    proof {
        assert(trim_end_ws(res@.subrange(0, b2 as int)) == res@.subrange(0, b2 as int));
    }
    Ok(crate::chars::string_from_range(&res, 0, b2))
}


// ---------------------------------------------------------------------------
// The grammar's mathematical twins
//
// Each `p_..` function maps the source and an offset to the mirror node the
// production yields and the offset it reaches, or to a failure with the
// offset where parsing stopped. A failure at the production's own starting
// offset consumed nothing, and ordered alternation then tries the next
// production; a failure farther on is final. The second `decreases`
// component orders the productions that call one another without consuming.
// ---------------------------------------------------------------------------

pub open spec fn p_variable_type(s: Seq<char>, off: int) -> PRes<VariableTypeV> {
    match p_name(s, off) {
        PRes::POk { v, next } => PRes::POk { v: VariableTypeV::NamedType(v), next },
        PRes::PFail { at } => PRes::PFail { at },
    }
}

pub open spec fn p_int_value(s: Seq<char>, off: int) -> PRes<ValueV> {
    match p_kind(s, off, T::IntValue) {
        PRes::POk { v: text, next } => if int_fits(text) {
            PRes::POk { v: ValueV::Int(str_int(text)), next }
        } else {
            PRes::PFail { at: next }
        },
        PRes::PFail { at } => PRes::PFail { at },
    }
}

pub open spec fn p_string_value(s: Seq<char>, off: int) -> PRes<ValueV> {
    match p_kind(s, off, T::StringValue) {
        PRes::POk { v: text, next } => match unquote_string_spec(text) {
            Some(t) => PRes::POk { v: ValueV::String(t), next },
            None => PRes::PFail { at: next },
        },
        PRes::PFail { at } => PRes::PFail { at },
    }
}

pub open spec fn p_block_string_value(s: Seq<char>, off: int) -> PRes<ValueV> {
    match p_kind(s, off, T::BlockString) {
        PRes::POk { v: text, next } => match unquote_block_string_spec(text) {
            Some(t) => PRes::POk { v: ValueV::String(t), next },
            None => PRes::PFail { at: next },
        },
        PRes::PFail { at } => PRes::PFail { at },
    }
}

pub open spec fn p_variable_value(s: Seq<char>, off: int) -> PRes<ValueV> {
    match p_punct(s, off, "$"@) {
        PRes::POk { v: u, next } => match p_name(s, next) {
            PRes::POk { v, next: n2 } => PRes::POk { v: ValueV::Variable(v), next: n2 },
            PRes::PFail { at } => PRes::PFail { at },
        },
        PRes::PFail { at } => PRes::PFail { at },
    }
}

/// `value`: a bare name as an enum value, an integer, a string, a block
/// string, a variable, a bracketed list, or a braced object, tried in that
/// order.
pub open spec fn p_value(s: Seq<char>, off: int) -> PRes<ValueV>
    decreases s.len() - off, 1int,
{
    match p_name(s, off) {
        PRes::POk { v, next } => PRes::POk { v: ValueV::EnumValue(v), next },
        PRes::PFail { at: a0 } => if a0 != off {
            PRes::PFail { at: a0 }
        } else {
            match p_int_value(s, off) {
                PRes::POk { v, next } => PRes::POk { v, next },
                PRes::PFail { at: a1 } => if a1 != off {
                    PRes::PFail { at: a1 }
                } else {
                    match p_string_value(s, off) {
                        PRes::POk { v, next } => PRes::POk { v, next },
                        PRes::PFail { at: a2 } => if a2 != off {
                            PRes::PFail { at: a2 }
                        } else {
                            match p_block_string_value(s, off) {
                                PRes::POk { v, next } => PRes::POk { v, next },
                                PRes::PFail { at: a3 } => if a3 != off {
                                    PRes::PFail { at: a3 }
                                } else {
                                    match p_variable_value(s, off) {
                                        PRes::POk { v, next } => PRes::POk { v, next },
                                        PRes::PFail { at: a4 } => if a4 != off {
                                            PRes::PFail { at: a4 }
                                        } else {
                                            p_list_or_object(s, off)
                                        },
                                    }
                                },
                            }
                        },
                    }
                },
            }
        },
    }
}

pub open spec fn p_list_or_object(s: Seq<char>, off: int) -> PRes<ValueV>
    decreases s.len() - off, 0int,
{
    match p_punct(s, off, "["@) {
        PRes::POk { v: u, next } => if off < next && next <= s.len() {
            match p_many_values(s, next) {
                PRes::POk { v: items, next: n2 } => match p_punct(s, n2, "]"@) {
                    PRes::POk { v: u2, next: n3 } => PRes::POk { v: ValueV::ListValue(items), next: n3 },
                    PRes::PFail { at } => PRes::PFail { at },
                },
                PRes::PFail { at } => PRes::PFail { at },
            }
        } else {
            PRes::PFail { at: next }
        },
        PRes::PFail { at: a5 } => if a5 != off {
            PRes::PFail { at: a5 }
        } else {
            match p_punct(s, off, "{"@) {
                PRes::POk { v: u, next } => if off < next && next <= s.len() {
                    match p_many_pairs(s, next) {
                        PRes::POk { v: ps, next: n2 } => match p_punct(s, n2, "}"@) {
                            PRes::POk { v: u2, next: n3 } => PRes::POk {
                                v: ValueV::ObjectValue(ps),
                                next: n3,
                            },
                            PRes::PFail { at } => PRes::PFail { at },
                        },
                        PRes::PFail { at } => PRes::PFail { at },
                    }
                } else {
                    PRes::PFail { at: next }
                },
                PRes::PFail { at } => PRes::PFail { at },
            }
        },
    }
}

/// Zero or more values, for list contents.
pub open spec fn p_many_values(s: Seq<char>, off: int) -> PRes<Seq<ValueV>>
    decreases s.len() - off, 2int,
{
    match p_value(s, off) {
        PRes::PFail { at } => if at == off {
            PRes::POk { v: Seq::empty(), next: off }
        } else {
            PRes::PFail { at }
        },
        PRes::POk { v, next } => if off < next && next <= s.len() {
            match p_many_values(s, next) {
                PRes::POk { v: rest, next: n2 } => PRes::POk { v: seq![v] + rest, next: n2 },
                PRes::PFail { at } => PRes::PFail { at },
            }
        } else {
            PRes::POk { v: seq![v], next }
        },
    }
}

/// `name: value`, for arguments and object contents.
pub open spec fn p_pair(s: Seq<char>, off: int) -> PRes<(Seq<char>, ValueV)>
    decreases s.len() - off, 2int,
{
    match p_name(s, off) {
        PRes::PFail { at } => PRes::PFail { at },
        PRes::POk { v: nm, next } => match p_punct(s, next, ":"@) {
            PRes::PFail { at } => PRes::PFail { at },
            PRes::POk { v: u, next: n2 } => if off < n2 && n2 <= s.len() {
                match p_value(s, n2) {
                    PRes::POk { v, next: n3 } => PRes::POk { v: (nm, v), next: n3 },
                    PRes::PFail { at } => PRes::PFail { at },
                }
            } else {
                PRes::PFail { at: n2 }
            },
        },
    }
}

/// Zero or more `name: value` pairs.
pub open spec fn p_many_pairs(s: Seq<char>, off: int) -> PRes<Seq<(Seq<char>, ValueV)>>
    decreases s.len() - off, 3int,
{
    match p_pair(s, off) {
        PRes::PFail { at } => if at == off {
            PRes::POk { v: Seq::empty(), next: off }
        } else {
            PRes::PFail { at }
        },
        PRes::POk { v, next } => if off < next && next <= s.len() {
            match p_many_pairs(s, next) {
                PRes::POk { v: rest, next: n2 } => PRes::POk { v: seq![v] + rest, next: n2 },
                PRes::PFail { at } => PRes::PFail { at },
            }
        } else {
            PRes::POk { v: seq![v], next }
        },
    }
}

/// `arguments`: an optional parenthesized list of at least one pair; an
/// absent parenthesis yields the empty list.
pub open spec fn p_arguments(s: Seq<char>, off: int) -> PRes<Seq<(Seq<char>, ValueV)>>
    decreases s.len() - off, 4int,
{
    match p_punct(s, off, "("@) {
        PRes::PFail { at } => if at == off {
            PRes::POk { v: Seq::empty(), next: off }
        } else {
            PRes::PFail { at }
        },
        PRes::POk { v: u, next } => if off < next && next <= s.len() {
            match p_pair(s, next) {
                PRes::PFail { at } => PRes::PFail { at },
                PRes::POk { v: p1, next: n2 } => if next < n2 && n2 <= s.len() {
                    match p_many_pairs(s, n2) {
                        PRes::PFail { at } => PRes::PFail { at },
                        PRes::POk { v: rest, next: n3 } => match p_punct(s, n3, ")"@) {
                            PRes::POk { v: u2, next: n4 } => PRes::POk {
                                v: seq![p1] + rest,
                                next: n4,
                            },
                            PRes::PFail { at } => PRes::PFail { at },
                        },
                    }
                } else {
                    PRes::PFail { at: n2 }
                },
            }
        } else {
            PRes::PFail { at: next }
        },
    }
}

/// `@ name arguments`.
pub open spec fn p_directive(s: Seq<char>, off: int) -> PRes<DirectiveV>
    decreases s.len() - off, 5int,
{
    match p_punct(s, off, "@"@) {
        PRes::PFail { at } => PRes::PFail { at },
        PRes::POk { v: u, next } => match p_name(s, next) {
            PRes::PFail { at } => PRes::PFail { at },
            PRes::POk { v: nm, next: n2 } => if off < n2 && n2 <= s.len() {
                match p_arguments(s, n2) {
                    PRes::POk { v: args, next: n3 } => PRes::POk {
                        v: DirectiveV { name: nm, arguments: args },
                        next: n3,
                    },
                    PRes::PFail { at } => PRes::PFail { at },
                }
            } else {
                PRes::PFail { at: n2 }
            },
        },
    }
}

/// Zero or more directives.
pub open spec fn p_directives(s: Seq<char>, off: int) -> PRes<Seq<DirectiveV>>
    decreases s.len() - off, 6int,
{
    match p_directive(s, off) {
        PRes::PFail { at } => if at == off {
            PRes::POk { v: Seq::empty(), next: off }
        } else {
            PRes::PFail { at }
        },
        PRes::POk { v, next } => if off < next && next <= s.len() {
            match p_directives(s, next) {
                PRes::POk { v: rest, next: n2 } => PRes::POk { v: seq![v] + rest, next: n2 },
                PRes::PFail { at } => PRes::PFail { at },
            }
        } else {
            PRes::POk { v: seq![v], next }
        },
    }
}

/// `default_value`: a deliberately restricted subset of `value`: an enum
/// name, an integer, a block string, or a list of default values.
pub open spec fn p_default_value(s: Seq<char>, off: int) -> PRes<ValueV>
    decreases s.len() - off, 1int,
{
    match p_name(s, off) {
        PRes::POk { v, next } => PRes::POk { v: ValueV::EnumValue(v), next },
        PRes::PFail { at: a0 } => if a0 != off {
            PRes::PFail { at: a0 }
        } else {
            match p_int_value(s, off) {
                PRes::POk { v, next } => PRes::POk { v, next },
                PRes::PFail { at: a1 } => if a1 != off {
                    PRes::PFail { at: a1 }
                } else {
                    match p_block_string_value(s, off) {
                        PRes::POk { v, next } => PRes::POk { v, next },
                        PRes::PFail { at: a2 } => if a2 != off {
                            PRes::PFail { at: a2 }
                        } else {
                            match p_punct(s, off, "["@) {
                                PRes::POk { v: u, next } => if off < next && next <= s.len() {
                                    match p_many_defaults(s, next) {
                                        PRes::POk { v: items, next: n2 } => match p_punct(
                                            s,
                                            n2,
                                            "]"@,
                                        ) {
                                            PRes::POk { v: u2, next: n3 } => PRes::POk {
                                                v: ValueV::ListValue(items),
                                                next: n3,
                                            },
                                            PRes::PFail { at } => PRes::PFail { at },
                                        },
                                        PRes::PFail { at } => PRes::PFail { at },
                                    }
                                } else {
                                    PRes::PFail { at: next }
                                },
                                PRes::PFail { at } => PRes::PFail { at },
                            }
                        },
                    }
                },
            }
        },
    }
}

/// Zero or more default values, for list defaults.
pub open spec fn p_many_defaults(s: Seq<char>, off: int) -> PRes<Seq<ValueV>>
    decreases s.len() - off, 2int,
{
    match p_default_value(s, off) {
        PRes::PFail { at } => if at == off {
            PRes::POk { v: Seq::empty(), next: off }
        } else {
            PRes::PFail { at }
        },
        PRes::POk { v, next } => if off < next && next <= s.len() {
            match p_many_defaults(s, next) {
                PRes::POk { v: rest, next: n2 } => PRes::POk { v: seq![v] + rest, next: n2 },
                PRes::PFail { at } => PRes::PFail { at },
            }
        } else {
            PRes::POk { v: seq![v], next }
        },
    }
}

/// `field`: a name, an optional `: name` (the first name is then the alias),
/// arguments, directives, and an optional selection set.
pub open spec fn p_field(s: Seq<char>, off: int) -> PRes<FieldV>
    decreases s.len() - off, 1int,
{
    match p_name(s, off) {
        PRes::PFail { at } => PRes::PFail { at },
        PRes::POk { v: name_or_alias, next: n1 } => {
            let alias_step: PRes<Option<Seq<char>>> = match p_punct(s, n1, ":"@) {
                PRes::PFail { at } => PRes::POk { v: None, next: n1 },
                PRes::POk { v: u, next: n2 } => match p_name(s, n2) {
                    PRes::POk { v: nm2, next: n3 } => PRes::POk { v: Some(nm2), next: n3 },
                    PRes::PFail { at } => PRes::PFail { at },
                },
            };
            match alias_step {
                PRes::PFail { at } => PRes::PFail { at },
                PRes::POk { v: opt_name, next: n4 } => if off < n4 && n4 <= s.len() {
                    match p_arguments(s, n4) {
                        PRes::PFail { at } => PRes::PFail { at },
                        PRes::POk { v: args, next: n5 } => if off < n5 && n5 <= s.len() {
                            match p_directives(s, n5) {
                                PRes::PFail { at } => PRes::PFail { at },
                                PRes::POk { v: dirs, next: n6 } => if off < n6 && n6 <= s.len() {
                                    match p_selection_set(s, n6) {
                                        PRes::POk { v: ss, next: n7 } => PRes::POk {
                                            v: make_field(name_or_alias, opt_name, args, dirs, ss),
                                            next: n7,
                                        },
                                        PRes::PFail { at } => if at == n6 {
                                            PRes::POk {
                                                v: make_field(
                                                    name_or_alias,
                                                    opt_name,
                                                    args,
                                                    dirs,
                                                    SelectionSetV { items: Seq::empty() },
                                                ),
                                                next: n6,
                                            }
                                        } else {
                                            PRes::PFail { at }
                                        },
                                    }
                                } else {
                                    PRes::PFail { at: n6 }
                                },
                            }
                        } else {
                            PRes::PFail { at: n5 }
                        },
                    }
                } else {
                    PRes::PFail { at: n4 }
                },
            }
        },
    }
}

/// Which name is the field's and which the alias: with `alias: name` the
/// first identifier is the alias and the second the name.
pub open spec fn make_field(
    name_or_alias: Seq<char>,
    opt_name: Option<Seq<char>>,
    args: Seq<(Seq<char>, ValueV)>,
    dirs: Seq<DirectiveV>,
    ss: SelectionSetV,
) -> FieldV {
    match opt_name {
        Some(nm) => FieldV {
            alias: Some(name_or_alias),
            name: nm,
            arguments: args,
            directives: dirs,
            selection_set: ss,
        },
        None => FieldV {
            alias: None,
            name: name_or_alias,
            arguments: args,
            directives: dirs,
            selection_set: ss,
        },
    }
}

/// The tail of a fragment spread after `...`: the fragment's name and
/// directives.
pub open spec fn p_spread_tail(s: Seq<char>, off: int) -> PRes<FragmentSpreadV>
    decreases s.len() - off, 1int,
{
    match p_name(s, off) {
        PRes::PFail { at } => PRes::PFail { at },
        PRes::POk { v: nm, next } => if off < next && next <= s.len() {
            match p_directives(s, next) {
                PRes::POk { v: dirs, next: n2 } => PRes::POk {
                    v: FragmentSpreadV { fragment_name: nm, directives: dirs },
                    next: n2,
                },
                PRes::PFail { at } => PRes::PFail { at },
            }
        } else {
            PRes::PFail { at: next }
        },
    }
}

/// The tail of an inline fragment after `...`: an optional `on Type`, then
/// directives and a required selection set.
pub open spec fn p_inline_fragment(s: Seq<char>, off: int) -> PRes<InlineFragmentV>
    decreases s.len() - off, 7int,
{
    let cond_step: PRes<Option<TypeConditionV>> = match p_ident(s, off, "on"@) {
        PRes::PFail { at } => PRes::POk { v: None, next: off },
        PRes::POk { v: u, next } => match p_name(s, next) {
            PRes::POk { v: nm, next: n2 } => PRes::POk {
                v: Some(TypeConditionV::On(nm)),
                next: n2,
            },
            PRes::PFail { at } => PRes::PFail { at },
        },
    };
    match cond_step {
        PRes::PFail { at } => PRes::PFail { at },
        PRes::POk { v: cond, next: n1 } => if off <= n1 && n1 <= s.len() {
            match p_directives(s, n1) {
                PRes::PFail { at } => PRes::PFail { at },
                PRes::POk { v: dirs, next: n2 } => if off <= n2 && n2 <= s.len() {
                    match p_selection_set(s, n2) {
                        PRes::POk { v: ss, next: n3 } => PRes::POk {
                            v: InlineFragmentV {
                                type_condition: cond,
                                directives: dirs,
                                selection_set: ss,
                            },
                            next: n3,
                        },
                        PRes::PFail { at } => PRes::PFail { at },
                    }
                } else {
                    PRes::PFail { at: n2 }
                },
            }
        } else {
            PRes::PFail { at: n1 }
        },
    }
}

/// `selection`: a field, or `...` followed by an inline fragment (tried
/// first, with or without a type condition) or a fragment spread.
pub open spec fn p_selection(s: Seq<char>, off: int) -> PRes<SelectionV>
    decreases s.len() - off, 2int,
{
    match p_field(s, off) {
        PRes::POk { v, next } => PRes::POk { v: SelectionV::Field(v), next },
        PRes::PFail { at } => if at != off {
            PRes::PFail { at }
        } else {
            match p_punct(s, off, "..."@) {
                PRes::PFail { at: a2 } => PRes::PFail { at: a2 },
                PRes::POk { v: u, next } => if off < next && next <= s.len() {
                    match p_inline_fragment(s, next) {
                        PRes::POk { v, next: n2 } => PRes::POk {
                            v: SelectionV::InlineFragment(v),
                            next: n2,
                        },
                        PRes::PFail { at } => if at == next {
                            match p_spread_tail(s, next) {
                                PRes::POk { v, next: n3 } => PRes::POk {
                                    v: SelectionV::FragmentSpread(v),
                                    next: n3,
                                },
                                PRes::PFail { at: a3 } => PRes::PFail { at: a3 },
                            }
                        } else {
                            PRes::PFail { at }
                        },
                    }
                } else {
                    PRes::PFail { at: next }
                },
            }
        },
    }
}

/// One or more selections.
pub open spec fn p_many1_selections(s: Seq<char>, off: int) -> PRes<Seq<SelectionV>>
    decreases s.len() - off, 3int,
{
    match p_selection(s, off) {
        PRes::PFail { at } => PRes::PFail { at },
        PRes::POk { v, next } => if off < next && next <= s.len() {
            match p_many_selections(s, next) {
                PRes::POk { v: rest, next: n2 } => PRes::POk { v: seq![v] + rest, next: n2 },
                PRes::PFail { at } => PRes::PFail { at },
            }
        } else {
            PRes::POk { v: seq![v], next }
        },
    }
}

pub open spec fn p_many_selections(s: Seq<char>, off: int) -> PRes<Seq<SelectionV>>
    decreases s.len() - off, 4int,
{
    match p_selection(s, off) {
        PRes::PFail { at } => if at == off {
            PRes::POk { v: Seq::empty(), next: off }
        } else {
            PRes::PFail { at }
        },
        PRes::POk { v, next } => if off < next && next <= s.len() {
            match p_many_selections(s, next) {
                PRes::POk { v: rest, next: n2 } => PRes::POk { v: seq![v] + rest, next: n2 },
                PRes::PFail { at } => PRes::PFail { at },
            }
        } else {
            PRes::POk { v: seq![v], next }
        },
    }
}

/// `selection_set`: `{`, one or more selections, `}`.
pub open spec fn p_selection_set(s: Seq<char>, off: int) -> PRes<SelectionSetV>
    decreases s.len() - off, 1int,
{
    match p_punct(s, off, "{"@) {
        PRes::PFail { at } => PRes::PFail { at },
        PRes::POk { v: u, next } => if off < next && next <= s.len() {
            match p_many1_selections(s, next) {
                PRes::PFail { at } => PRes::PFail { at },
                PRes::POk { v: items, next: n2 } => match p_punct(s, n2, "}"@) {
                    PRes::POk { v: u2, next: n3 } => PRes::POk {
                        v: SelectionSetV { items },
                        next: n3,
                    },
                    PRes::PFail { at } => PRes::PFail { at },
                },
            }
        } else {
            PRes::PFail { at: next }
        },
    }
}

/// `$ name : type (= default)?`.
pub open spec fn p_variable_definition(s: Seq<char>, off: int) -> PRes<VariableDefinitionV>
    decreases s.len() - off, 1int,
{
    match p_punct(s, off, "$"@) {
        PRes::PFail { at } => PRes::PFail { at },
        PRes::POk { v: u, next } => match p_name(s, next) {
            PRes::PFail { at } => PRes::PFail { at },
            PRes::POk { v: nm, next: n2 } => match p_punct(s, n2, ":"@) {
                PRes::PFail { at } => PRes::PFail { at },
                PRes::POk { v: u2, next: n3 } => match p_variable_type(s, n3) {
                    PRes::PFail { at } => PRes::PFail { at },
                    PRes::POk { v: vt, next: n4 } => match p_punct(s, n4, "="@) {
                        PRes::PFail { at } => PRes::POk {
                            v: VariableDefinitionV { name: nm, var_type: vt, default_value: None },
                            next: n4,
                        },
                        PRes::POk { v: u3, next: n5 } => if off < n5 && n5 <= s.len() {
                            match p_default_value(s, n5) {
                                PRes::POk { v: dv, next: n6 } => PRes::POk {
                                    v: VariableDefinitionV {
                                        name: nm,
                                        var_type: vt,
                                        default_value: Some(dv),
                                    },
                                    next: n6,
                                },
                                PRes::PFail { at } => PRes::PFail { at },
                            }
                        } else {
                            PRes::PFail { at: n5 }
                        },
                    },
                },
            },
        },
    }
}

pub open spec fn p_many_var_defs(s: Seq<char>, off: int) -> PRes<Seq<VariableDefinitionV>>
    decreases s.len() - off, 3int,
{
    match p_variable_definition(s, off) {
        PRes::PFail { at } => if at == off {
            PRes::POk { v: Seq::empty(), next: off }
        } else {
            PRes::PFail { at }
        },
        PRes::POk { v, next } => if off < next && next <= s.len() {
            match p_many_var_defs(s, next) {
                PRes::POk { v: rest, next: n2 } => PRes::POk { v: seq![v] + rest, next: n2 },
                PRes::PFail { at } => PRes::PFail { at },
            }
        } else {
            PRes::POk { v: seq![v], next }
        },
    }
}

/// The common body of an operation: an optional name, an optional
/// parenthesized list of at least one variable definition, and a required
/// selection set.
pub open spec fn p_operation_common(s: Seq<char>, off: int) -> PRes<
    (Option<Seq<char>>, Seq<VariableDefinitionV>, SelectionSetV),
>
    decreases s.len() - off, 4int,
{
    let name_step: PRes<Option<Seq<char>>> = match p_name(s, off) {
        PRes::POk { v, next } => PRes::POk { v: Some(v), next },
        PRes::PFail { at } => PRes::POk { v: None, next: off },
    };
    match name_step {
        PRes::PFail { at } => PRes::PFail { at },
        PRes::POk { v: opt_nm, next: n1 } => {
            let vars_step: PRes<Seq<VariableDefinitionV>> = match p_punct(s, n1, "("@) {
                PRes::PFail { at } => PRes::POk { v: Seq::empty(), next: n1 },
                PRes::POk { v: u, next: n2 } => if off < n2 && n2 <= s.len() {
                    match p_many_var_defs(s, n2) {
                        PRes::PFail { at } => PRes::PFail { at },
                        PRes::POk { v: vars, next: n3 } => match p_punct(s, n3, ")"@) {
                            PRes::POk { v: u2, next: n4 } => PRes::POk { v: vars, next: n4 },
                            PRes::PFail { at } => PRes::PFail { at },
                        },
                    }
                } else {
                    PRes::PFail { at: n2 }
                },
            };
            match vars_step {
                PRes::PFail { at } => PRes::PFail { at },
                PRes::POk { v: vars, next: n5 } => if off <= n5 && n5 <= s.len() {
                    match p_selection_set(s, n5) {
                        PRes::POk { v: ss, next: n6 } => PRes::POk {
                            v: (opt_nm, vars, ss),
                            next: n6,
                        },
                        PRes::PFail { at } => PRes::PFail { at },
                    }
                } else {
                    PRes::PFail { at: n5 }
                },
            }
        },
    }
}

pub open spec fn p_query(s: Seq<char>, off: int) -> PRes<OperationBodyV>
    decreases s.len() - off, 1int,
{
    match p_ident(s, off, "query"@) {
        PRes::PFail { at } => PRes::PFail { at },
        PRes::POk { v: u, next } => if off < next && next <= s.len() {
            match p_operation_common(s, next) {
                PRes::POk { v: body, next: n2 } => PRes::POk {
                    v: OperationBodyV {
                        name: body.0,
                        variable_definitions: body.1,
                        directives: Seq::empty(),
                        selection_set: body.2,
                    },
                    next: n2,
                },
                PRes::PFail { at } => PRes::PFail { at },
            }
        } else {
            PRes::PFail { at: next }
        },
    }
}

pub open spec fn p_mutation(s: Seq<char>, off: int) -> PRes<OperationBodyV>
    decreases s.len() - off, 1int,
{
    match p_ident(s, off, "mutation"@) {
        PRes::PFail { at } => PRes::PFail { at },
        PRes::POk { v: u, next } => if off < next && next <= s.len() {
            match p_operation_common(s, next) {
                PRes::POk { v: body, next: n2 } => PRes::POk {
                    v: OperationBodyV {
                        name: body.0,
                        variable_definitions: body.1,
                        directives: Seq::empty(),
                        selection_set: body.2,
                    },
                    next: n2,
                },
                PRes::PFail { at } => PRes::PFail { at },
            }
        } else {
            PRes::PFail { at: next }
        },
    }
}

pub open spec fn p_subscription(s: Seq<char>, off: int) -> PRes<OperationBodyV>
    decreases s.len() - off, 1int,
{
    match p_ident(s, off, "subscription"@) {
        PRes::PFail { at } => PRes::PFail { at },
        PRes::POk { v: u, next } => if off < next && next <= s.len() {
            match p_operation_common(s, next) {
                PRes::POk { v: body, next: n2 } => PRes::POk {
                    v: OperationBodyV {
                        name: body.0,
                        variable_definitions: body.1,
                        directives: Seq::empty(),
                        selection_set: body.2,
                    },
                    next: n2,
                },
                PRes::PFail { at } => PRes::PFail { at },
            }
        } else {
            PRes::PFail { at: next }
        },
    }
}

/// `operation_definition`: a bare selection set (shorthand query), or a
/// keyworded query, mutation or subscription, tried in that order.
pub open spec fn p_operation_definition(s: Seq<char>, off: int) -> PRes<OperationDefinitionV>
    decreases s.len() - off, 5int,
{
    match p_selection_set(s, off) {
        PRes::POk { v, next } => PRes::POk { v: OperationDefinitionV::SelectionSet(v), next },
        PRes::PFail { at: a0 } => if a0 != off {
            PRes::PFail { at: a0 }
        } else {
            match p_query(s, off) {
                PRes::POk { v, next } => PRes::POk { v: OperationDefinitionV::Query(v), next },
                PRes::PFail { at: a1 } => if a1 != off {
                    PRes::PFail { at: a1 }
                } else {
                    match p_mutation(s, off) {
                        PRes::POk { v, next } => PRes::POk {
                            v: OperationDefinitionV::Mutation(v),
                            next,
                        },
                        PRes::PFail { at: a2 } => if a2 != off {
                            PRes::PFail { at: a2 }
                        } else {
                            match p_subscription(s, off) {
                                PRes::POk { v, next } => PRes::POk {
                                    v: OperationDefinitionV::Subscription(v),
                                    next,
                                },
                                PRes::PFail { at: a3 } => PRes::PFail { at: a3 },
                            }
                        },
                    }
                },
            }
        },
    }
}

/// `fragment Name on Type directives selection_set`.
pub open spec fn p_fragment_definition(s: Seq<char>, off: int) -> PRes<FragmentDefinitionV>
    decreases s.len() - off, 1int,
{
    match p_ident(s, off, "fragment"@) {
        PRes::PFail { at } => PRes::PFail { at },
        PRes::POk { v: u, next } => match p_name(s, next) {
            PRes::PFail { at } => PRes::PFail { at },
            PRes::POk { v: nm, next: n2 } => match p_ident(s, n2, "on"@) {
                PRes::PFail { at } => PRes::PFail { at },
                PRes::POk { v: u2, next: n3 } => match p_name(s, n3) {
                    PRes::PFail { at } => PRes::PFail { at },
                    PRes::POk { v: tn, next: n4 } => if off < n4 && n4 <= s.len() {
                        match p_directives(s, n4) {
                            PRes::PFail { at } => PRes::PFail { at },
                            PRes::POk { v: dirs, next: n5 } => if off < n5 && n5 <= s.len() {
                                match p_selection_set(s, n5) {
                                    PRes::POk { v: ss, next: n6 } => PRes::POk {
                                        v: FragmentDefinitionV {
                                            name: nm,
                                            type_condition: TypeConditionV::On(tn),
                                            directives: dirs,
                                            selection_set: ss,
                                        },
                                        next: n6,
                                    },
                                    PRes::PFail { at } => PRes::PFail { at },
                                }
                            } else {
                                PRes::PFail { at: n5 }
                            },
                        }
                    } else {
                        PRes::PFail { at: n4 }
                    },
                },
            },
        },
    }
}

/// `definition`: an operation or a fragment definition.
pub open spec fn p_definition(s: Seq<char>, off: int) -> PRes<DefinitionV>
    decreases s.len() - off, 6int,
{
    match p_operation_definition(s, off) {
        PRes::POk { v, next } => PRes::POk { v: DefinitionV::Operation(v), next },
        PRes::PFail { at: a0 } => if a0 != off {
            PRes::PFail { at: a0 }
        } else {
            match p_fragment_definition(s, off) {
                PRes::POk { v, next } => PRes::POk { v: DefinitionV::Fragment(v), next },
                PRes::PFail { at: a1 } => PRes::PFail { at: a1 },
            }
        },
    }
}

pub open spec fn p_many1_definitions(s: Seq<char>, off: int) -> PRes<Seq<DefinitionV>>
    decreases s.len() - off, 7int,
{
    match p_definition(s, off) {
        PRes::PFail { at } => PRes::PFail { at },
        PRes::POk { v, next } => if off < next && next <= s.len() {
            match p_many_definitions(s, next) {
                PRes::POk { v: rest, next: n2 } => PRes::POk { v: seq![v] + rest, next: n2 },
                PRes::PFail { at } => PRes::PFail { at },
            }
        } else {
            PRes::POk { v: seq![v], next }
        },
    }
}

pub open spec fn p_many_definitions(s: Seq<char>, off: int) -> PRes<Seq<DefinitionV>>
    decreases s.len() - off, 8int,
{
    match p_definition(s, off) {
        PRes::PFail { at } => if at == off {
            PRes::POk { v: Seq::empty(), next: off }
        } else {
            PRes::PFail { at }
        },
        PRes::POk { v, next } => if off < next && next <= s.len() {
            match p_many_definitions(s, next) {
                PRes::POk { v: rest, next: n2 } => PRes::POk { v: seq![v] + rest, next: n2 },
                PRes::PFail { at } => PRes::PFail { at },
            }
        } else {
            PRes::POk { v: seq![v], next }
        },
    }
}

/// The whole document: leading insignificant content, one or more
/// definitions, and the end of the input.
pub open spec fn p_document(s: Seq<char>) -> PRes<DocumentV> {
    let off0 = crate::tokenizer::skip_ws_end(s, 0);
    match p_many1_definitions(s, off0) {
        PRes::PFail { at } => PRes::PFail { at },
        PRes::POk { v: defs, next } => match p_eof(s, next) {
            PRes::POk { v: u, next: n2 } => PRes::POk { v: DocumentV { definitions: defs }, next },
            PRes::PFail { at } => PRes::PFail { at },
        },
    }
}


// ---------------------------------------------------------------------------
// The executable productions
// ---------------------------------------------------------------------------

/// A named type standing as a variable's type.
pub fn variable_type(input: &mut TokenStream) -> (r: Result<VariableType, QueryParseError>)
    requires
        old(input).wf(),
    ensures
        final(input).wf(),
        final(input).buf@ == old(input).buf@,
        match p_variable_type(old(input).buf@, old(input).off as int) {
            PRes::POk { v, next } => r matches Ok(x) && variable_type_view(x) == v && final(input).off as int == next,
            PRes::PFail { at } => r matches Err(e) && final(input).off as int == at && e.line
                == final(input).pos.line && e.column == final(input).pos.column,
        },
{
    match name(input) {
        Ok(nm) => Ok(VariableType::NamedType(nm)),
        Err(e) => Err(e),
    }
}

/// An integer literal as a value. A literal of valid shape whose value does
/// not fit the integer range is a range failure, not a wraparound.
pub fn int_value(input: &mut TokenStream) -> (r: Result<Value, QueryParseError>)
    requires
        old(input).wf(),
    ensures
        final(input).wf(),
        final(input).buf@ == old(input).buf@,
        match p_int_value(old(input).buf@, old(input).off as int) {
            PRes::POk { v, next } => r matches Ok(x) && value_view(x) == v && final(input).off as int == next,
            PRes::PFail { at } => r matches Err(e) && final(input).off as int == at && e.line
                == final(input).pos.line && e.column == final(input).pos.column,
        },
        match p_kind(old(input).buf@, old(input).off as int, T::IntValue) {
            PRes::POk { v: text, next } => !int_fits(text) ==> (r matches Err(e) && e.kind
                == ParseErrorKind::NumberTooLarge),
            PRes::PFail { at } => true,
        },
{
    let ghost s = old(input).buf@;
    let ghost off0 = old(input).off as int;
    match kind(input, T::IntValue) {
        Err(e) => Err(e),
        Ok(tok) => {
            proof {
                crate::tokenizer::lemma_int_token_shape(s, off0);
                assert(crate::tokenizer::check_int_spec(tok.value@) && tok.value@.len() > 0 && (
                tok.value@[0] == '-' || is_digit(tok.value@[0])));
            }
            match parse_int_literal(tok.value.as_str()) {
                Ok(x) => Ok(Value::Int(x)),
                Err(u) => Err(err_here(input, ParseErrorKind::NumberTooLarge)),
            }
        },
    }
}

/// A single-line string literal as a value, its escapes decoded.
pub fn string_value(input: &mut TokenStream) -> (r: Result<Value, QueryParseError>)
    requires
        old(input).wf(),
    ensures
        final(input).wf(),
        final(input).buf@ == old(input).buf@,
        match p_string_value(old(input).buf@, old(input).off as int) {
            PRes::POk { v, next } => r matches Ok(x) && value_view(x) == v && final(input).off as int == next,
            PRes::PFail { at } => r matches Err(e) && final(input).off as int == at && e.line
                == final(input).pos.line && e.column == final(input).pos.column,
        },
{
    match kind(input, T::StringValue) {
        Err(e) => Err(e),
        Ok(tok) => match unquote_string(tok.value.as_str()) {
            Ok(sv) => Ok(Value::String(sv)),
            Err(k) => Err(err_here(input, k)),
        },
    }
}

/// A block string literal as a value, dedented.
pub fn block_string_value(input: &mut TokenStream) -> (r: Result<Value, QueryParseError>)
    requires
        old(input).wf(),
    ensures
        final(input).wf(),
        final(input).buf@ == old(input).buf@,
        match p_block_string_value(old(input).buf@, old(input).off as int) {
            PRes::POk { v, next } => r matches Ok(x) && value_view(x) == v && final(input).off as int == next,
            PRes::PFail { at } => r matches Err(e) && final(input).off as int == at && e.line
                == final(input).pos.line && e.column == final(input).pos.column,
        },
{
    match kind(input, T::BlockString) {
        Err(e) => Err(e),
        Ok(tok) => match unquote_block_string(tok.value.as_str()) {
            Ok(sv) => Ok(Value::String(sv)),
            Err(k) => Err(err_here(input, k)),
        },
    }
}

/// One `name: value` pair inside arguments or an object value.
fn pair(input: &mut TokenStream) -> (r: Result<(String, Value), QueryParseError>)
    requires
        old(input).wf(),
    ensures
        final(input).wf(),
        final(input).buf@ == old(input).buf@,
        match p_pair(old(input).buf@, old(input).off as int) {
            PRes::POk { v, next } => r matches Ok(x) && x.0@ == v.0 && value_view(x.1) == v.1
                && final(input).off as int == next,
            PRes::PFail { at } => r matches Err(e) && final(input).off as int == at && e.line
                == final(input).pos.line && e.column == final(input).pos.column,
        },
    decreases old(input).buf@.len() - old(input).off, 2int,
{
    let start = input.off;
    let nm = match name(input) {
        Ok(nm) => nm,
        Err(e) => {
            return Err(e);
        },
    };
    match punct(input, ":") {
        Ok(u) => (),
        Err(e) => {
            return Err(e);
        },
    };
    match value(input) {
        Ok(v) => Ok((nm, v)),
        Err(e) => Err(e),
    }
}

/// The contents of a bracketed list: zero or more values.
fn many_values(input: &mut TokenStream) -> (r: Result<Vec<Value>, QueryParseError>)
    requires
        old(input).wf(),
    ensures
        final(input).wf(),
        final(input).buf@ == old(input).buf@,
        match p_many_values(old(input).buf@, old(input).off as int) {
            PRes::POk { v, next } => r matches Ok(x) && values_view(x@) == v && final(input).off as int == next,
            PRes::PFail { at } => r matches Err(e) && final(input).off as int == at && e.line
                == final(input).pos.line && e.column == final(input).pos.column,
        },
    decreases old(input).buf@.len() - old(input).off, 3int,
{
    let ghost s = old(input).buf@;
    let ghost entry = old(input).off as int;
    let mut items: Vec<Value> = Vec::new();
    proof {
        assert(values_view(items@) =~= Seq::<ValueV>::empty());
    }
    loop
        invariant_except_break
            input.wf(),
            input.buf@ == s,
            s == old(input).buf@,
            entry == old(input).off as int,
            entry <= input.off as int,
            match p_many_values(s, input.off as int) {
                PRes::POk { v: rest, next } => p_many_values(s, entry) == (PRes::POk {
                    v: values_view(items@) + rest,
                    next,
                }),
                PRes::PFail { at } => p_many_values(s, entry) == (PRes::PFail::<Seq<ValueV>> { at }),
            },
        ensures
            input.wf(),
            input.buf@ == s,
            p_many_values(s, entry) == (PRes::POk { v: values_view(items@), next: input.off as int }),
        decreases s.len() - input.off,
    {
        let cur = input.off;
        let ghost items0 = items@;
        match value(input) {
            Err(e) => {
                if input.off == cur {
                    proof {
                        assert(p_many_values(s, cur as int) == (PRes::POk {
                            v: Seq::<ValueV>::empty(),
                            next: cur as int,
                        }));
                        assert(values_view(items@) + Seq::<ValueV>::empty() =~= values_view(
                            items@,
                        ));
                    }
                    break ;
                } else {
                    return Err(e);
                }
            },
            Ok(v) => {
                let ghost vv = value_view(v);
                items.push(v);
                proof {
                    assert(items@.drop_last() =~= items0);
                    assert(value_view(items@.last()) == vv);
                    assert(values_view(items@) =~= values_view(items0).push(vv));
                    assert(values_view(items0).push(vv) =~= values_view(items0) + seq![vv]);
                }
                if input.off <= cur {
                    proof {
                        assert(p_many_values(s, cur as int) == (PRes::POk {
                            v: seq![vv],
                            next: input.off as int,
                        }));
                        assert(values_view(items0) + seq![vv] =~= values_view(items@));
                    }
                    break ;
                }
                proof {
                    match p_many_values(s, input.off as int) {
                        PRes::POk { v: rest, next } => {
                            assert(values_view(items0) + (seq![vv] + rest) =~= values_view(items@)
                                + rest);
                        },
                        PRes::PFail { at } => {},
                    }
                }
            },
        }
    }
    Ok(items)
}

/// The contents of an object value or argument list: zero or more pairs.
fn many_pairs(input: &mut TokenStream) -> (r: Result<Vec<(String, Value)>, QueryParseError>)
    requires
        old(input).wf(),
    ensures
        final(input).wf(),
        final(input).buf@ == old(input).buf@,
        match p_many_pairs(old(input).buf@, old(input).off as int) {
            PRes::POk { v, next } => r matches Ok(x) && pairs_view(x@) == v && final(input).off as int == next,
            PRes::PFail { at } => r matches Err(e) && final(input).off as int == at && e.line
                == final(input).pos.line && e.column == final(input).pos.column,
        },
    decreases old(input).buf@.len() - old(input).off, 4int,
{
    let ghost s = old(input).buf@;
    let ghost entry = old(input).off as int;
    let mut items: Vec<(String, Value)> = Vec::new();
    proof {
        assert(pairs_view(items@) =~= Seq::<(Seq<char>, ValueV)>::empty());
    }
    loop
        invariant_except_break
            input.wf(),
            input.buf@ == s,
            s == old(input).buf@,
            entry == old(input).off as int,
            entry <= input.off as int,
            match p_many_pairs(s, input.off as int) {
                PRes::POk { v: rest, next } => p_many_pairs(s, entry) == (PRes::POk {
                    v: pairs_view(items@) + rest,
                    next,
                }),
                PRes::PFail { at } => p_many_pairs(s, entry) == (PRes::PFail::<Seq<(Seq<char>, ValueV)>> { at }),
            },
        ensures
            input.wf(),
            input.buf@ == s,
            p_many_pairs(s, entry) == (PRes::POk { v: pairs_view(items@), next: input.off as int }),
        decreases s.len() - input.off,
    {
        let cur = input.off;
        let ghost items0 = items@;
        match pair(input) {
            Err(e) => {
                if input.off == cur {
                    proof {
                        assert(pairs_view(items@) + Seq::<(Seq<char>, ValueV)>::empty()
                            =~= pairs_view(items@));
                    }
                    break ;
                } else {
                    return Err(e);
                }
            },
            Ok(p) => {
                let ghost pv = (p.0@, value_view(p.1));
                items.push(p);
                proof {
                    assert(items@.drop_last() =~= items0);
                    assert((items@.last().0@, value_view(items@.last().1)) == pv);
                    assert(pairs_view(items@) =~= pairs_view(items0).push(pv));
                    assert(pairs_view(items0).push(pv) =~= pairs_view(items0) + seq![pv]);
                }
                if input.off <= cur {
                    proof {
                        assert(p_many_pairs(s, cur as int) == (PRes::POk {
                            v: seq![pv],
                            next: input.off as int,
                        }));
                        assert(pairs_view(items0) + seq![pv] =~= pairs_view(items@));
                    }
                    break ;
                }
                proof {
                    match p_many_pairs(s, input.off as int) {
                        PRes::POk { v: rest, next } => {
                            assert(pairs_view(items0) + (seq![pv] + rest) =~= pairs_view(items@)
                                + rest);
                        },
                        PRes::PFail { at } => {},
                    }
                }
            },
        }
    }
    Ok(items)
}

/// `value`: a bare name as an enum value, an integer, a string, a block
/// string, a variable, a bracketed list, or a braced object, tried in that
/// order with backtracking.
pub fn value(input: &mut TokenStream) -> (r: Result<Value, QueryParseError>)
    requires
        old(input).wf(),
    ensures
        final(input).wf(),
        final(input).buf@ == old(input).buf@,
        match p_value(old(input).buf@, old(input).off as int) {
            PRes::POk { v, next } => r matches Ok(x) && value_view(x) == v && final(input).off as int == next,
            PRes::PFail { at } => r matches Err(e) && final(input).off as int == at && e.line
                == final(input).pos.line && e.column == final(input).pos.column,
        },
    decreases old(input).buf@.len() - old(input).off, 1int,
{
    let ghost s = old(input).buf@;
    let start = input.off;
    match name(input) {
        Ok(nm) => {
            return Ok(Value::EnumValue(nm));
        },
        Err(e) => {
            if input.off != start {
                return Err(e);
            }
        },
    }
    match int_value(input) {
        Ok(v) => {
            return Ok(v);
        },
        Err(e) => {
            if input.off != start {
                return Err(e);
            }
        },
    }
    match string_value(input) {
        Ok(v) => {
            return Ok(v);
        },
        Err(e) => {
            if input.off != start {
                return Err(e);
            }
        },
    }
    match block_string_value(input) {
        Ok(v) => {
            return Ok(v);
        },
        Err(e) => {
            if input.off != start {
                return Err(e);
            }
        },
    }
    // a variable: `$ name`
    match punct(input, "$") {
        Ok(u) => {
            match name(input) {
                Ok(nm) => {
                    return Ok(Value::Variable(nm));
                },
                Err(e) => {
                    return Err(e);
                },
            }
        },
        Err(e) => {
            if input.off != start {
                return Err(e);
            }
        },
    }
    // a list: `[ value* ]`
    match punct(input, "[") {
        Ok(u) => {
            let items = match many_values(input) {
                Ok(items) => items,
                Err(e) => {
                    return Err(e);
                },
            };
            match punct(input, "]") {
                Ok(u2) => {
                    return Ok(Value::ListValue(items));
                },
                Err(e) => {
                    return Err(e);
                },
            }
        },
        Err(e) => {
            if input.off != start {
                return Err(e);
            }
        },
    }
    // an object: `{ (name: value)* }`
    match punct(input, "{") {
        Ok(u) => {
            let ps = match many_pairs(input) {
                Ok(ps) => ps,
                Err(e) => {
                    return Err(e);
                },
            };
            match punct(input, "}") {
                Ok(u2) => Ok(Value::ObjectValue(ps)),
                Err(e) => Err(e),
            }
        },
        Err(e) => Err(e),
    }
}

/// The contents of a bracketed default list: zero or more default values.
fn many_defaults(input: &mut TokenStream) -> (r: Result<Vec<Value>, QueryParseError>)
    requires
        old(input).wf(),
    ensures
        final(input).wf(),
        final(input).buf@ == old(input).buf@,
        match p_many_defaults(old(input).buf@, old(input).off as int) {
            PRes::POk { v, next } => r matches Ok(x) && values_view(x@) == v && final(input).off as int == next,
            PRes::PFail { at } => r matches Err(e) && final(input).off as int == at && e.line
                == final(input).pos.line && e.column == final(input).pos.column,
        },
    decreases old(input).buf@.len() - old(input).off, 3int,
{
    let ghost s = old(input).buf@;
    let ghost entry = old(input).off as int;
    let mut items: Vec<Value> = Vec::new();
    proof {
        assert(values_view(items@) =~= Seq::<ValueV>::empty());
    }
    loop
        invariant_except_break
            input.wf(),
            input.buf@ == s,
            s == old(input).buf@,
            entry == old(input).off as int,
            entry <= input.off as int,
            match p_many_defaults(s, input.off as int) {
                PRes::POk { v: rest, next } => p_many_defaults(s, entry) == (PRes::POk {
                    v: values_view(items@) + rest,
                    next,
                }),
                PRes::PFail { at } => p_many_defaults(s, entry) == (PRes::PFail::<Seq<ValueV>> { at }),
            },
        ensures
            input.wf(),
            input.buf@ == s,
            p_many_defaults(s, entry) == (PRes::POk {
                v: values_view(items@),
                next: input.off as int,
            }),
        decreases s.len() - input.off,
    {
        let cur = input.off;
        let ghost items0 = items@;
        match default_value(input) {
            Err(e) => {
                if input.off == cur {
                    proof {
                        assert(values_view(items@) + Seq::<ValueV>::empty() =~= values_view(
                            items@,
                        ));
                    }
                    break ;
                } else {
                    return Err(e);
                }
            },
            Ok(v) => {
                let ghost vv = value_view(v);
                items.push(v);
                proof {
                    assert(items@.drop_last() =~= items0);
                    assert(value_view(items@.last()) == vv);
                    assert(values_view(items@) =~= values_view(items0).push(vv));
                    assert(values_view(items0).push(vv) =~= values_view(items0) + seq![vv]);
                }
                if input.off <= cur {
                    proof {
                        assert(p_many_defaults(s, cur as int) == (PRes::POk {
                            v: seq![vv],
                            next: input.off as int,
                        }));
                        assert(values_view(items0) + seq![vv] =~= values_view(items@));
                    }
                    break ;
                }
                proof {
                    match p_many_defaults(s, input.off as int) {
                        PRes::POk { v: rest, next } => {
                            assert(values_view(items0) + (seq![vv] + rest) =~= values_view(items@)
                                + rest);
                        },
                        PRes::PFail { at } => {},
                    }
                }
            },
        }
    }
    Ok(items)
}

/// `default_value`: the restricted subset of `value` a variable default may
/// use: an enum name, an integer, a block string, or a list of defaults.
pub fn default_value(input: &mut TokenStream) -> (r: Result<Value, QueryParseError>)
    requires
        old(input).wf(),
    ensures
        final(input).wf(),
        final(input).buf@ == old(input).buf@,
        match p_default_value(old(input).buf@, old(input).off as int) {
            PRes::POk { v, next } => r matches Ok(x) && value_view(x) == v && final(input).off as int == next,
            PRes::PFail { at } => r matches Err(e) && final(input).off as int == at && e.line
                == final(input).pos.line && e.column == final(input).pos.column,
        },
    decreases old(input).buf@.len() - old(input).off, 1int,
{
    let ghost s = old(input).buf@;
    let start = input.off;
    match name(input) {
        Ok(nm) => {
            return Ok(Value::EnumValue(nm));
        },
        Err(e) => {
            if input.off != start {
                return Err(e);
            }
        },
    }
    match int_value(input) {
        Ok(v) => {
            return Ok(v);
        },
        Err(e) => {
            if input.off != start {
                return Err(e);
            }
        },
    }
    match block_string_value(input) {
        Ok(v) => {
            return Ok(v);
        },
        Err(e) => {
            if input.off != start {
                return Err(e);
            }
        },
    }
    match punct(input, "[") {
        Ok(u) => {
            let items = match many_defaults(input) {
                Ok(items) => items,
                Err(e) => {
                    return Err(e);
                },
            };
            match punct(input, "]") {
                Ok(u2) => Ok(Value::ListValue(items)),
                Err(e) => Err(e),
            }
        },
        Err(e) => Err(e),
    }
}


/// Mapping selections to their mirrors distributes over concatenation.
proof fn lemma_selections_view_concat(a: Seq<Selection>, b: Seq<Selection>)
    ensures
        selections_view(a + b) == selections_view(a) + selections_view(b),
    decreases b.len(),
{
    if b.len() == 0 {
        assert(a + b =~= a);
        assert(selections_view(a) + selections_view(b) =~= selections_view(a));
    } else {
        lemma_selections_view_concat(a, b.drop_last());
        assert((a + b).drop_last() =~= a + b.drop_last());
        assert((a + b).last() == b.last());
        assert(selections_view(a) + selections_view(b) =~= (selections_view(a)
            + selections_view(b.drop_last())).push(selection_view(b.last())));
    }
}

proof fn lemma_definitions_view_concat(a: Seq<Definition>, b: Seq<Definition>)
    ensures
        definitions_view(a + b) == definitions_view(a) + definitions_view(b),
    decreases b.len(),
{
    if b.len() == 0 {
        assert(a + b =~= a);
        assert(definitions_view(a) + definitions_view(b) =~= definitions_view(a));
    } else {
        lemma_definitions_view_concat(a, b.drop_last());
        assert((a + b).drop_last() =~= a + b.drop_last());
        assert((a + b).last() == b.last());
        assert(definitions_view(a) + definitions_view(b) =~= (definitions_view(a)
            + definitions_view(b.drop_last())).push(definition_view(b.last())));
    }
}

/// `@ name arguments`, one directive.
fn directive(input: &mut TokenStream) -> (r: Result<Directive, QueryParseError>)
    requires
        old(input).wf(),
    ensures
        final(input).wf(),
        final(input).buf@ == old(input).buf@,
        match p_directive(old(input).buf@, old(input).off as int) {
            PRes::POk { v, next } => r matches Ok(x) && directive_view(x) == v && final(
                input).off as int == next,
            PRes::PFail { at } => r matches Err(e) && final(input).off as int == at && e.line
                == final(input).pos.line && e.column == final(input).pos.column,
        },
    decreases old(input).buf@.len() - old(input).off, 5int,
{
    let start = input.off;
    match punct(input, "@") {
        Ok(u) => (),
        Err(e) => {
            return Err(e);
        },
    };
    let nm = match name(input) {
        Ok(nm) => nm,
        Err(e) => {
            return Err(e);
        },
    };
    let args = match arguments(input) {
        Ok(a) => a,
        Err(e) => {
            return Err(e);
        },
    };
    Ok(Directive { name: nm, arguments: args })
}

/// Zero or more directives.
pub fn directives(input: &mut TokenStream) -> (r: Result<Vec<Directive>, QueryParseError>)
    requires
        old(input).wf(),
    ensures
        final(input).wf(),
        final(input).buf@ == old(input).buf@,
        match p_directives(old(input).buf@, old(input).off as int) {
            PRes::POk { v, next } => r matches Ok(x) && directives_view(x) == v && final(
                input).off as int == next,
            PRes::PFail { at } => r matches Err(e) && final(input).off as int == at && e.line
                == final(input).pos.line && e.column == final(input).pos.column,
        },
    decreases old(input).buf@.len() - old(input).off, 6int,
{
    let ghost s = old(input).buf@;
    let ghost entry = old(input).off as int;
    let mut items: Vec<Directive> = Vec::new();
    proof {
        assert(directives_seq_view(items@) =~= Seq::<DirectiveV>::empty());
    }
    loop
        invariant_except_break
            input.wf(),
            input.buf@ == s,
            s == old(input).buf@,
            entry == old(input).off as int,
            entry <= input.off as int,
            match p_directives(s, input.off as int) {
                PRes::POk { v: rest, next } => p_directives(s, entry) == (PRes::POk {
                    v: directives_seq_view(items@) + rest,
                    next,
                }),
                PRes::PFail { at } => p_directives(s, entry) == (PRes::PFail::<Seq<DirectiveV>> { at }),
            },
        ensures
            input.wf(),
            input.buf@ == s,
            p_directives(s, entry) == (PRes::POk {
                v: directives_seq_view(items@),
                next: input.off as int,
            }),
        decreases s.len() - input.off,
    {
        let cur = input.off;
        let ghost items0 = items@;
        match directive(input) {
            Err(e) => {
                if input.off == cur {
                    proof {
                        assert(directives_seq_view(items@) + Seq::<DirectiveV>::empty()
                            =~= directives_seq_view(items@));
                    }
                    break ;
                } else {
                    return Err(e);
                }
            },
            Ok(d) => {
                let ghost dv = directive_view(d);
                items.push(d);
                proof {
                    assert(items@.drop_last() =~= items0);
                    assert(directive_view(items@.last()) == dv);
                    assert(directives_seq_view(items@) =~= directives_seq_view(items0).push(dv));
                    assert(directives_seq_view(items0).push(dv) =~= directives_seq_view(items0)
                        + seq![dv]);
                }
                if input.off <= cur {
                    proof {
                        assert(p_directives(s, cur as int) == (PRes::POk {
                            v: seq![dv],
                            next: input.off as int,
                        }));
                        assert(directives_seq_view(items0) + seq![dv] =~= directives_seq_view(
                            items@,
                        ));
                    }
                    break ;
                }
                proof {
                    match p_directives(s, input.off as int) {
                        PRes::POk { v: rest, next } => {
                            assert(directives_seq_view(items0) + (seq![dv] + rest)
                                =~= directives_seq_view(items@) + rest);
                        },
                        PRes::PFail { at } => {},
                    }
                }
            },
        }
    }
    Ok(items)
}

/// `arguments`: an optional parenthesized list of at least one `name: value`
/// pair; an absent parenthesis yields the empty list.
pub fn arguments(input: &mut TokenStream) -> (r: Result<
    Vec<(String, Value)>,
    QueryParseError,
>)
    requires
        old(input).wf(),
    ensures
        final(input).wf(),
        final(input).buf@ == old(input).buf@,
        match p_arguments(old(input).buf@, old(input).off as int) {
            PRes::POk { v, next } => r matches Ok(x) && pairs_view(x@) == v && final(
                input).off as int == next,
            PRes::PFail { at } => r matches Err(e) && final(input).off as int == at && e.line
                == final(input).pos.line && e.column == final(input).pos.column,
        },
    decreases old(input).buf@.len() - old(input).off, 7int,
{
    let ghost s = old(input).buf@;
    let start = input.off;
    match punct(input, "(") {
        Err(e) => {
            let items: Vec<(String, Value)> = Vec::new();
            proof {
                assert(pairs_view(items@) =~= Seq::<(Seq<char>, ValueV)>::empty());
            }
            return Ok(items);
        },
        Ok(u) => (),
    };
    let after_paren = input.off;
    let first = match pair(input) {
        Ok(p) => p,
        Err(e) => {
            return Err(e);
        },
    };
    if input.off <= after_paren {
        return Err(err_here(input, ParseErrorKind::ExpectedToken));
    }
    let mut rest = match many_pairs(input) {
        Ok(ps) => ps,
        Err(e) => {
            return Err(e);
        },
    };
    let ghost gfirst = first;
    let ghost firstv = (first.0@, value_view(first.1));
    let ghost restv = rest@;
    let mut items: Vec<(String, Value)> = Vec::new();
    items.push(first);
    proof {
        assert(items@ =~= Seq::<(String, Value)>::empty().push(gfirst));
        assert(items@.drop_last() =~= Seq::<(String, Value)>::empty());
        assert(items@.last() == gfirst);
        assert(pairs_view(items@.drop_last()) =~= Seq::<(Seq<char>, ValueV)>::empty());
        assert(pairs_view(items@) == pairs_view(items@.drop_last()).push(
            (items@.last().0@, value_view(items@.last().1)),
        ));
        assert(pairs_view(items@) =~= seq![firstv]);
    }
    let ghost single = items@;
    items.append(&mut rest);
    proof {
        assert(items@ =~= single + restv);
        lemma_pairs_view_concat(single, restv);
        assert(pairs_view(items@) =~= seq![firstv] + pairs_view(restv));
    }
    match punct(input, ")") {
        Ok(u) => Ok(items),
        Err(e) => Err(e),
    }
}

proof fn lemma_pairs_view_concat(a: Seq<(String, Value)>, b: Seq<(String, Value)>)
    ensures
        pairs_view(a + b) == pairs_view(a) + pairs_view(b),
    decreases b.len(),
{
    if b.len() == 0 {
        assert(a + b =~= a);
        assert(pairs_view(a) + pairs_view(b) =~= pairs_view(a));
    } else {
        lemma_pairs_view_concat(a, b.drop_last());
        assert((a + b).drop_last() =~= a + b.drop_last());
        assert((a + b).last() == b.last());
        assert(pairs_view(a) + pairs_view(b) =~= (pairs_view(a) + pairs_view(
            b.drop_last(),
        )).push((b.last().0@, value_view(b.last().1))));
    }
}

/// `field`: a name, an optional `: name` (the first name is then the
/// alias), arguments, directives, and an optional selection set.
pub fn field(input: &mut TokenStream) -> (r: Result<Field, QueryParseError>)
    requires
        old(input).wf(),
    ensures
        final(input).wf(),
        final(input).buf@ == old(input).buf@,
        match p_field(old(input).buf@, old(input).off as int) {
            PRes::POk { v, next } => r matches Ok(x) && field_view(x) == v && final(
                input).off as int == next,
            PRes::PFail { at } => r matches Err(e) && final(input).off as int == at && e.line
                == final(input).pos.line && e.column == final(input).pos.column,
        },
    decreases old(input).buf@.len() - old(input).off, 9int,
{
    let ghost s = old(input).buf@;
    let start = input.off;
    let name_or_alias = match name(input) {
        Ok(n) => n,
        Err(e) => {
            return Err(e);
        },
    };
    let alias_and_name: (Option<String>, String) = match punct(input, ":") {
        Err(e) => (None, name_or_alias),
        Ok(u) => match name(input) {
            Ok(n2) => (Some(name_or_alias), n2),
            Err(e) => {
                return Err(e);
            },
        },
    };
    if input.off <= start {
        return Err(err_here(input, ParseErrorKind::ExpectedToken));
    }
    let args = match arguments(input) {
        Ok(a) => a,
        Err(e) => {
            return Err(e);
        },
    };
    if input.off <= start {
        return Err(err_here(input, ParseErrorKind::ExpectedToken));
    }
    let dirs = match directives(input) {
        Ok(d) => d,
        Err(e) => {
            return Err(e);
        },
    };
    if input.off <= start {
        return Err(err_here(input, ParseErrorKind::ExpectedToken));
    }
    let cur = input.off;
    match selection_set(input) {
        Ok(ss) => Ok(
            Field {
                alias: alias_and_name.0,
                name: alias_and_name.1,
                arguments: args,
                directives: dirs,
                selection_set: ss,
            },
        ),
        Err(e) => {
            if input.off == cur {
                let f = Field {
                    alias: alias_and_name.0,
                    name: alias_and_name.1,
                    arguments: args,
                    directives: dirs,
                    selection_set: empty_selection(),
                };
                Ok(f)
            } else {
                Err(e)
            }
        },
    }
}

/// The tail of a fragment spread after `...`.
fn spread_tail(input: &mut TokenStream) -> (r: Result<FragmentSpread, QueryParseError>)
    requires
        old(input).wf(),
    ensures
        final(input).wf(),
        final(input).buf@ == old(input).buf@,
        match p_spread_tail(old(input).buf@, old(input).off as int) {
            PRes::POk { v, next } => r matches Ok(x) && x.fragment_name@ == v.fragment_name
                && directives_view(x.directives) == v.directives && final(input).off as int
                == next,
            PRes::PFail { at } => r matches Err(e) && final(input).off as int == at && e.line
                == final(input).pos.line && e.column == final(input).pos.column,
        },
    decreases old(input).buf@.len() - old(input).off, 9int,
{
    let nm = match name(input) {
        Ok(n) => n,
        Err(e) => {
            return Err(e);
        },
    };
    let dirs = match directives(input) {
        Ok(d) => d,
        Err(e) => {
            return Err(e);
        },
    };
    Ok(FragmentSpread { fragment_name: nm, directives: dirs })
}

/// The tail of an inline fragment after `...`: an optional type condition,
/// directives, and a required selection set.
#[verifier::rlimit(100)]
fn inline_fragment_tail(input: &mut TokenStream) -> (r: Result<
    InlineFragment,
    QueryParseError,
>)
    requires
        old(input).wf(),
    ensures
        final(input).wf(),
        final(input).buf@ == old(input).buf@,
        match p_inline_fragment(old(input).buf@, old(input).off as int) {
            PRes::POk { v, next } => r matches Ok(x) && opt_type_condition_view(x.type_condition)
                == v.type_condition && directives_view(x.directives) == v.directives
                && selection_set_view(x.selection_set) == v.selection_set && final(
                input).off as int == next,
            PRes::PFail { at } => r matches Err(e) && final(input).off as int == at && e.line
                == final(input).pos.line && e.column == final(input).pos.column,
        },
    decreases old(input).buf@.len() - old(input).off, 11int,
{
    let start = input.off;
    let cond: Option<TypeCondition> = match ident(input, "on") {
        Err(e) => None,
        Ok(u) => match name(input) {
            Ok(n) => Some(TypeCondition::On(n)),
            Err(e) => {
                return Err(e);
            },
        },
    };
    if input.off < start {
        return Err(err_here(input, ParseErrorKind::ExpectedToken));
    }
    let dirs = match directives(input) {
        Ok(d) => d,
        Err(e) => {
            return Err(e);
        },
    };
    if input.off < start {
        return Err(err_here(input, ParseErrorKind::ExpectedToken));
    }
    match selection_set(input) {
        Ok(ss) => Ok(
            InlineFragment { type_condition: cond, directives: dirs, selection_set: ss },
        ),
        Err(e) => Err(e),
    }
}

/// `selection`: a field, or `...` followed by an inline fragment or a
/// fragment spread.
pub fn selection(input: &mut TokenStream) -> (r: Result<Selection, QueryParseError>)
    requires
        old(input).wf(),
    ensures
        final(input).wf(),
        final(input).buf@ == old(input).buf@,
        match p_selection(old(input).buf@, old(input).off as int) {
            PRes::POk { v, next } => r matches Ok(x) && selection_view(x) == v && final(
                input).off as int == next,
            PRes::PFail { at } => r matches Err(e) && final(input).off as int == at && e.line
                == final(input).pos.line && e.column == final(input).pos.column,
        },
    decreases old(input).buf@.len() - old(input).off, 10int,
{
    let start = input.off;
    match field(input) {
        Ok(f) => {
            return Ok(Selection::Field(f));
        },
        Err(e) => {
            if input.off != start {
                return Err(e);
            }
        },
    }
    match punct(input, "...") {
        Err(e) => Err(e),
        Ok(u) => {
            let cur = input.off;
            match inline_fragment_tail(input) {
                Ok(inl) => Ok(Selection::InlineFragment(inl)),
                Err(e) => {
                    if input.off == cur {
                        match spread_tail(input) {
                            Ok(fs) => Ok(Selection::FragmentSpread(fs)),
                            Err(e2) => Err(e2),
                        }
                    } else {
                        Err(e)
                    }
                },
            }
        },
    }
}

/// Zero or more selections.
fn many_selections(input: &mut TokenStream) -> (r: Result<Vec<Selection>, QueryParseError>)
    requires
        old(input).wf(),
    ensures
        final(input).wf(),
        final(input).buf@ == old(input).buf@,
        match p_many_selections(old(input).buf@, old(input).off as int) {
            PRes::POk { v, next } => r matches Ok(x) && selections_view(x@) == v && final(
                input).off as int == next,
            PRes::PFail { at } => r matches Err(e) && final(input).off as int == at && e.line
                == final(input).pos.line && e.column == final(input).pos.column,
        },
    decreases old(input).buf@.len() - old(input).off, 12int,
{
    let ghost s = old(input).buf@;
    let ghost entry = old(input).off as int;
    let mut items: Vec<Selection> = Vec::new();
    proof {
        assert(selections_view(items@) =~= Seq::<SelectionV>::empty());
    }
    loop
        invariant_except_break
            input.wf(),
            input.buf@ == s,
            s == old(input).buf@,
            entry == old(input).off as int,
            entry <= input.off as int,
            match p_many_selections(s, input.off as int) {
                PRes::POk { v: rest, next } => p_many_selections(s, entry) == (PRes::POk {
                    v: selections_view(items@) + rest,
                    next,
                }),
                PRes::PFail { at } => p_many_selections(s, entry) == (PRes::PFail::<
                    Seq<SelectionV>,
                > { at }),
            },
        ensures
            input.wf(),
            input.buf@ == s,
            p_many_selections(s, entry) == (PRes::POk {
                v: selections_view(items@),
                next: input.off as int,
            }),
        decreases s.len() - input.off,
    {
        let cur = input.off;
        let ghost items0 = items@;
        match selection(input) {
            Err(e) => {
                if input.off == cur {
                    proof {
                        assert(selections_view(items@) + Seq::<SelectionV>::empty()
                            =~= selections_view(items@));
                    }
                    break ;
                } else {
                    return Err(e);
                }
            },
            Ok(x) => {
                let ghost xv = selection_view(x);
                items.push(x);
                proof {
                    assert(items@.drop_last() =~= items0);
                    assert(selection_view(items@.last()) == xv);
                    assert(selections_view(items@) =~= selections_view(items0).push(xv));
                    assert(selections_view(items0).push(xv) =~= selections_view(items0)
                        + seq![xv]);
                }
                if input.off <= cur {
                    proof {
                        assert(p_many_selections(s, cur as int) == (PRes::POk {
                            v: seq![xv],
                            next: input.off as int,
                        }));
                        assert(selections_view(items0) + seq![xv] =~= selections_view(items@));
                    }
                    break ;
                }
                proof {
                    match p_many_selections(s, input.off as int) {
                        PRes::POk { v: rest, next } => {
                            assert(selections_view(items0) + (seq![xv] + rest)
                                =~= selections_view(items@) + rest);
                        },
                        PRes::PFail { at } => {},
                    }
                }
            },
        }
    }
    Ok(items)
}

/// `selection_set`: `{`, one or more selections, `}`.
#[verifier::rlimit(100)]
pub fn selection_set(input: &mut TokenStream) -> (r: Result<SelectionSet, QueryParseError>)
    requires
        old(input).wf(),
    ensures
        final(input).wf(),
        final(input).buf@ == old(input).buf@,
        match p_selection_set(old(input).buf@, old(input).off as int) {
            PRes::POk { v, next } => r matches Ok(x) && selection_set_view(x) == v && final(
                input).off as int == next,
            PRes::PFail { at } => r matches Err(e) && final(input).off as int == at && e.line
                == final(input).pos.line && e.column == final(input).pos.column,
        },
    decreases old(input).buf@.len() - old(input).off, 8int,
{
    let ghost s = old(input).buf@;
    let start = input.off;
    match punct(input, "{") {
        Ok(u) => (),
        Err(e) => {
            return Err(e);
        },
    };
    let sel_entry = input.off;
    let first = match selection(input) {
        Ok(x) => x,
        Err(e) => {
            return Err(e);
        },
    };
    let ghost gfirst = first;
    let ghost firstv = selection_view(first);
    let mut items: Vec<Selection> = Vec::new();
    items.push(first);
    proof {
        assert(items@ =~= Seq::<Selection>::empty().push(gfirst));
        assert(items@.drop_last() =~= Seq::<Selection>::empty());
        assert(items@.last() == gfirst);
        assert(selections_view(items@.drop_last()) =~= Seq::<SelectionV>::empty());
        assert(selections_view(items@) == selections_view(items@.drop_last()).push(
            selection_view(items@.last()),
        ));
        assert(selections_view(items@) =~= seq![firstv]);
    }
    if input.off > sel_entry {
        let mut rest = match many_selections(input) {
            Ok(xs) => xs,
            Err(e) => {
                return Err(e);
            },
        };
        let ghost restv = rest@;
        let ghost single = items@;
        items.append(&mut rest);
        proof {
            assert(items@ =~= single + restv);
            lemma_selections_view_concat(single, restv);
            assert(selections_view(items@) =~= seq![firstv] + selections_view(restv));
        }
    }
    match punct(input, "}") {
        Ok(u) => Ok(SelectionSet { items }),
        Err(e) => Err(e),
    }
}


/// `$ name : type`, with an optional `= default`.
fn variable_definition(input: &mut TokenStream) -> (r: Result<
    VariableDefinition,
    QueryParseError,
>)
    requires
        old(input).wf(),
    ensures
        final(input).wf(),
        final(input).buf@ == old(input).buf@,
        match p_variable_definition(old(input).buf@, old(input).off as int) {
            PRes::POk { v, next } => r matches Ok(x) && variable_definition_view(x) == v && final(
                input).off as int == next,
            PRes::PFail { at } => r matches Err(e) && final(input).off as int == at && e.line
                == final(input).pos.line && e.column == final(input).pos.column,
        },
    decreases old(input).buf@.len() - old(input).off, 13int,
{
    let start = input.off;
    match punct(input, "$") {
        Ok(u) => (),
        Err(e) => {
            return Err(e);
        },
    };
    let nm = match name(input) {
        Ok(n) => n,
        Err(e) => {
            return Err(e);
        },
    };
    match punct(input, ":") {
        Ok(u) => (),
        Err(e) => {
            return Err(e);
        },
    };
    let vt = match variable_type(input) {
        Ok(t) => t,
        Err(e) => {
            return Err(e);
        },
    };
    let dv: Option<Value> = match punct(input, "=") {
        Err(e) => None,
        Ok(u) => {
            if input.off <= start {
                return Err(err_here(input, ParseErrorKind::ExpectedToken));
            }
            match default_value(input) {
                Ok(d) => Some(d),
                Err(e) => {
                    return Err(e);
                },
            }
        },
    };
    Ok(VariableDefinition { name: nm, var_type: vt, default_value: dv })
}

/// Zero or more variable definitions.
fn many_var_defs(input: &mut TokenStream) -> (r: Result<
    Vec<VariableDefinition>,
    QueryParseError,
>)
    requires
        old(input).wf(),
    ensures
        final(input).wf(),
        final(input).buf@ == old(input).buf@,
        match p_many_var_defs(old(input).buf@, old(input).off as int) {
            PRes::POk { v, next } => r matches Ok(x) && variable_definitions_seq_view(x@) == v
                && final(input).off as int == next,
            PRes::PFail { at } => r matches Err(e) && final(input).off as int == at && e.line
                == final(input).pos.line && e.column == final(input).pos.column,
        },
    decreases old(input).buf@.len() - old(input).off, 14int,
{
    let ghost s = old(input).buf@;
    let ghost entry = old(input).off as int;
    let mut items: Vec<VariableDefinition> = Vec::new();
    proof {
        assert(variable_definitions_seq_view(items@) =~= Seq::<VariableDefinitionV>::empty());
    }
    loop
        invariant_except_break
            input.wf(),
            input.buf@ == s,
            s == old(input).buf@,
            entry == old(input).off as int,
            entry <= input.off as int,
            match p_many_var_defs(s, input.off as int) {
                PRes::POk { v: rest, next } => p_many_var_defs(s, entry) == (PRes::POk {
                    v: variable_definitions_seq_view(items@) + rest,
                    next,
                }),
                PRes::PFail { at } => p_many_var_defs(s, entry) == (PRes::PFail::<Seq<VariableDefinitionV>> { at }),
            },
        ensures
            input.wf(),
            input.buf@ == s,
            p_many_var_defs(s, entry) == (PRes::POk {
                v: variable_definitions_seq_view(items@),
                next: input.off as int,
            }),
        decreases s.len() - input.off,
    {
        let cur = input.off;
        let ghost items0 = items@;
        match variable_definition(input) {
            Err(e) => {
                if input.off == cur {
                    proof {
                        assert(variable_definitions_seq_view(items@) + Seq::<
                            VariableDefinitionV,
                        >::empty() =~= variable_definitions_seq_view(items@));
                    }
                    break ;
                } else {
                    return Err(e);
                }
            },
            Ok(x) => {
                let ghost xv = variable_definition_view(x);
                items.push(x);
                proof {
                    assert(items@.drop_last() =~= items0);
                    assert(variable_definition_view(items@.last()) == xv);
                    assert(variable_definitions_seq_view(items@)
                        =~= variable_definitions_seq_view(items0).push(xv));
                    assert(variable_definitions_seq_view(items0).push(xv)
                        =~= variable_definitions_seq_view(items0) + seq![xv]);
                }
                if input.off <= cur {
                    proof {
                        assert(p_many_var_defs(s, cur as int) == (PRes::POk {
                            v: seq![xv],
                            next: input.off as int,
                        }));
                        assert(variable_definitions_seq_view(items0) + seq![xv]
                            =~= variable_definitions_seq_view(items@));
                    }
                    break ;
                }
                proof {
                    match p_many_var_defs(s, input.off as int) {
                        PRes::POk { v: rest, next } => {
                            assert(variable_definitions_seq_view(items0) + (seq![xv] + rest)
                                =~= variable_definitions_seq_view(items@) + rest);
                        },
                        PRes::PFail { at } => {},
                    }
                }
            },
        }
    }
    Ok(items)
}

/// The common body of an operation: an optional name, an optional
/// parenthesized list of at least one variable definition, and a required
/// selection set.
#[verifier::rlimit(100)]
pub fn operation_common(input: &mut TokenStream) -> (r: Result<
    (Option<String>, Vec<VariableDefinition>, SelectionSet),
    QueryParseError,
>)
    requires
        old(input).wf(),
    ensures
        final(input).wf(),
        final(input).buf@ == old(input).buf@,
        match p_operation_common(old(input).buf@, old(input).off as int) {
            PRes::POk { v, next } => r matches Ok(x) && opt_string_view(x.0) == v.0
                && variable_definitions_view(x.1) == v.1 && selection_set_view(x.2) == v.2
                && final(input).off as int == next,
            PRes::PFail { at } => r matches Err(e) && final(input).off as int == at && e.line
                == final(input).pos.line && e.column == final(input).pos.column,
        },
    decreases old(input).buf@.len() - old(input).off, 15int,
{
    let ghost s = old(input).buf@;
    let start = input.off;
    let opt_nm: Option<String> = match name(input) {
        Ok(n) => Some(n),
        Err(e) => None,
    };
    let vars: Vec<VariableDefinition> = match punct(input, "(") {
        Err(e) => {
            let vs: Vec<VariableDefinition> = Vec::new();
            proof {
                assert(variable_definitions_seq_view(vs@) =~= Seq::<
                    VariableDefinitionV,
                >::empty());
            }
            vs
        },
        Ok(u) => {
            let vs = match many_var_defs(input) {
                Ok(xs) => xs,
                Err(e) => {
                    return Err(e);
                },
            };
            match punct(input, ")") {
                Ok(u2) => vs,
                Err(e) => {
                    return Err(e);
                },
            }
        },
    };
    if input.off < start {
        return Err(err_here(input, ParseErrorKind::ExpectedToken));
    }
    match selection_set(input) {
        Ok(ss) => Ok((opt_nm, vars, ss)),
        Err(e) => Err(e),
    }
}

/// `query Name(vars) { ... }`. Directives on operations are not parsed and
/// stay empty.
pub fn query(input: &mut TokenStream) -> (r: Result<Query, QueryParseError>)
    requires
        old(input).wf(),
    ensures
        final(input).wf(),
        final(input).buf@ == old(input).buf@,
        match p_query(old(input).buf@, old(input).off as int) {
            PRes::POk { v, next } => r matches Ok(x) && opt_string_view(x.name) == v.name
                && variable_definitions_view(x.variable_definitions) == v.variable_definitions
                && directives_view(x.directives) == v.directives && selection_set_view(
                x.selection_set,
            ) == v.selection_set && final(input).off as int == next,
            PRes::PFail { at } => r matches Err(e) && final(input).off as int == at && e.line
                == final(input).pos.line && e.column == final(input).pos.column,
        },
    decreases old(input).buf@.len() - old(input).off, 16int,
{
    match ident(input, "query") {
        Ok(u) => (),
        Err(e) => {
            return Err(e);
        },
    };
    match operation_common(input) {
        Ok(oc) => {
            let q = Query {
                name: oc.0,
                variable_definitions: oc.1,
                directives: Vec::new(),
                selection_set: oc.2,
            };
            proof {
                assert(directives_seq_view(q.directives@) =~= Seq::<DirectiveV>::empty());
            }
            Ok(q)
        },
        Err(e) => Err(e),
    }
}

/// `mutation Name(vars) { ... }`.
pub fn mutation(input: &mut TokenStream) -> (r: Result<Mutation, QueryParseError>)
    requires
        old(input).wf(),
    ensures
        final(input).wf(),
        final(input).buf@ == old(input).buf@,
        match p_mutation(old(input).buf@, old(input).off as int) {
            PRes::POk { v, next } => r matches Ok(x) && opt_string_view(x.name) == v.name
                && variable_definitions_view(x.variable_definitions) == v.variable_definitions
                && directives_view(x.directives) == v.directives && selection_set_view(
                x.selection_set,
            ) == v.selection_set && final(input).off as int == next,
            PRes::PFail { at } => r matches Err(e) && final(input).off as int == at && e.line
                == final(input).pos.line && e.column == final(input).pos.column,
        },
    decreases old(input).buf@.len() - old(input).off, 16int,
{
    match ident(input, "mutation") {
        Ok(u) => (),
        Err(e) => {
            return Err(e);
        },
    };
    match operation_common(input) {
        Ok(oc) => {
            let q = Mutation {
                name: oc.0,
                variable_definitions: oc.1,
                directives: Vec::new(),
                selection_set: oc.2,
            };
            proof {
                assert(directives_seq_view(q.directives@) =~= Seq::<DirectiveV>::empty());
            }
            Ok(q)
        },
        Err(e) => Err(e),
    }
}

/// `subscription Name(vars) { ... }`.
pub fn subscription(input: &mut TokenStream) -> (r: Result<Subscription, QueryParseError>)
    requires
        old(input).wf(),
    ensures
        final(input).wf(),
        final(input).buf@ == old(input).buf@,
        match p_subscription(old(input).buf@, old(input).off as int) {
            PRes::POk { v, next } => r matches Ok(x) && opt_string_view(x.name) == v.name
                && variable_definitions_view(x.variable_definitions) == v.variable_definitions
                && directives_view(x.directives) == v.directives && selection_set_view(
                x.selection_set,
            ) == v.selection_set && final(input).off as int == next,
            PRes::PFail { at } => r matches Err(e) && final(input).off as int == at && e.line
                == final(input).pos.line && e.column == final(input).pos.column,
        },
    decreases old(input).buf@.len() - old(input).off, 16int,
{
    match ident(input, "subscription") {
        Ok(u) => (),
        Err(e) => {
            return Err(e);
        },
    };
    match operation_common(input) {
        Ok(oc) => {
            let q = Subscription {
                name: oc.0,
                variable_definitions: oc.1,
                directives: Vec::new(),
                selection_set: oc.2,
            };
            proof {
                assert(directives_seq_view(q.directives@) =~= Seq::<DirectiveV>::empty());
            }
            Ok(q)
        },
        Err(e) => Err(e),
    }
}

/// `operation_definition`: a bare selection set (shorthand query), or a
/// keyworded query, mutation or subscription, tried in that order with
/// backtracking.
#[verifier::rlimit(100)]
pub fn operation_definition(input: &mut TokenStream) -> (r: Result<
    OperationDefinition,
    QueryParseError,
>)
    requires
        old(input).wf(),
    ensures
        final(input).wf(),
        final(input).buf@ == old(input).buf@,
        match p_operation_definition(old(input).buf@, old(input).off as int) {
            PRes::POk { v, next } => r matches Ok(x) && operation_definition_view(x) == v
                && final(input).off as int == next,
            PRes::PFail { at } => r matches Err(e) && final(input).off as int == at && e.line
                == final(input).pos.line && e.column == final(input).pos.column,
        },
    decreases old(input).buf@.len() - old(input).off, 17int,
{
    let start = input.off;
    match selection_set(input) {
        Ok(ss) => {
            return Ok(OperationDefinition::SelectionSet(ss));
        },
        Err(e) => {
            if input.off != start {
                return Err(e);
            }
        },
    }
    match query(input) {
        Ok(q) => {
            return Ok(OperationDefinition::Query(q));
        },
        Err(e) => {
            if input.off != start {
                return Err(e);
            }
        },
    }
    match mutation(input) {
        Ok(m) => {
            return Ok(OperationDefinition::Mutation(m));
        },
        Err(e) => {
            if input.off != start {
                return Err(e);
            }
        },
    }
    match subscription(input) {
        Ok(sb) => Ok(OperationDefinition::Subscription(sb)),
        Err(e) => Err(e),
    }
}

/// `fragment Name on Type directives selection_set`.
#[verifier::rlimit(100)]
pub fn fragment_definition(input: &mut TokenStream) -> (r: Result<
    FragmentDefinition,
    QueryParseError,
>)
    requires
        old(input).wf(),
    ensures
        final(input).wf(),
        final(input).buf@ == old(input).buf@,
        match p_fragment_definition(old(input).buf@, old(input).off as int) {
            PRes::POk { v, next } => r matches Ok(x) && fragment_definition_view(x) == v
                && final(input).off as int == next,
            PRes::PFail { at } => r matches Err(e) && final(input).off as int == at && e.line
                == final(input).pos.line && e.column == final(input).pos.column,
        },
    decreases old(input).buf@.len() - old(input).off, 16int,
{
    let start = input.off;
    match ident(input, "fragment") {
        Ok(u) => (),
        Err(e) => {
            return Err(e);
        },
    };
    let nm = match name(input) {
        Ok(n) => n,
        Err(e) => {
            return Err(e);
        },
    };
    match ident(input, "on") {
        Ok(u) => (),
        Err(e) => {
            return Err(e);
        },
    };
    let tn = match name(input) {
        Ok(n) => n,
        Err(e) => {
            return Err(e);
        },
    };
    let dirs = match directives(input) {
        Ok(d) => d,
        Err(e) => {
            return Err(e);
        },
    };
    if input.off <= start {
        return Err(err_here(input, ParseErrorKind::ExpectedToken));
    }
    match selection_set(input) {
        Ok(ss) => Ok(
            FragmentDefinition {
                name: nm,
                type_condition: TypeCondition::On(tn),
                directives: dirs,
                selection_set: ss,
            },
        ),
        Err(e) => Err(e),
    }
}

/// `definition`: an operation or a fragment definition.
#[verifier::rlimit(100)]
pub fn definition(input: &mut TokenStream) -> (r: Result<Definition, QueryParseError>)
    requires
        old(input).wf(),
    ensures
        final(input).wf(),
        final(input).buf@ == old(input).buf@,
        match p_definition(old(input).buf@, old(input).off as int) {
            PRes::POk { v, next } => r matches Ok(x) && definition_view(x) == v && final(
                input).off as int == next,
            PRes::PFail { at } => r matches Err(e) && final(input).off as int == at && e.line
                == final(input).pos.line && e.column == final(input).pos.column,
        },
    decreases old(input).buf@.len() - old(input).off, 18int,
{
    let start = input.off;
    match operation_definition(input) {
        Ok(o) => {
            return Ok(Definition::Operation(o));
        },
        Err(e) => {
            if input.off != start {
                return Err(e);
            }
        },
    }
    match fragment_definition(input) {
        Ok(f) => Ok(Definition::Fragment(f)),
        Err(e) => Err(e),
    }
}

/// Zero or more definitions.
#[verifier::rlimit(100)]
fn many_definitions(input: &mut TokenStream) -> (r: Result<Vec<Definition>, QueryParseError>)
    requires
        old(input).wf(),
    ensures
        final(input).wf(),
        final(input).buf@ == old(input).buf@,
        match p_many_definitions(old(input).buf@, old(input).off as int) {
            PRes::POk { v, next } => r matches Ok(x) && definitions_view(x@) == v && final(
                input).off as int == next,
            PRes::PFail { at } => r matches Err(e) && final(input).off as int == at && e.line
                == final(input).pos.line && e.column == final(input).pos.column,
        },
    decreases old(input).buf@.len() - old(input).off, 19int,
{
    let ghost s = old(input).buf@;
    let ghost entry = old(input).off as int;
    let mut items: Vec<Definition> = Vec::new();
    proof {
        assert(definitions_view(items@) =~= Seq::<DefinitionV>::empty());
    }
    loop
        invariant_except_break
            input.wf(),
            input.buf@ == s,
            s == old(input).buf@,
            entry == old(input).off as int,
            entry <= input.off as int,
            match p_many_definitions(s, input.off as int) {
                PRes::POk { v: rest, next } => p_many_definitions(s, entry) == (PRes::POk {
                    v: definitions_view(items@) + rest,
                    next,
                }),
                PRes::PFail { at } => p_many_definitions(s, entry) == (PRes::PFail::<Seq<DefinitionV>> { at }),
            },
        ensures
            input.wf(),
            input.buf@ == s,
            p_many_definitions(s, entry) == (PRes::POk {
                v: definitions_view(items@),
                next: input.off as int,
            }),
        decreases s.len() - input.off,
    {
        let cur = input.off;
        let ghost items0 = items@;
        match definition(input) {
            Err(e) => {
                if input.off == cur {
                    proof {
                        assert(definitions_view(items@) + Seq::<DefinitionV>::empty()
                            =~= definitions_view(items@));
                    }
                    break ;
                } else {
                    return Err(e);
                }
            },
            Ok(x) => {
                let ghost xv = definition_view(x);
                items.push(x);
                proof {
                    assert(items@.drop_last() =~= items0);
                    assert(definition_view(items@.last()) == xv);
                    assert(definitions_view(items@) =~= definitions_view(items0).push(xv));
                    assert(definitions_view(items0).push(xv) =~= definitions_view(items0)
                        + seq![xv]);
                }
                if input.off <= cur {
                    proof {
                        assert(p_many_definitions(s, cur as int) == (PRes::POk {
                            v: seq![xv],
                            next: input.off as int,
                        }));
                        assert(definitions_view(items0) + seq![xv] =~= definitions_view(items@));
                    }
                    break ;
                }
                proof {
                    match p_many_definitions(s, input.off as int) {
                        PRes::POk { v: rest, next } => {
                            assert(definitions_view(items0) + (seq![xv] + rest)
                                =~= definitions_view(items@) + rest);
                        },
                        PRes::PFail { at } => {},
                    }
                }
            },
        }
    }
    Ok(items)
}

/// Parses one complete document: one or more definitions, then the end of
/// the input. Trailing tokens are an error; a failed parse returns no
/// partial document, only the position reached and what was wrong there.
#[verifier::rlimit(100)]
pub fn parse_query(s: &str) -> (r: Result<Document, QueryParseError>)
    requires
        s@.len() < usize::MAX,
    ensures
        match p_document(s@) {
            PRes::POk { v, next } => r matches Ok(d) && document_view(d) == v,
            PRes::PFail { at } => r matches Err(e) && e.line as nat
                == crate::position::advanced_line(1, s@.take(at)) && e.column as nat
                == crate::position::advanced_column(1, s@.take(at)),
        },
{
    let mut tokens = TokenStream::new(s);
    let def_entry = tokens.off;
    let first = match definition(&mut tokens) {
        Ok(d) => d,
        Err(e) => {
            return Err(e);
        },
    };
    let ghost gfirst = first;
    let ghost firstv = definition_view(first);
    let mut defs: Vec<Definition> = Vec::new();
    defs.push(first);
    proof {
        assert(defs@ =~= Seq::<Definition>::empty().push(gfirst));
        assert(defs@.drop_last() =~= Seq::<Definition>::empty());
        assert(defs@.last() == gfirst);
        assert(definitions_view(defs@.drop_last()) =~= Seq::<DefinitionV>::empty());
        assert(definitions_view(defs@) == definitions_view(defs@.drop_last()).push(
            definition_view(defs@.last()),
        ));
        assert(definitions_view(defs@) =~= seq![firstv]);
    }
    if tokens.off > def_entry {
        let mut rest = match many_definitions(&mut tokens) {
            Ok(xs) => xs,
            Err(e) => {
                return Err(e);
            },
        };
        let ghost restv = rest@;
        let ghost single = defs@;
        defs.append(&mut rest);
        proof {
            assert(defs@ =~= single + restv);
            lemma_definitions_view_concat(single, restv);
            assert(definitions_view(defs@) =~= seq![firstv] + definitions_view(restv));
        }
    }
    match eof(&mut tokens) {
        Ok(u) => Ok(Document { definitions: defs }),
        Err(e) => Err(e),
    }
}


/// A selection set that parsing yields always holds at least one selection:
/// the braces demand one or more, and only a field without braces carries
/// the empty sentinel.
pub proof fn lemma_selection_set_nonempty(s: Seq<char>, off: int)
    ensures
        match p_selection_set(s, off) {
            PRes::POk { v, next } => v.items.len() >= 1,
            PRes::PFail { at } => true,
        },
{
}

/// A document that parsing yields always holds at least one definition.
pub proof fn lemma_document_nonempty(s: Seq<char>)
    ensures
        match p_document(s) {
            PRes::POk { v, next } => v.definitions.len() >= 1,
            PRes::PFail { at } => true,
        },
{
}

} // verus!
