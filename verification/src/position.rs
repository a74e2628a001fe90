//! A (line, column) cursor into the source text.
//!
//! Lines and columns are 1-based. Advancing over a span of characters moves
//! the cursor: each newline starts a new line and resets the column to 1,
//! every other character widens the current line by one column.
use vstd::prelude::*;

verus! {

/// A position in the source text, counted in characters.
#[derive(Debug, PartialEq, Eq, Clone, Copy)]
pub struct Pos {
    pub line: usize,
    pub column: usize,
}

/// Number of newline characters in `s`.
pub open spec fn newline_count(s: Seq<char>) -> nat
    decreases s.len(),
{
    if s.len() == 0 {
        0
    } else {
        newline_count(s.drop_last()) + (if s.last() == '\n' {
            1nat
        } else {
            0nat
        })
    }
}

/// Number of characters of `s` that follow its last newline
/// (all of `s` when it has none).
pub open spec fn tail_column_count(s: Seq<char>) -> nat
    decreases s.len(),
{
    if s.len() == 0 {
        0
    } else if s.last() == '\n' {
        0
    } else {
        tail_column_count(s.drop_last()) + 1
    }
}

/// Where a cursor at line `line`, column `column` stands after the
/// characters of `s` have been consumed.
pub open spec fn advanced_line(line: nat, s: Seq<char>) -> nat {
    line + newline_count(s)
}

/// Column of a cursor after consuming `s`, starting from column `column`.
pub open spec fn advanced_column(column: nat, s: Seq<char>) -> nat {
    if newline_count(s) == 0 {
        column + tail_column_count(s)
    } else {
        1 + tail_column_count(s)
    }
}

pub proof fn lemma_counts_bounded(s: Seq<char>)
    ensures
        newline_count(s) <= s.len(),
        tail_column_count(s) <= s.len(),
    decreases s.len(),
{
    if s.len() > 0 {
        lemma_counts_bounded(s.drop_last());
    }
}

/// Advancing over a concatenation advances over each part in turn.
pub proof fn lemma_counts_concat(a: Seq<char>, b: Seq<char>)
    ensures
        newline_count(a + b) == newline_count(a) + newline_count(b),
        tail_column_count(a + b) == if newline_count(b) == 0 {
            tail_column_count(a) + tail_column_count(b)
        } else {
            tail_column_count(b)
        },
    decreases b.len(),
{
    if b.len() == 0 {
        assert(a + b =~= a);
    } else {
        lemma_counts_concat(a, b.drop_last());
        assert((a + b).drop_last() =~= a + b.drop_last());
        assert((a + b).last() == b.last());
    }
}

} // verus!
