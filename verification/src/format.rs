//! Serialization of the AST back to query text. The exact text produced is
//! defined by the `pr_..` spec functions over the AST mirrors; the
//! executable printer produces precisely that text.
use vstd::prelude::*;

use crate::chars::string_from_range;
use crate::query::{
    definition_view, document_view, selection_set_view, DefinitionV, DirectiveV, Document,
    DocumentV, FieldV, FragmentDefinitionV, OperationBodyV, OperationDefinitionV, SelectionSetV,
    SelectionV, TypeConditionV, ValueV, VariableDefinitionV, VariableTypeV,
};

verus! {

// ---------------------------------------------------------------------------
// What the printer writes, as functions over the mirrors
// ---------------------------------------------------------------------------

/// The decimal digits of a nonnegative number.
pub open spec fn dec_str(n: int) -> Seq<char>
    decreases n,
{
    if n <= 9 {
        seq![digit_char_of(if n >= 0 {
            n
        } else {
            0
        })]
    } else {
        dec_str(n / 10).push(digit_char_of(n % 10))
    }
}

pub open spec fn digit_char_of(d: int) -> char {
    ((d + 48) as u32) as char
}

/// A possibly negative number in decimal.
pub open spec fn pr_int(n: int) -> Seq<char> {
    if n < 0 {
        seq!['-'] + dec_str(-n)
    } else {
        dec_str(n)
    }
}

/// One character of a quoted string, escaped where the text form requires.
pub open spec fn esc_char(c: char) -> Seq<char> {
    if c == '"' {
        seq!['\\', '"']
    } else if c == '\\' {
        seq!['\\', '\\']
    } else if c == '\n' {
        seq!['\\', 'n']
    } else if c == '\r' {
        seq!['\\', 'r']
    } else if c == '\t' {
        seq!['\\', 't']
    } else {
        seq![c]
    }
}

pub open spec fn esc_str(s: Seq<char>) -> Seq<char>
    decreases s.len(),
{
    if s.len() == 0 {
        Seq::empty()
    } else {
        esc_str(s.drop_last()) + esc_char(s.last())
    }
}

/// `n` spaces of indentation.
pub open spec fn spaces(n: int) -> Seq<char>
    decreases n,
{
    if n <= 0 {
        Seq::empty()
    } else {
        spaces(n - 1).push(' ')
    }
}

pub open spec fn pr_value(v: ValueV) -> Seq<char>
    decreases v, 1int,
{
    match v {
        ValueV::Int(n) => pr_int(n),
        ValueV::String(s) => seq!['"'] + esc_str(s) + seq!['"'],
        ValueV::EnumValue(s) => s,
        ValueV::Variable(s) => seq!['$'] + s,
        ValueV::ListValue(items) => seq!['['] + pr_value_list(items) + seq![']'],
        ValueV::ObjectValue(ps) => seq!['{'] + pr_object_list(ps) + seq!['}'],
    }
}

/// Comma-separated values.
pub open spec fn pr_value_list(items: Seq<ValueV>) -> Seq<char>
    decreases items, 2int,
{
    if items.len() == 0 {
        Seq::empty()
    } else if items.len() == 1 {
        pr_value(items.last())
    } else {
        pr_value_list(items.drop_last()) + seq![',', ' '] + pr_value(items.last())
    }
}

/// Comma-separated `name: value` entries.
pub open spec fn pr_object_list(ps: Seq<(Seq<char>, ValueV)>) -> Seq<char>
    decreases ps, 2int,
{
    if ps.len() == 0 {
        Seq::empty()
    } else if ps.len() == 1 {
        ps.last().0 + seq![':', ' '] + pr_value(ps.last().1)
    } else {
        pr_object_list(ps.drop_last()) + seq![',', ' '] + ps.last().0 + seq![':', ' '] + pr_value(
            ps.last().1,
        )
    }
}

/// An argument list: absent when empty, else parenthesized.
pub open spec fn pr_arguments(args: Seq<(Seq<char>, ValueV)>) -> Seq<char> {
    if args.len() == 0 {
        Seq::empty()
    } else {
        seq!['('] + pr_object_list(args) + seq![')']
    }
}

/// Directives, each preceded by a space and `@`.
pub open spec fn pr_directives(dirs: Seq<DirectiveV>) -> Seq<char>
    decreases dirs,
{
    if dirs.len() == 0 {
        Seq::empty()
    } else {
        pr_directives(dirs.drop_last()) + seq![' ', '@'] + dirs.last().name + pr_arguments(
            dirs.last().arguments,
        )
    }
}

/// One level deeper, stopping at the machine's edge.
pub open spec fn bump(ind: int) -> int {
    if ind + 2 <= usize::MAX {
        ind + 2
    } else {
        ind
    }
}

/// A braced selection set, its contents one level deeper.
pub open spec fn pr_selection_set(ss: SelectionSetV, ind: int) -> Seq<char>
    decreases ss, 2int,
{
    seq!['{', '\n'] + pr_selections(ss.items, bump(ind)) + spaces(ind) + seq!['}']
}

pub open spec fn pr_selections(items: Seq<SelectionV>, ind: int) -> Seq<char>
    decreases items, 3int,
{
    if items.len() == 0 {
        Seq::empty()
    } else {
        pr_selections(items.drop_last(), ind) + spaces(ind) + pr_selection(items.last(), ind)
            + seq!['\n']
    }
}

pub open spec fn pr_selection(sel: SelectionV, ind: int) -> Seq<char>
    decreases sel, 2int,
{
    match sel {
        SelectionV::Field(f) => pr_field(f, ind),
        SelectionV::FragmentSpread(fs) => seq!['.', '.', '.'] + fs.fragment_name + pr_directives(
            fs.directives,
        ),
        SelectionV::InlineFragment(inl) => seq!['.', '.', '.'] + (match inl.type_condition {
            Some(TypeConditionV::On(t)) => seq![' ', 'o', 'n', ' '] + t,
            None => Seq::empty(),
        }) + pr_directives(inl.directives) + seq![' '] + pr_selection_set(inl.selection_set, ind),
    }
}

pub open spec fn pr_field(f: FieldV, ind: int) -> Seq<char>
    decreases f, 1int,
{
    (match f.alias {
        Some(a) => a + seq![':', ' '],
        None => Seq::empty(),
    }) + f.name + pr_arguments(f.arguments) + pr_directives(f.directives) + (
    if f.selection_set.items.len() == 0 {
        Seq::empty()
    } else {
        seq![' '] + pr_selection_set(f.selection_set, ind)
    })
}

/// `$name: Type` with an optional default.
pub open spec fn pr_variable_definition(v: VariableDefinitionV) -> Seq<char> {
    seq!['$'] + v.name + seq![':', ' '] + (match v.var_type {
        VariableTypeV::NamedType(t) => t,
    }) + (match v.default_value {
        Some(d) => seq![' ', '=', ' '] + pr_value(d),
        None => Seq::empty(),
    })
}

pub open spec fn pr_variable_definitions(vs: Seq<VariableDefinitionV>) -> Seq<char>
    decreases vs,
{
    if vs.len() == 0 {
        Seq::empty()
    } else if vs.len() == 1 {
        pr_variable_definition(vs.last())
    } else {
        pr_variable_definitions(vs.drop_last()) + seq![',', ' '] + pr_variable_definition(
            vs.last(),
        )
    }
}

/// The body shared by the keyworded operations.
pub open spec fn pr_operation_body(keyword: Seq<char>, b: OperationBodyV) -> Seq<char> {
    keyword + (match b.name {
        Some(n) => seq![' '] + n,
        None => Seq::empty(),
    }) + (if b.variable_definitions.len() == 0 {
        Seq::empty()
    } else {
        seq!['('] + pr_variable_definitions(b.variable_definitions) + seq![')']
    }) + pr_directives(b.directives) + seq![' '] + pr_selection_set(b.selection_set, 0)
}

pub open spec fn pr_definition(d: DefinitionV) -> Seq<char> {
    match d {
        DefinitionV::Operation(OperationDefinitionV::SelectionSet(ss)) => pr_selection_set(ss, 0),
        DefinitionV::Operation(OperationDefinitionV::Query(q)) => pr_operation_body(
            "query"@,
            q,
        ),
        DefinitionV::Operation(OperationDefinitionV::Mutation(m)) => pr_operation_body(
            "mutation"@,
            m,
        ),
        DefinitionV::Operation(OperationDefinitionV::Subscription(sb)) => pr_operation_body(
            "subscription"@,
            sb,
        ),
        DefinitionV::Fragment(f) => pr_fragment_definition(f),
    }
}

pub open spec fn pr_fragment_definition(f: FragmentDefinitionV) -> Seq<char> {
    seq!['f', 'r', 'a', 'g', 'm', 'e', 'n', 't', ' '] + f.name + seq![' ', 'o', 'n', ' '] + (
    match f.type_condition {
        TypeConditionV::On(t) => t,
    }) + pr_directives(f.directives) + seq![' '] + pr_selection_set(f.selection_set, 0)
}

/// The whole document: each definition on lines of its own.
pub open spec fn pr_document(d: DocumentV) -> Seq<char>
    decreases d.definitions.len(),
{
    if d.definitions.len() == 0 {
        Seq::empty()
    } else {
        pr_document(DocumentV { definitions: d.definitions.drop_last() }) + pr_definition(
            d.definitions.last(),
        ) + seq!['\n']
    }
}


// ---------------------------------------------------------------------------
// Pointwise readings of the sequence views
// ---------------------------------------------------------------------------

proof fn lemma_values_view_index(s: Seq<crate::query::Value>)
    ensures
        crate::query::values_view(s).len() == s.len(),
        forall|i: int|
            0 <= i < s.len() ==> #[trigger] crate::query::values_view(s)[i]
                == crate::query::value_view(s[i]),
    decreases s.len(),
{
    if s.len() > 0 {
        lemma_values_view_index(s.drop_last());
        assert(forall|i: int|
            0 <= i < s.len() - 1 ==> #[trigger] s.drop_last()[i] == s[i]);
    }
}

proof fn lemma_pairs_view_index(s: Seq<(String, crate::query::Value)>)
    ensures
        crate::query::pairs_view(s).len() == s.len(),
        forall|i: int|
            0 <= i < s.len() ==> #[trigger] crate::query::pairs_view(s)[i] == (
            s[i].0@,
            crate::query::value_view(s[i].1),
            ),
    decreases s.len(),
{
    if s.len() > 0 {
        lemma_pairs_view_index(s.drop_last());
        assert(forall|i: int|
            0 <= i < s.len() - 1 ==> #[trigger] s.drop_last()[i] == s[i]);
    }
}

proof fn lemma_directives_view_index(s: Seq<crate::query::Directive>)
    ensures
        crate::query::directives_seq_view(s).len() == s.len(),
        forall|i: int|
            0 <= i < s.len() ==> #[trigger] crate::query::directives_seq_view(s)[i]
                == crate::query::directive_view(s[i]),
    decreases s.len(),
{
    if s.len() > 0 {
        lemma_directives_view_index(s.drop_last());
        assert(forall|i: int|
            0 <= i < s.len() - 1 ==> #[trigger] s.drop_last()[i] == s[i]);
    }
}

proof fn lemma_selections_view_index(s: Seq<crate::query::Selection>)
    ensures
        crate::query::selections_view(s).len() == s.len(),
        forall|i: int|
            0 <= i < s.len() ==> #[trigger] crate::query::selections_view(s)[i]
                == crate::query::selection_view(s[i]),
    decreases s.len(),
{
    if s.len() > 0 {
        lemma_selections_view_index(s.drop_last());
        assert(forall|i: int|
            0 <= i < s.len() - 1 ==> #[trigger] s.drop_last()[i] == s[i]);
    }
}

proof fn lemma_var_defs_view_index(s: Seq<crate::query::VariableDefinition>)
    ensures
        crate::query::variable_definitions_seq_view(s).len() == s.len(),
        forall|i: int|
            0 <= i < s.len() ==> #[trigger] crate::query::variable_definitions_seq_view(s)[i]
                == crate::query::variable_definition_view(s[i]),
    decreases s.len(),
{
    if s.len() > 0 {
        lemma_var_defs_view_index(s.drop_last());
        assert(forall|i: int|
            0 <= i < s.len() - 1 ==> #[trigger] s.drop_last()[i] == s[i]);
    }
}

proof fn lemma_definitions_view_index(s: Seq<crate::query::Definition>)
    ensures
        crate::query::definitions_view(s).len() == s.len(),
        forall|i: int|
            0 <= i < s.len() ==> #[trigger] crate::query::definitions_view(s)[i]
                == crate::query::definition_view(s[i]),
    decreases s.len(),
{
    if s.len() > 0 {
        lemma_definitions_view_index(s.drop_last());
        assert(forall|i: int|
            0 <= i < s.len() - 1 ==> #[trigger] s.drop_last()[i] == s[i]);
    }
}

// ---------------------------------------------------------------------------
// The executable printer
// ---------------------------------------------------------------------------

fn emit_str(out: &mut Vec<char>, s: &str)
    ensures
        final(out)@ == old(out)@ + s@,
{
    let n: usize = s.unicode_len();
    let mut i: usize = 0;
    while i < n
        invariant
            i <= n,
            n == s@.len(),
            out@ == old(out)@ + s@.take(i as int),
        decreases n - i,
    {
        out.push(s.get_char(i));
        i = i + 1;
        proof {
            assert(out@ =~= old(out)@ + s@.take(i as int));
        }
    }
    proof {
        assert(old(out)@ + s@.take(n as int) =~= old(out)@ + s@);
    }
}

fn emit_spaces(out: &mut Vec<char>, n: usize)
    ensures
        final(out)@ == old(out)@ + spaces(n as int),
{
    let mut i: usize = 0;
    while i < n
        invariant
            i <= n,
            out@ == old(out)@ + spaces(i as int),
        decreases n - i,
    {
        out.push(' ');
        i = i + 1;
        proof {
            assert(out@ =~= old(out)@ + spaces(i as int));
        }
    }
}

/// Reading a sequence back to front.
pub open spec fn rev_chars(s: Seq<char>) -> Seq<char>
    decreases s.len(),
{
    if s.len() == 0 {
        Seq::empty()
    } else {
        seq![s.last()] + rev_chars(s.drop_last())
    }
}

fn emit_int(out: &mut Vec<char>, x: i64)
    ensures
        final(out)@ == old(out)@ + pr_int(x as int),
{
    let mut m: u64;
    if x < 0 {
        out.push('-');
        if x == i64::MIN {
            m = 9223372036854775808u64;
        } else {
            m = (-x) as u64;
        }
        proof {
            assert(m as int == -(x as int));
            assert(out@ =~= old(out)@ + seq!['-']);
        }
    } else {
        m = x as u64;
    }
    let ghost base = out@;
    let ghost m0 = m as int;
    let mut tmp: Vec<char> = Vec::new();
    if m == 0 {
        out.push('0');
        proof {
            assert(dec_str(0) =~= seq!['0']);
            assert(out@ =~= base + dec_str(0));
            if (x as int) < 0 {
                assert(out@ =~= old(out)@ + pr_int(x as int));
            }
        }
        return ;
    }
    proof {
        assert(rev_chars(tmp@) =~= Seq::<char>::empty());
        assert(dec_str(m0) + rev_chars(tmp@) =~= dec_str(m0));
    }
    loop
        invariant_except_break
            m >= 1,
            dec_str(m0) == dec_str(m as int) + rev_chars(tmp@),
        ensures
            dec_str(m0) == rev_chars(tmp@),
            tmp@.len() >= 1,
        decreases m,
    {
        let ghost tmp0 = tmp@;
        let d: u64 = m % 10;
        let c: char = match d {
            0 => '0',
            1 => '1',
            2 => '2',
            3 => '3',
            4 => '4',
            5 => '5',
            6 => '6',
            7 => '7',
            8 => '8',
            _ => '9',
        };
        proof {
            assert(c as u32 == d + 48);
            vstd::utf8::char_u32_cast(c, (d + 48) as u32);
            assert(c == digit_char_of(d as int));
        }
        tmp.push(c);
        proof {
            assert(tmp@.drop_last() =~= tmp0);
            assert(rev_chars(tmp@) =~= seq![c] + rev_chars(tmp0));
        }
        let next = m / 10;
        proof {
            if next >= 1 {
                assert(m >= 10);
                assert(dec_str(m as int) == dec_str(m as int / 10).push(digit_char_of(
                    m as int % 10,
                )));
                assert(dec_str(m as int) =~= dec_str(next as int) + seq![c]);
                assert(dec_str(next as int) + (seq![c] + rev_chars(tmp0)) =~= (dec_str(
                    next as int,
                ) + seq![c]) + rev_chars(tmp0));
            } else {
                assert(m <= 9);
                assert(dec_str(m as int) =~= seq![c]);
            }
        }
        m = next;
        if m == 0 {
            break ;
        }
    }
    // the digits were collected least significant first
    while tmp.len() > 0
        invariant
            out@ + rev_chars(tmp@) == base + dec_str(m0),
        decreases tmp@.len(),
    {
        let ghost tmp0 = tmp@;
        let c = match tmp.pop() {
            Some(c) => c,
            None => ' ',
        };
        out.push(c);
        proof {
            assert(rev_chars(tmp0) =~= seq![c] + rev_chars(tmp@));
            assert((out@ + rev_chars(tmp@)) =~= ((out@.drop_last() + seq![c]) + rev_chars(tmp@)));
            assert(out@.drop_last() + (seq![c] + rev_chars(tmp@)) =~= (out@.drop_last() + seq![c])
                + rev_chars(tmp@));
        }
    }
    proof {
        assert(rev_chars(tmp@) =~= Seq::<char>::empty());
        assert(out@ + Seq::<char>::empty() =~= out@);
        if (x as int) >= 0 {
            assert(out@ =~= old(out)@ + pr_int(x as int));
        } else {
            assert(out@ =~= old(out)@ + (seq!['-'] + dec_str(-(x as int))));
            assert(out@ =~= old(out)@ + pr_int(x as int));
        }
    }
}

fn emit_escaped(out: &mut Vec<char>, s: &String)
    ensures
        final(out)@ == old(out)@ + esc_str(s@),
{
    let n: usize = s.as_str().unicode_len();
    let mut i: usize = 0;
    proof {
        assert(esc_str(s@.take(0)) =~= Seq::<char>::empty());
        assert(out@ =~= old(out)@ + esc_str(s@.take(0)));
    }
    while i < n
        invariant
            i <= n,
            n == s@.len(),
            out@ == old(out)@ + esc_str(s@.take(i as int)),
        decreases n - i,
    {
        let ghost done = s@.take(i as int);
        let c = s.as_str().get_char(i);
        if c == '"' {
            out.push('\\');
            out.push('"');
        } else if c == '\\' {
            out.push('\\');
            out.push('\\');
        } else if c == '\n' {
            out.push('\\');
            out.push('n');
        } else if c == '\r' {
            out.push('\\');
            out.push('r');
        } else if c == '\t' {
            out.push('\\');
            out.push('t');
        } else {
            out.push(c);
        }
        i = i + 1;
        proof {
            assert(s@.take(i as int).drop_last() =~= done);
            assert(s@.take(i as int).last() == c);
            assert(esc_str(s@.take(i as int)) =~= esc_str(done) + esc_char(c));
            assert(out@ =~= (old(out)@ + esc_str(done)) + esc_char(c));
            assert((old(out)@ + esc_str(done)) + esc_char(c) =~= old(out)@ + (esc_str(done)
                + esc_char(c)));
        }
    }
    proof {
        assert(s@.take(n as int) =~= s@);
    }
}

fn emit_value(out: &mut Vec<char>, v: &crate::query::Value)
    ensures
        final(out)@ == old(out)@ + pr_value(crate::query::value_view(*v)),
    decreases v, 1int,
{
    match v {
        crate::query::Value::Int(x) => {
            emit_int(out, *x);
        },
        crate::query::Value::String(s) => {
            out.push('"');
            emit_escaped(out, s);
            out.push('"');
            proof {
                assert(out@ =~= old(out)@ + (seq!['"'] + esc_str(s@) + seq!['"']));
            }
        },
        crate::query::Value::EnumValue(s) => {
            emit_str(out, s.as_str());
        },
        crate::query::Value::Variable(s) => {
            out.push('$');
            emit_str(out, s.as_str());
            proof {
                assert(out@ =~= old(out)@ + (seq!['$'] + s@));
            }
        },
        crate::query::Value::ListValue(l) => {
            let ghost viewed = crate::query::values_view(l@);
            proof {
                lemma_values_view_index(l@);
            }
            out.push('[');
            let ghost base = out@;
            proof {
                assert(pr_value_list(viewed.take(0)) =~= Seq::<char>::empty());
                assert(out@ =~= base + pr_value_list(viewed.take(0)));
            }
            let n: usize = l.len();
            let mut i: usize = 0;
            #[verifier::loop_isolation(false)]
            while i < n
                invariant
                    i <= n,
                    n == l@.len(),
                    viewed == crate::query::values_view(l@),
                    viewed.len() == n,
                    forall|k: int|
                        0 <= k < n ==> #[trigger] viewed[k] == crate::query::value_view(l@[k]),
                    out@ == base + pr_value_list(viewed.take(i as int)),
                    base == old(out)@ + seq!['['],
                decreases n - i,
            {
                let ghost done = viewed.take(i as int);
                if i > 0 {
                    out.push(',');
                    out.push(' ');
                }
                proof {
                    assert(decreases_to!(*v => *l));
                    assert(decreases_to!(*l => l@));
                    assert(decreases_to!(l@ => l@[i as int]));
                    assert(decreases_to!(*v => l@[i as int]));
                }
                emit_value(out, &l[i]);
                i = i + 1;
                proof {
                    assert(viewed.take(i as int).drop_last() =~= done);
                    assert(viewed.take(i as int).last() == viewed[i - 1]);
                    if i == 1 {
                        assert(pr_value_list(viewed.take(1)) =~= pr_value(viewed[0]));
                        assert(out@ =~= base + pr_value_list(viewed.take(i as int)));
                    } else {
                        assert(pr_value_list(viewed.take(i as int)) =~= pr_value_list(done)
                            + seq![',', ' '] + pr_value(viewed[i - 1]));
                        assert(out@ =~= ((base + pr_value_list(done)) + seq![',', ' '])
                            + pr_value(viewed[i - 1]));
                        assert(out@ =~= base + pr_value_list(viewed.take(i as int)));
                    }
                }
            }
            out.push(']');
            proof {
                assert(viewed.take(n as int) =~= viewed);
                assert(out@ =~= old(out)@ + (seq!['['] + pr_value_list(viewed) + seq![']']));
            }
        },
        crate::query::Value::ObjectValue(ps) => {
            let ghost viewed = crate::query::pairs_view(ps@);
            proof {
                lemma_pairs_view_index(ps@);
            }
            out.push('{');
            let ghost base = out@;
            proof {
                assert(pr_object_list(viewed.take(0)) =~= Seq::<char>::empty());
                assert(out@ =~= base + pr_object_list(viewed.take(0)));
            }
            let n: usize = ps.len();
            let mut i: usize = 0;
            #[verifier::loop_isolation(false)]
            while i < n
                invariant
                    i <= n,
                    n == ps@.len(),
                    viewed == crate::query::pairs_view(ps@),
                    viewed.len() == n,
                    forall|k: int|
                        0 <= k < n ==> #[trigger] viewed[k] == (
                        ps@[k].0@,
                        crate::query::value_view(ps@[k].1),
                        ),
                    out@ == base + pr_object_list(viewed.take(i as int)),
                    base == old(out)@ + seq!['{'],
                decreases n - i,
            {
                let ghost done = viewed.take(i as int);
                if i > 0 {
                    out.push(',');
                    out.push(' ');
                }
                emit_str(out, ps[i].0.as_str());
                out.push(':');
                out.push(' ');
                proof {
                    assert(decreases_to!(*v => *ps));
                    assert(decreases_to!(*ps => ps@));
                    assert(decreases_to!(ps@ => ps@[i as int]));
                    assert(decreases_to!(ps@[i as int] => ps@[i as int].1));
                    assert(decreases_to!(*v => ps@[i as int].1));
                }
                emit_value(out, &ps[i].1);
                i = i + 1;
                proof {
                    assert(viewed.take(i as int).drop_last() =~= done);
                    assert(viewed.take(i as int).last() == viewed[i - 1]);
                    if i == 1 {
                        assert(pr_object_list(viewed.take(1)) =~= viewed[0].0 + seq![':', ' ']
                            + pr_value(viewed[0].1));
                        assert(out@ =~= base + pr_object_list(viewed.take(i as int)));
                    } else {
                        assert(pr_object_list(viewed.take(i as int)) =~= pr_object_list(done)
                            + seq![',', ' '] + viewed[i - 1].0 + seq![':', ' '] + pr_value(
                            viewed[i - 1].1,
                        ));
                        assert(out@ =~= base + pr_object_list(viewed.take(i as int)));
                    }
                }
            }
            out.push('}');
            proof {
                assert(viewed.take(n as int) =~= viewed);
                assert(out@ =~= old(out)@ + (seq!['{'] + pr_object_list(viewed) + seq!['}']));
            }
        },
    }
}

fn emit_arguments(out: &mut Vec<char>, args: &Vec<(String, crate::query::Value)>)
    ensures
        final(out)@ == old(out)@ + pr_arguments(crate::query::pairs_view(args@)),
    decreases args, 2int,
{
    let ghost viewed = crate::query::pairs_view(args@);
    proof {
        lemma_pairs_view_index(args@);
    }
    let n: usize = args.len();
    if n == 0 {
        proof {
            assert(old(out)@ + pr_arguments(viewed) =~= old(out)@);
        }
        return ;
    }
    out.push('(');
    let ghost base = out@;
    proof {
        assert(pr_object_list(viewed.take(0)) =~= Seq::<char>::empty());
        assert(out@ =~= base + pr_object_list(viewed.take(0)));
    }
    let mut i: usize = 0;
    while i < n
        invariant
            i <= n,
            n == args@.len(),
            viewed == crate::query::pairs_view(args@),
            viewed.len() == n,
            forall|k: int|
                0 <= k < n ==> #[trigger] viewed[k] == (
                args@[k].0@,
                crate::query::value_view(args@[k].1),
                ),
            out@ == base + pr_object_list(viewed.take(i as int)),
            base == old(out)@ + seq!['('],
        decreases n - i,
    {
        let ghost done = viewed.take(i as int);
        if i > 0 {
            out.push(',');
            out.push(' ');
        }
        emit_str(out, args[i].0.as_str());
        out.push(':');
        out.push(' ');
        proof {
            assert(decreases_to!(*args => args@));
            assert(decreases_to!(args@ => args@[i as int]));
            assert(decreases_to!(args@[i as int] => args@[i as int].1));
            assert(decreases_to!(*args => args@[i as int].1));
        }
        emit_value(out, &args[i].1);
        i = i + 1;
        proof {
            assert(viewed.take(i as int).drop_last() =~= done);
            assert(viewed.take(i as int).last() == viewed[i - 1]);
            if i == 1 {
                assert(pr_object_list(viewed.take(1)) =~= viewed[0].0 + seq![':', ' '] + pr_value(
                    viewed[0].1,
                ));
                assert(out@ =~= base + pr_object_list(viewed.take(i as int)));
            } else {
                assert(pr_object_list(viewed.take(i as int)) =~= pr_object_list(done) + seq![
                    ',',
                    ' ',
                ] + viewed[i - 1].0 + seq![':', ' '] + pr_value(viewed[i - 1].1));
                assert(out@ =~= base + pr_object_list(viewed.take(i as int)));
            }
        }
    }
    out.push(')');
    proof {
        assert(viewed.take(n as int) =~= viewed);
        assert(out@ =~= old(out)@ + (seq!['('] + pr_object_list(viewed) + seq![')']));
    }
}

fn emit_directives(out: &mut Vec<char>, dirs: &Vec<crate::query::Directive>)
    ensures
        final(out)@ == old(out)@ + pr_directives(crate::query::directives_seq_view(dirs@)),
    decreases dirs, 3int,
{
    let ghost viewed = crate::query::directives_seq_view(dirs@);
    proof {
        lemma_directives_view_index(dirs@);
        assert(pr_directives(viewed.take(0)) =~= Seq::<char>::empty());
        assert(out@ =~= old(out)@ + pr_directives(viewed.take(0)));
    }
    let n: usize = dirs.len();
    let mut i: usize = 0;
    while i < n
        invariant
            i <= n,
            n == dirs@.len(),
            viewed == crate::query::directives_seq_view(dirs@),
            viewed.len() == n,
            forall|k: int|
                0 <= k < n ==> #[trigger] viewed[k] == crate::query::directive_view(dirs@[k]),
            out@ == old(out)@ + pr_directives(viewed.take(i as int)),
        decreases n - i,
    {
        let ghost done = viewed.take(i as int);
        out.push(' ');
        out.push('@');
        emit_str(out, dirs[i].name.as_str());
        emit_arguments(out, &dirs[i].arguments);
        i = i + 1;
        proof {
            assert(viewed.take(i as int).drop_last() =~= done);
            assert(viewed.take(i as int).last() == viewed[i - 1]);
            assert(pr_directives(viewed.take(i as int)) =~= pr_directives(done) + seq![' ', '@']
                + viewed[i - 1].name + pr_arguments(viewed[i - 1].arguments));
            assert(out@ =~= old(out)@ + pr_directives(viewed.take(i as int)));
        }
    }
    proof {
        assert(viewed.take(n as int) =~= viewed);
    }
}

fn emit_selection_set(out: &mut Vec<char>, ss: &crate::query::SelectionSet, ind: usize)
    ensures
        final(out)@ == old(out)@ + pr_selection_set(selection_set_view(*ss), ind as int),
    decreases ss, 5int,
{
    let ghost viewed = crate::query::selections_view(ss.items@);
    proof {
        lemma_selections_view_index(ss.items@);
    }
    let nind: usize = if ind <= usize::MAX - 2 {
        ind + 2
    } else {
        ind
    };
    proof {
        assert(nind as int == bump(ind as int));
    }
    out.push('{');
    out.push('\n');
    let ghost base = out@;
    proof {
        assert(base =~= old(out)@ + seq!['{', '\n']);
        assert(pr_selections(viewed.take(0), nind as int) =~= Seq::<char>::empty());
        assert(out@ =~= base + pr_selections(viewed.take(0), nind as int));
    }
    let n: usize = ss.items.len();
    let mut i: usize = 0;
    while i < n
        invariant
            i <= n,
            n == ss.items@.len(),
            nind as int == bump(ind as int),
            viewed == crate::query::selections_view(ss.items@),
            viewed.len() == n,
            forall|k: int|
                0 <= k < n ==> #[trigger] viewed[k] == crate::query::selection_view(
                    ss.items@[k],
                ),
            out@ == base + pr_selections(viewed.take(i as int), nind as int),
            base == old(out)@ + seq!['{', '\n'],
        decreases n - i,
    {
        let ghost done = viewed.take(i as int);
        emit_spaces(out, nind);
        emit_selection(out, &ss.items[i], nind);
        out.push('\n');
        i = i + 1;
        proof {
            assert(viewed.take(i as int).drop_last() =~= done);
            assert(viewed.take(i as int).last() == viewed[i - 1]);
            assert(pr_selections(viewed.take(i as int), nind as int) =~= pr_selections(
                done,
                nind as int,
            ) + spaces(nind as int) + pr_selection(viewed[i - 1], nind as int) + seq!['\n']);
            assert(out@ =~= base + pr_selections(viewed.take(i as int), nind as int));
        }
    }
    emit_spaces(out, ind);
    out.push('}');
    proof {
        assert(viewed.take(n as int) =~= viewed);
        assert(out@ =~= old(out)@ + (seq!['{', '\n'] + pr_selections(viewed, nind as int)
            + spaces(ind as int) + seq!['}']));
    }
}

fn emit_selection(out: &mut Vec<char>, sel: &crate::query::Selection, ind: usize)
    ensures
        final(out)@ == old(out)@ + pr_selection(crate::query::selection_view(*sel), ind as int),
    decreases sel, 4int,
{
    match sel {
        crate::query::Selection::Field(f) => {
            emit_field(out, f, ind);
        },
        crate::query::Selection::FragmentSpread(fs) => {
            out.push('.');
            out.push('.');
            out.push('.');
            emit_str(out, fs.fragment_name.as_str());
            emit_directives(out, &fs.directives);
            proof {
                assert(out@ =~= old(out)@ + (seq!['.', '.', '.'] + fs.fragment_name@
                    + pr_directives(crate::query::directives_seq_view(fs.directives@))));
            }
        },
        crate::query::Selection::InlineFragment(inl) => {
            out.push('.');
            out.push('.');
            out.push('.');
            match &inl.type_condition {
                Some(tc) => {
                    match tc {
                        crate::query::TypeCondition::On(t) => {
                            out.push(' ');
                            out.push('o');
                            out.push('n');
                            out.push(' ');
                            emit_str(out, t.as_str());
                        },
                    }
                },
                None => (),
            }
            emit_directives(out, &inl.directives);
            out.push(' ');
            emit_selection_set(out, &inl.selection_set, ind);
            proof {
                let v = crate::query::selection_view(*sel);
                assert(out@ =~= old(out)@ + pr_selection(v, ind as int));
            }
        },
    }
}

fn emit_field(out: &mut Vec<char>, f: &crate::query::Field, ind: usize)
    ensures
        final(out)@ == old(out)@ + pr_field(crate::query::field_view(*f), ind as int),
    decreases f, 3int,
{
    match &f.alias {
        Some(a) => {
            emit_str(out, a.as_str());
            out.push(':');
            out.push(' ');
        },
        None => (),
    }
    emit_str(out, f.name.as_str());
    emit_arguments(out, &f.arguments);
    emit_directives(out, &f.directives);
    if f.selection_set.items.len() > 0 {
        out.push(' ');
        emit_selection_set(out, &f.selection_set, ind);
    }
    proof {
        let v = crate::query::field_view(*f);
        assert(crate::query::selections_view(f.selection_set.items@).len()
            == f.selection_set.items@.len()) by {
            lemma_selections_view_index(f.selection_set.items@);
        }
        assert(out@ =~= old(out)@ + pr_field(v, ind as int));
    }
}

fn emit_variable_definitions(out: &mut Vec<char>, vs: &Vec<crate::query::VariableDefinition>)
    ensures
        final(out)@ == old(out)@ + (if crate::query::variable_definitions_seq_view(vs@).len()
            == 0 {
            Seq::<char>::empty()
        } else {
            seq!['('] + pr_variable_definitions(crate::query::variable_definitions_seq_view(vs@))
                + seq![')']
        }),
{
    let ghost viewed = crate::query::variable_definitions_seq_view(vs@);
    proof {
        lemma_var_defs_view_index(vs@);
    }
    let n: usize = vs.len();
    if n == 0 {
        proof {
            assert(old(out)@ + Seq::<char>::empty() =~= old(out)@);
        }
        return ;
    }
    out.push('(');
    let ghost base = out@;
    proof {
        assert(base =~= old(out)@ + seq!['(']);
        assert(pr_variable_definitions(viewed.take(0)) =~= Seq::<char>::empty());
        assert(out@ =~= base + pr_variable_definitions(viewed.take(0)));
    }
    let mut i: usize = 0;
    while i < n
        invariant
            i <= n,
            n == vs@.len(),
            viewed == crate::query::variable_definitions_seq_view(vs@),
            viewed.len() == n,
            forall|k: int|
                0 <= k < n ==> #[trigger] viewed[k] == crate::query::variable_definition_view(
                    vs@[k],
                ),
            out@ == base + pr_variable_definitions(viewed.take(i as int)),
            base == old(out)@ + seq!['('],
        decreases n - i,
    {
        let ghost done = viewed.take(i as int);
        if i > 0 {
            out.push(',');
            out.push(' ');
        }
        out.push('$');
        emit_str(out, vs[i].name.as_str());
        out.push(':');
        out.push(' ');
        match &vs[i].var_type {
            crate::query::VariableType::NamedType(t) => {
                emit_str(out, t.as_str());
            },
        }
        match &vs[i].default_value {
            Some(d) => {
                out.push(' ');
                out.push('=');
                out.push(' ');
                emit_value(out, d);
            },
            None => (),
        }
        i = i + 1;
        proof {
            assert(viewed.take(i as int).drop_last() =~= done);
            assert(viewed.take(i as int).last() == viewed[i - 1]);
            if i == 1 {
                assert(pr_variable_definitions(viewed.take(1)) =~= pr_variable_definition(
                    viewed[0],
                ));
                assert(out@ =~= base + pr_variable_definitions(viewed.take(i as int)));
            } else {
                assert(pr_variable_definitions(viewed.take(i as int))
                    =~= pr_variable_definitions(done) + seq![',', ' '] + pr_variable_definition(
                    viewed[i - 1],
                ));
                assert(out@ =~= base + pr_variable_definitions(viewed.take(i as int)));
            }
        }
    }
    out.push(')');
    proof {
        assert(viewed.take(n as int) =~= viewed);
        assert(out@ =~= old(out)@ + (seq!['('] + pr_variable_definitions(viewed) + seq![')']));
    }
}

fn emit_operation_body(
    out: &mut Vec<char>,
    keyword: &str,
    name: &Option<String>,
    vs: &Vec<crate::query::VariableDefinition>,
    dirs: &Vec<crate::query::Directive>,
    ss: &crate::query::SelectionSet,
)
    ensures
        final(out)@ == old(out)@ + pr_operation_body(
            keyword@,
            crate::query::OperationBodyV {
                name: crate::query::opt_string_view(*name),
                variable_definitions: crate::query::variable_definitions_seq_view(vs@),
                directives: crate::query::directives_seq_view(dirs@),
                selection_set: selection_set_view(*ss),
            },
        ),
{
    emit_str(out, keyword);
    match name {
        Some(n) => {
            out.push(' ');
            emit_str(out, n.as_str());
        },
        None => (),
    }
    emit_variable_definitions(out, vs);
    emit_directives(out, dirs);
    out.push(' ');
    emit_selection_set(out, ss, 0);
    proof {
        assert(out@ =~= old(out)@ + pr_operation_body(
            keyword@,
            crate::query::OperationBodyV {
                name: crate::query::opt_string_view(*name),
                variable_definitions: crate::query::variable_definitions_seq_view(vs@),
                directives: crate::query::directives_seq_view(dirs@),
                selection_set: selection_set_view(*ss),
            },
        ));
    }
}

fn emit_definition(out: &mut Vec<char>, d: &crate::query::Definition)
    ensures
        final(out)@ == old(out)@ + pr_definition(definition_view(*d)),
{
    match d {
        crate::query::Definition::Operation(o) => {
            match o {
                crate::query::OperationDefinition::SelectionSet(ss) => {
                    emit_selection_set(out, ss, 0);
                },
                crate::query::OperationDefinition::Query(q) => {
                    emit_operation_body(
                        out,
                        "query",
                        &q.name,
                        &q.variable_definitions,
                        &q.directives,
                        &q.selection_set,
                    );
                },
                crate::query::OperationDefinition::Mutation(m) => {
                    emit_operation_body(
                        out,
                        "mutation",
                        &m.name,
                        &m.variable_definitions,
                        &m.directives,
                        &m.selection_set,
                    );
                },
                crate::query::OperationDefinition::Subscription(sb) => {
                    emit_operation_body(
                        out,
                        "subscription",
                        &sb.name,
                        &sb.variable_definitions,
                        &sb.directives,
                        &sb.selection_set,
                    );
                },
            }
        },
        crate::query::Definition::Fragment(f) => {
            emit_str(out, "fragment ");
            emit_str(out, f.name.as_str());
            emit_str(out, " on ");
            match &f.type_condition {
                crate::query::TypeCondition::On(t) => {
                    emit_str(out, t.as_str());
                },
            }
            emit_directives(out, &f.directives);
            out.push(' ');
            emit_selection_set(out, &f.selection_set, 0);
            proof {
                reveal_strlit("fragment ");
                reveal_strlit(" on ");
                assert("fragment "@ =~= seq!['f', 'r', 'a', 'g', 'm', 'e', 'n', 't', ' ']);
                assert(" on "@ =~= seq![' ', 'o', 'n', ' ']);
                assert(out@ =~= old(out)@ + pr_definition(definition_view(*d)));
            }
        },
    }
}

impl Document {
    /// The document serialized back to query text, exactly as `pr_document`
    /// reads its mirror.
    pub fn to_text(&self) -> (r: String)
        ensures
            r@ == pr_document(document_view(*self)),
    {
        let ghost viewed = crate::query::definitions_view(self.definitions@);
        proof {
            lemma_definitions_view_index(self.definitions@);
        }
        let mut out: Vec<char> = Vec::new();
        proof {
            assert(pr_document(DocumentV { definitions: viewed.take(0) }) =~= Seq::<
                char,
            >::empty());
            assert(out@ =~= pr_document(DocumentV { definitions: viewed.take(0) }));
        }
        let n: usize = self.definitions.len();
        let mut i: usize = 0;
        while i < n
            invariant
                i <= n,
                n == self.definitions@.len(),
                viewed == crate::query::definitions_view(self.definitions@),
                viewed.len() == n,
                forall|k: int|
                    0 <= k < n ==> #[trigger] viewed[k] == crate::query::definition_view(
                        self.definitions@[k],
                    ),
                out@ == pr_document(DocumentV { definitions: viewed.take(i as int) }),
            decreases n - i,
        {
            let ghost done = viewed.take(i as int);
            emit_definition(&mut out, &self.definitions[i]);
            out.push('\n');
            i = i + 1;
            proof {
                assert(viewed.take(i as int).drop_last() =~= done);
                assert(viewed.take(i as int).last() == viewed[i - 1]);
                assert(pr_document(DocumentV { definitions: viewed.take(i as int) })
                    =~= pr_document(DocumentV { definitions: done }) + pr_definition(
                    viewed[i - 1],
                ) + seq!['\n']);
                assert(out@ =~= pr_document(DocumentV { definitions: viewed.take(i as int) }));
            }
        }
        proof {
            assert(viewed.take(n as int) =~= viewed);
            assert(out@ =~= pr_document(document_view(*self)));
        }
        string_from_range(&out, 0, out.len())
    }
}

} // verus!
