//! The AST produced by parsing: pure data with structural equality, owned by
//! the returned `Document`. Each node type has a mathematical mirror (the
//! `..V` types, over `Seq` and `int`) reached through `View`, which the
//! parser's contracts are stated over.
use vstd::prelude::*;

verus! {

// ---------------------------------------------------------------------------
// Executable node types
// ---------------------------------------------------------------------------

/// A literal or variable value standing in an argument or a default.
///
/// Float literals are recognized by the lexer as their own token kind, but
/// no value production accepts one, so this sum deliberately has no float
/// case; wiring floats into values is an open grammar extension.
#[derive(Debug, PartialEq, Eq)]
pub enum Value {
    /// An integer literal. A literal whose digits do not fit this range is a
    /// parse error, never a silent wraparound.
    Int(i64),
    /// A decoded single-line or block string literal.
    String(String),
    /// A bare name standing as a value.
    EnumValue(String),
    /// `$name`.
    Variable(String),
    /// `[ ... ]`, possibly empty.
    ListValue(Vec<Value>),
    /// `{ name: value ... }`, possibly empty.
    ObjectValue(Vec<(String, Value)>),
}

/// `@name(args)`.
#[derive(Debug, PartialEq, Eq)]
pub struct Directive {
    pub name: String,
    pub arguments: Vec<(String, Value)>,
}

/// A braced list of selections; the empty list is the sentinel for a field
/// without a sub-selection.
#[derive(Debug, PartialEq, Eq)]
pub struct SelectionSet {
    pub items: Vec<Selection>,
}

/// One requested item inside a selection set.
#[derive(Debug, PartialEq, Eq)]
pub enum Selection {
    Field(Field),
    FragmentSpread(FragmentSpread),
    InlineFragment(InlineFragment),
}

/// `alias: name(args) @dirs { sub }` with every part but the name optional.
#[derive(Debug, PartialEq, Eq)]
pub struct Field {
    pub alias: Option<String>,
    pub name: String,
    pub arguments: Vec<(String, Value)>,
    pub directives: Vec<Directive>,
    pub selection_set: SelectionSet,
}

/// `...name @dirs`.
#[derive(Debug, PartialEq, Eq)]
pub struct FragmentSpread {
    pub fragment_name: String,
    pub directives: Vec<Directive>,
}

/// `... [on Type] @dirs { sub }`.
#[derive(Debug, PartialEq, Eq)]
pub struct InlineFragment {
    pub type_condition: Option<TypeCondition>,
    pub directives: Vec<Directive>,
    pub selection_set: SelectionSet,
}

/// The type a fragment applies to: `on Name`.
#[derive(Debug, PartialEq, Eq)]
pub enum TypeCondition {
    On(String),
}

/// The type of a variable; only named types are parsed.
#[derive(Debug, PartialEq, Eq)]
pub enum VariableType {
    NamedType(String),
}

/// `$name: Type = default`.
#[derive(Debug, PartialEq, Eq)]
pub struct VariableDefinition {
    pub name: String,
    pub var_type: VariableType,
    pub default_value: Option<Value>,
}

/// The common body of an operation: `query Name($v: T = d) { ... }`.
/// Directives on operations are not parsed and stay empty.
#[derive(Debug, PartialEq, Eq)]
pub struct Query {
    pub name: Option<String>,
    pub variable_definitions: Vec<VariableDefinition>,
    pub directives: Vec<Directive>,
    pub selection_set: SelectionSet,
}

#[derive(Debug, PartialEq, Eq)]
pub struct Mutation {
    pub name: Option<String>,
    pub variable_definitions: Vec<VariableDefinition>,
    pub directives: Vec<Directive>,
    pub selection_set: SelectionSet,
}

#[derive(Debug, PartialEq, Eq)]
pub struct Subscription {
    pub name: Option<String>,
    pub variable_definitions: Vec<VariableDefinition>,
    pub directives: Vec<Directive>,
    pub selection_set: SelectionSet,
}

/// An operation: a bare selection set (shorthand query) or a keyworded form.
#[derive(Debug, PartialEq, Eq)]
pub enum OperationDefinition {
    SelectionSet(SelectionSet),
    Query(Query),
    Mutation(Mutation),
    Subscription(Subscription),
}

/// `fragment Name on Type @dirs { ... }`.
#[derive(Debug, PartialEq, Eq)]
pub struct FragmentDefinition {
    pub name: String,
    pub type_condition: TypeCondition,
    pub directives: Vec<Directive>,
    pub selection_set: SelectionSet,
}

#[derive(Debug, PartialEq, Eq)]
pub enum Definition {
    Operation(OperationDefinition),
    Fragment(FragmentDefinition),
}

/// The root of the AST: the definitions of one document, in order.
#[derive(Debug, PartialEq, Eq)]
pub struct Document {
    pub definitions: Vec<Definition>,
}

// ---------------------------------------------------------------------------
// Mathematical mirrors
// ---------------------------------------------------------------------------

pub enum ValueV {
    Int(int),
    String(Seq<char>),
    EnumValue(Seq<char>),
    Variable(Seq<char>),
    ListValue(Seq<ValueV>),
    ObjectValue(Seq<(Seq<char>, ValueV)>),
}

pub struct DirectiveV {
    pub name: Seq<char>,
    pub arguments: Seq<(Seq<char>, ValueV)>,
}

pub struct SelectionSetV {
    pub items: Seq<SelectionV>,
}

pub enum SelectionV {
    Field(FieldV),
    FragmentSpread(FragmentSpreadV),
    InlineFragment(InlineFragmentV),
}

pub struct FieldV {
    pub alias: Option<Seq<char>>,
    pub name: Seq<char>,
    pub arguments: Seq<(Seq<char>, ValueV)>,
    pub directives: Seq<DirectiveV>,
    pub selection_set: SelectionSetV,
}

pub struct FragmentSpreadV {
    pub fragment_name: Seq<char>,
    pub directives: Seq<DirectiveV>,
}

pub struct InlineFragmentV {
    pub type_condition: Option<TypeConditionV>,
    pub directives: Seq<DirectiveV>,
    pub selection_set: SelectionSetV,
}

pub enum TypeConditionV {
    On(Seq<char>),
}

pub enum VariableTypeV {
    NamedType(Seq<char>),
}

pub struct VariableDefinitionV {
    pub name: Seq<char>,
    pub var_type: VariableTypeV,
    pub default_value: Option<ValueV>,
}

pub struct OperationBodyV {
    pub name: Option<Seq<char>>,
    pub variable_definitions: Seq<VariableDefinitionV>,
    pub directives: Seq<DirectiveV>,
    pub selection_set: SelectionSetV,
}

pub enum OperationDefinitionV {
    SelectionSet(SelectionSetV),
    Query(OperationBodyV),
    Mutation(OperationBodyV),
    Subscription(OperationBodyV),
}

pub struct FragmentDefinitionV {
    pub name: Seq<char>,
    pub type_condition: TypeConditionV,
    pub directives: Seq<DirectiveV>,
    pub selection_set: SelectionSetV,
}

pub enum DefinitionV {
    Operation(OperationDefinitionV),
    Fragment(FragmentDefinitionV),
}

pub struct DocumentV {
    pub definitions: Seq<DefinitionV>,
}

// ---------------------------------------------------------------------------
// View functions
// ---------------------------------------------------------------------------

pub open spec fn opt_string_view(o: Option<String>) -> Option<Seq<char>> {
    match o {
        Some(s) => Some(s@),
        None => None,
    }
}

pub open spec fn value_view(v: Value) -> ValueV
    decreases v,
{
    match v {
        Value::Int(i) => ValueV::Int(i as int),
        Value::String(s) => ValueV::String(s@),
        Value::EnumValue(s) => ValueV::EnumValue(s@),
        Value::Variable(s) => ValueV::Variable(s@),
        Value::ListValue(l) => ValueV::ListValue(values_view(l@)),
        Value::ObjectValue(ps) => ValueV::ObjectValue(pairs_view(ps@)),
    }
}

pub open spec fn values_view(l: Seq<Value>) -> Seq<ValueV>
    decreases l,
{
    if l.len() == 0 {
        Seq::empty()
    } else {
        values_view(l.drop_last()).push(value_view(l.last()))
    }
}

pub open spec fn pairs_view(ps: Seq<(String, Value)>) -> Seq<(Seq<char>, ValueV)>
    decreases ps,
{
    if ps.len() == 0 {
        Seq::empty()
    } else {
        pairs_view(ps.drop_last()).push((ps.last().0@, value_view(ps.last().1)))
    }
}

pub open spec fn arguments_view(args: Vec<(String, Value)>) -> Seq<(Seq<char>, ValueV)> {
    pairs_view(args@)
}

pub open spec fn directive_view(d: Directive) -> DirectiveV {
    DirectiveV { name: d.name@, arguments: arguments_view(d.arguments) }
}

pub open spec fn directives_seq_view(ds: Seq<Directive>) -> Seq<DirectiveV>
    decreases ds,
{
    if ds.len() == 0 {
        Seq::empty()
    } else {
        directives_seq_view(ds.drop_last()).push(directive_view(ds.last()))
    }
}

pub open spec fn directives_view(ds: Vec<Directive>) -> Seq<DirectiveV> {
    directives_seq_view(ds@)
}

pub open spec fn type_condition_view(t: TypeCondition) -> TypeConditionV {
    match t {
        TypeCondition::On(n) => TypeConditionV::On(n@),
    }
}

pub open spec fn opt_type_condition_view(t: Option<TypeCondition>) -> Option<TypeConditionV> {
    match t {
        Some(tc) => Some(type_condition_view(tc)),
        None => None,
    }
}

pub open spec fn selection_set_view(s: SelectionSet) -> SelectionSetV
    decreases s,
{
    SelectionSetV { items: selections_view(s.items@) }
}

pub open spec fn selections_view(items: Seq<Selection>) -> Seq<SelectionV>
    decreases items,
{
    if items.len() == 0 {
        Seq::empty()
    } else {
        selections_view(items.drop_last()).push(selection_view(items.last()))
    }
}

pub open spec fn selection_view(s: Selection) -> SelectionV
    decreases s,
{
    match s {
        Selection::Field(f) => SelectionV::Field(field_view(f)),
        Selection::FragmentSpread(fs) => SelectionV::FragmentSpread(
            FragmentSpreadV {
                fragment_name: fs.fragment_name@,
                directives: directives_view(fs.directives),
            },
        ),
        Selection::InlineFragment(inl) => SelectionV::InlineFragment(
            InlineFragmentV {
                type_condition: opt_type_condition_view(inl.type_condition),
                directives: directives_view(inl.directives),
                selection_set: selection_set_view(inl.selection_set),
            },
        ),
    }
}

pub open spec fn field_view(f: Field) -> FieldV
    decreases f,
{
    FieldV {
        alias: opt_string_view(f.alias),
        name: f.name@,
        arguments: arguments_view(f.arguments),
        directives: directives_view(f.directives),
        selection_set: selection_set_view(f.selection_set),
    }
}

pub open spec fn variable_type_view(t: VariableType) -> VariableTypeV {
    match t {
        VariableType::NamedType(n) => VariableTypeV::NamedType(n@),
    }
}

pub open spec fn variable_definition_view(v: VariableDefinition) -> VariableDefinitionV {
    VariableDefinitionV {
        name: v.name@,
        var_type: variable_type_view(v.var_type),
        default_value: match v.default_value {
            Some(d) => Some(value_view(d)),
            None => None,
        },
    }
}

pub open spec fn variable_definitions_seq_view(vs: Seq<VariableDefinition>) -> Seq<
    VariableDefinitionV,
>
    decreases vs,
{
    if vs.len() == 0 {
        Seq::empty()
    } else {
        variable_definitions_seq_view(vs.drop_last()).push(
            variable_definition_view(vs.last()),
        )
    }
}

pub open spec fn variable_definitions_view(vs: Vec<VariableDefinition>) -> Seq<
    VariableDefinitionV,
> {
    variable_definitions_seq_view(vs@)
}

pub open spec fn operation_definition_view(o: OperationDefinition) -> OperationDefinitionV {
    match o {
        OperationDefinition::SelectionSet(s) => OperationDefinitionV::SelectionSet(
            selection_set_view(s),
        ),
        OperationDefinition::Query(q) => OperationDefinitionV::Query(
            OperationBodyV {
                name: opt_string_view(q.name),
                variable_definitions: variable_definitions_view(q.variable_definitions),
                directives: directives_view(q.directives),
                selection_set: selection_set_view(q.selection_set),
            },
        ),
        OperationDefinition::Mutation(m) => OperationDefinitionV::Mutation(
            OperationBodyV {
                name: opt_string_view(m.name),
                variable_definitions: variable_definitions_view(m.variable_definitions),
                directives: directives_view(m.directives),
                selection_set: selection_set_view(m.selection_set),
            },
        ),
        OperationDefinition::Subscription(s) => OperationDefinitionV::Subscription(
            OperationBodyV {
                name: opt_string_view(s.name),
                variable_definitions: variable_definitions_view(s.variable_definitions),
                directives: directives_view(s.directives),
                selection_set: selection_set_view(s.selection_set),
            },
        ),
    }
}

pub open spec fn fragment_definition_view(f: FragmentDefinition) -> FragmentDefinitionV {
    FragmentDefinitionV {
        name: f.name@,
        type_condition: type_condition_view(f.type_condition),
        directives: directives_view(f.directives),
        selection_set: selection_set_view(f.selection_set),
    }
}

pub open spec fn definition_view(d: Definition) -> DefinitionV {
    match d {
        Definition::Operation(o) => DefinitionV::Operation(operation_definition_view(o)),
        Definition::Fragment(f) => DefinitionV::Fragment(fragment_definition_view(f)),
    }
}

pub open spec fn definitions_view(ds: Seq<Definition>) -> Seq<DefinitionV>
    decreases ds,
{
    if ds.len() == 0 {
        Seq::empty()
    } else {
        definitions_view(ds.drop_last()).push(definition_view(ds.last()))
    }
}

pub open spec fn document_view(d: Document) -> DocumentV {
    DocumentV { definitions: definitions_view(d.definitions@) }
}

impl View for Value {
    type V = ValueV;

    open spec fn view(&self) -> ValueV {
        value_view(*self)
    }
}

impl View for SelectionSet {
    type V = SelectionSetV;

    open spec fn view(&self) -> SelectionSetV {
        selection_set_view(*self)
    }
}

impl View for Selection {
    type V = SelectionV;

    open spec fn view(&self) -> SelectionV {
        selection_view(*self)
    }
}

impl View for Field {
    type V = FieldV;

    open spec fn view(&self) -> FieldV {
        field_view(*self)
    }
}

impl View for Directive {
    type V = DirectiveV;

    open spec fn view(&self) -> DirectiveV {
        directive_view(*self)
    }
}

impl View for Document {
    type V = DocumentV;

    open spec fn view(&self) -> DocumentV {
        document_view(*self)
    }
}

impl View for Definition {
    type V = DefinitionV;

    open spec fn view(&self) -> DefinitionV {
        definition_view(*self)
    }
}

} // verus!
