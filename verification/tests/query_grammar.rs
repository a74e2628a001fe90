use graphql_parser::query::{
    Definition, Document, Field, FragmentDefinition, InlineFragment, OperationDefinition, Query,
    Selection, SelectionSet, TypeCondition, Value, VariableDefinition, VariableType,
};
use graphql_parser::query_error::ParseErrorKind;
use graphql_parser::query_grammar::{parse_query, unquote_block_string, unquote_string};

fn ast(s: &str) -> Document {
    match parse_query(s) {
        Ok(d) => d,
        Err(e) => panic!("Parse error at {}:{}: {}", e.line, e.column, e.describe()),
    }
}

#[test]
fn one_field() {
    assert_eq!(ast("{ a }"), Document {
        definitions: vec![
            Definition::Operation(OperationDefinition::SelectionSet(
                SelectionSet {
                    items: vec![
                        Selection::Field(Field {
                            alias: None,
                            name: "a".into(),
                            arguments: Vec::new(),
                            directives: Vec::new(),
                            selection_set: SelectionSet {
                                items: Vec::new()
                            },
                        }),
                    ],
                }
            ))
        ],
    });
}

#[test]
fn one_field_roundtrip() {
    assert_eq!(ast("{ a }").to_text(), "{\n  a\n}\n");
}

#[test]
#[should_panic(expected="number too large")]
fn large_integer() {
    ast("{ a(x: 10000000000000000000000000000 }");
}

#[test]
fn large_integer_is_an_error_not_a_panic() {
    let e = parse_query("{ a(x: 10000000000000000000000000000) }").unwrap_err();
    assert_eq!(e.kind, ParseErrorKind::NumberTooLarge);
    let min = parse_query("{ a(x: -9223372036854775808) }");
    assert!(min.is_ok());
    let under = parse_query("{ a(x: -9223372036854775809) }").unwrap_err();
    assert_eq!(under.kind, ParseErrorKind::NumberTooLarge);
}

#[test]
fn alias_field() {
    let doc = ast("{ b: a }");
    match &doc.definitions[0] {
        Definition::Operation(OperationDefinition::SelectionSet(ss)) => {
            match &ss.items[0] {
                Selection::Field(f) => {
                    assert_eq!(f.name, "a");
                    assert_eq!(f.alias, Some("b".to_string()));
                }
                other => panic!("not a field: {:?}", other),
            }
        }
        other => panic!("not a shorthand operation: {:?}", other),
    }
}

#[test]
fn fragment_spread_and_inline_fragment() {
    let doc = ast("{ ...b }");
    match &doc.definitions[0] {
        Definition::Operation(OperationDefinition::SelectionSet(ss)) => {
            match &ss.items[0] {
                Selection::FragmentSpread(fs) => {
                    assert_eq!(fs.fragment_name, "b");
                    assert!(fs.directives.is_empty());
                }
                other => panic!("not a fragment spread: {:?}", other),
            }
        }
        other => panic!("not a shorthand operation: {:?}", other),
    }
    let doc2 = ast("{ ... on T { x } }");
    match &doc2.definitions[0] {
        Definition::Operation(OperationDefinition::SelectionSet(ss)) => {
            match &ss.items[0] {
                Selection::InlineFragment(InlineFragment { type_condition, selection_set, .. }) => {
                    assert_eq!(*type_condition, Some(TypeCondition::On("T".to_string())));
                    assert_eq!(selection_set.items.len(), 1);
                }
                other => panic!("not an inline fragment: {:?}", other),
            }
        }
        other => panic!("not a shorthand operation: {:?}", other),
    }
}

#[test]
fn untyped_inline_fragment() {
    let doc = ast("{ ... @skip { x } }");
    match &doc.definitions[0] {
        Definition::Operation(OperationDefinition::SelectionSet(ss)) => {
            match &ss.items[0] {
                Selection::InlineFragment(inl) => {
                    assert_eq!(inl.type_condition, None);
                    assert_eq!(inl.directives.len(), 1);
                    assert_eq!(inl.directives[0].name, "skip");
                }
                other => panic!("not an inline fragment: {:?}", other),
            }
        }
        other => panic!("not a shorthand operation: {:?}", other),
    }
}

#[test]
fn named_query_with_variables() {
    let doc = ast("query Q($v: Int = 3) { a(x: $v) }");
    match &doc.definitions[0] {
        Definition::Operation(OperationDefinition::Query(Query {
            name,
            variable_definitions,
            directives,
            ..
        })) => {
            assert_eq!(*name, Some("Q".to_string()));
            assert!(directives.is_empty());
            assert_eq!(variable_definitions, &vec![VariableDefinition {
                name: "v".to_string(),
                var_type: VariableType::NamedType("Int".to_string()),
                default_value: Some(Value::Int(3)),
            }]);
        }
        other => panic!("not a query: {:?}", other),
    }
}

#[test]
fn empty_variable_list_is_allowed() {
    let doc = ast("query () { a }");
    match &doc.definitions[0] {
        Definition::Operation(OperationDefinition::Query(Query {
            name,
            variable_definitions,
            ..
        })) => {
            assert_eq!(*name, None);
            assert!(variable_definitions.is_empty());
        }
        other => panic!("not a query: {:?}", other),
    }
    let named = ast("query Q() { a }");
    match &named.definitions[0] {
        Definition::Operation(OperationDefinition::Query(Query {
            name,
            variable_definitions,
            ..
        })) => {
            assert_eq!(*name, Some("Q".to_string()));
            assert!(variable_definitions.is_empty());
        }
        other => panic!("not a query: {:?}", other),
    }
}

#[test]
fn mutation_and_subscription() {
    let doc = ast("mutation { m }\nsubscription S { s }");
    assert_eq!(doc.definitions.len(), 2);
    assert!(matches!(
        doc.definitions[0],
        Definition::Operation(OperationDefinition::Mutation(_))
    ));
    assert!(matches!(
        doc.definitions[1],
        Definition::Operation(OperationDefinition::Subscription(_))
    ));
}

#[test]
fn fragment_definition() {
    let doc = ast("fragment frag on Friend { name }");
    match &doc.definitions[0] {
        Definition::Fragment(FragmentDefinition { name, type_condition, selection_set, .. }) => {
            assert_eq!(name, "frag");
            assert_eq!(*type_condition, TypeCondition::On("Friend".to_string()));
            assert_eq!(selection_set.items.len(), 1);
        }
        other => panic!("not a fragment definition: {:?}", other),
    }
}

#[test]
fn argument_values() {
    let doc = ast(r#"{ a(i: 10, s: "x", e: RED, v: $y, l: [1, 2], o: {k: 3}) }"#);
    match &doc.definitions[0] {
        Definition::Operation(OperationDefinition::SelectionSet(ss)) => {
            match &ss.items[0] {
                Selection::Field(f) => {
                    assert_eq!(f.arguments.len(), 6);
                    assert_eq!(f.arguments[0], ("i".to_string(), Value::Int(10)));
                    assert_eq!(f.arguments[1], ("s".to_string(), Value::String("x".to_string())));
                    assert_eq!(f.arguments[2], ("e".to_string(), Value::EnumValue("RED".to_string())));
                    assert_eq!(f.arguments[3], ("v".to_string(), Value::Variable("y".to_string())));
                    assert_eq!(f.arguments[4], ("l".to_string(), Value::ListValue(vec![
                        Value::Int(1), Value::Int(2),
                    ])));
                    assert_eq!(f.arguments[5], ("o".to_string(), Value::ObjectValue(vec![
                        ("k".to_string(), Value::Int(3)),
                    ])));
                }
                other => panic!("not a field: {:?}", other),
            }
        }
        other => panic!("not a shorthand operation: {:?}", other),
    }
}

#[test]
fn empty_selection_set_is_an_error() {
    assert!(parse_query("{}").is_err());
    assert!(parse_query("").is_err());
    assert!(parse_query("{ a } trailing").is_err());
}

#[test]
fn error_positions() {
    let e = parse_query("{ a }\n{ ").unwrap_err();
    assert_eq!((e.line, e.column), (2, 3));
}

#[test]
fn unquote_string_escapes() {
    assert_eq!(unquote_string(r#""""#).unwrap(), "");
    assert_eq!(unquote_string(r#""hello""#).unwrap(), "hello");
    assert_eq!(unquote_string(r#""my\"quote""#).unwrap(), "my\"quote");
    assert_eq!(unquote_string(r#""a\\b\/c\nd\re\tf""#).unwrap(), "a\\b/c\nd\re\tf");
    assert_eq!(unquote_string(r#""\b\f""#).unwrap(), "\u{0008}\u{000C}");
    assert_eq!(unquote_string(r#""A""#).unwrap(), "A");
    assert_eq!(unquote_string("\"\u{1F600}\"").unwrap(), "\u{1F600}");
    assert_eq!(unquote_string("\"\\uD83D\\uDE00\"").unwrap(), "\u{1F600}");
    assert_eq!(unquote_string("\"\\u0041\"").unwrap(), "A");
    assert_eq!(unquote_string(r#""\q""#).unwrap_err(), ParseErrorKind::BadEscape);
    assert_eq!(unquote_string(r#""\uD83D""#).unwrap_err(), ParseErrorKind::BadEscape);
    assert_eq!(unquote_string(r#""\uZZZZ""#).unwrap_err(), ParseErrorKind::BadEscape);
}

#[test]
fn unquote_block_string_dedents() {
    assert_eq!(unquote_block_string(r#""""""""#).unwrap(), "");
    assert_eq!(unquote_block_string(r#""""hello""""#).unwrap(), "hello");
    assert_eq!(
        unquote_block_string("\"\"\"\n  hello\n    world\n\"\"\"").unwrap(),
        "hello\n  world"
    );
    assert_eq!(
        unquote_block_string("\"\"\"first\n  second\n\n\"\"\"").unwrap(),
        "first\n  second"
    );
    assert_eq!(
        unquote_block_string("\"\"\"first\n  second\n  third\n\"\"\"").unwrap(),
        "first\nsecond\nthird"
    );
    assert_eq!(
        unquote_block_string("\"\"\"\n  a \\\"\"\" b\n\"\"\"").unwrap(),
        "a \"\"\" b"
    );
}

#[test]
fn print_roundtrip_stability() {
    let sources = [
        "{ a }",
        "{ b: a(x: 10) @skip { c } }",
        "query Q($v: Int = 3) { a(x: $v) }",
        "mutation { m(s: \"hi\", l: [1, -2], o: {k: RED}) }",
        "fragment frag on Friend { name ...other ... on T { x } }",
    ];
    for src in sources {
        let first = ast(src);
        let printed = first.to_text();
        let second = ast(&printed);
        assert_eq!(first, second, "for source {:?} printed {:?}", src, printed);
    }
}

#[test]
fn empty_selection_sentinel() {
    let ss = graphql_parser::query_grammar::empty_selection();
    assert_eq!(ss.items.len(), 0);
}
