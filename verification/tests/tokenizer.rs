use graphql_parser::tokenizer::{Kind, TokenError, TokenStream};
use graphql_parser::tokenizer::Kind::{BlockString, FloatValue, IntValue, Name, Punctuator, StringValue};

fn tok_str(s: &str) -> Vec<String> {
    let mut r = Vec::new();
    let mut s = TokenStream::new(s);
    loop {
        match s.uncons() {
            Ok(x) => r.push(x.value),
            Err(TokenError::EndOfInput) => break,
            Err(e) => panic!("Parse error at {:?}: {:?}", s.position(), e),
        }
    }
    r
}

fn tok_typ(s: &str) -> Vec<Kind> {
    let mut r = Vec::new();
    let mut s = TokenStream::new(s);
    loop {
        match s.uncons() {
            Ok(x) => r.push(x.kind),
            Err(TokenError::EndOfInput) => break,
            Err(e) => panic!("Parse error at {:?}: {:?}", s.position(), e),
        }
    }
    r
}

fn tok_err(s: &str) -> TokenError {
    let mut s = TokenStream::new(s);
    loop {
        match s.uncons() {
            Ok(_) => continue,
            Err(TokenError::EndOfInput) => panic!("no lexical error"),
            Err(e) => return e,
        }
    }
}

#[test]
fn comments_and_commas() {
    assert_eq!(tok_str("# hello { world }"), &[] as &[&str]);
    assert_eq!(tok_str("# x\n,,,"), &[] as &[&str]);
    assert_eq!(tok_str(", ,,  ,,,  # x"), &[] as &[&str]);
}

#[test]
fn simple() {
    assert_eq!(tok_str("a { b }"), ["a", "{", "b", "}"]);
    assert_eq!(tok_typ("a { b }"), [Name, Punctuator, Name, Punctuator]);
}

#[test]
fn query() {
    assert_eq!(tok_str("query Query {
            object { field }
        }"), ["query", "Query", "{", "object", "{", "field", "}", "}"]);
}

#[test]
fn fragment() {
    assert_eq!(tok_str("a { ...b }"), ["a", "{", "...", "b", "}"]);
}

#[test]
fn int_literals() {
    assert_eq!(tok_str("0"), ["0"]);
    assert_eq!(tok_str("0,"), ["0"]);
    assert_eq!(tok_str("0# x"), ["0"]);
    assert_eq!(tok_typ("0"), [IntValue]);
    assert_eq!(tok_str("-0"), ["-0"]);
    assert_eq!(tok_typ("-0"), [IntValue]);
    assert_eq!(tok_str("-1"), ["-1"]);
    assert_eq!(tok_typ("-1"), [IntValue]);
    assert_eq!(tok_str("-132"), ["-132"]);
    assert_eq!(tok_typ("-132"), [IntValue]);
    assert_eq!(tok_str("132"), ["132"]);
    assert_eq!(tok_typ("132"), [IntValue]);
    assert_eq!(tok_str("a(x: 10) { b }"),
        ["a", "(", "x", ":", "10", ")", "{", "b", "}"]);
    assert_eq!(tok_typ("a(x: 10) { b }"),
        [Name, Punctuator, Name, Punctuator, IntValue, Punctuator,
            Punctuator, Name, Punctuator]);
}

#[test] #[should_panic] fn zero_int() { tok_str("01"); }
#[test] #[should_panic] fn zero_int4() { tok_str("00001"); }
#[test] #[should_panic] fn minus_int() { tok_str("-"); }
#[test] #[should_panic] fn minus_zero_int() { tok_str("-01"); }
#[test] #[should_panic] fn minus_zero_int4() { tok_str("-00001"); }
#[test] #[should_panic] fn letters_int() { tok_str("0bbc"); }

#[test]
fn float() {
    assert_eq!(tok_str("0.0"), ["0.0"]);
    assert_eq!(tok_typ("0.0"), [FloatValue]);
    assert_eq!(tok_str("-0.0"), ["-0.0"]);
    assert_eq!(tok_typ("-0.0"), [FloatValue]);
    assert_eq!(tok_str("-1.0"), ["-1.0"]);
    assert_eq!(tok_typ("-1.0"), [FloatValue]);
    assert_eq!(tok_str("-1.023"), ["-1.023"]);
    assert_eq!(tok_typ("-1.023"), [FloatValue]);
    assert_eq!(tok_str("-132.0"), ["-132.0"]);
    assert_eq!(tok_typ("-132.0"), [FloatValue]);
    assert_eq!(tok_str("132.0"), ["132.0"]);
    assert_eq!(tok_typ("132.0"), [FloatValue]);
    assert_eq!(tok_str("0e+0"), ["0e+0"]);
    assert_eq!(tok_typ("0e+0"), [FloatValue]);
    assert_eq!(tok_str("0.0e+0"), ["0.0e+0"]);
    assert_eq!(tok_typ("0.0e+0"), [FloatValue]);
    assert_eq!(tok_str("-0e+0"), ["-0e+0"]);
    assert_eq!(tok_typ("-0e+0"), [FloatValue]);
    assert_eq!(tok_str("-1e+0"), ["-1e+0"]);
    assert_eq!(tok_typ("-1e+0"), [FloatValue]);
    assert_eq!(tok_str("-132e+0"), ["-132e+0"]);
    assert_eq!(tok_typ("-132e+0"), [FloatValue]);
    assert_eq!(tok_str("132e+0"), ["132e+0"]);
    assert_eq!(tok_typ("132e+0"), [FloatValue]);
    assert_eq!(tok_str("a(x: 10.0) { b }"),
        ["a", "(", "x", ":", "10.0", ")", "{", "b", "}"]);
    assert_eq!(tok_typ("a(x: 10.0) { b }"),
        [Name, Punctuator, Name, Punctuator, FloatValue, Punctuator,
            Punctuator, Name, Punctuator]);
}

#[test] #[should_panic] fn no_int_float() { tok_str(".0"); }
#[test] #[should_panic] fn no_int_float1() { tok_str(".1"); }
#[test] #[should_panic] fn zero_float() { tok_str("01.0"); }
#[test] #[should_panic] fn zero_float4() { tok_str("00001.0"); }
#[test] #[should_panic] fn minus_float() { tok_str("-.0"); }
#[test] #[should_panic] fn minus_zero_float() { tok_str("-01.0"); }
#[test] #[should_panic] fn minus_zero_float4() { tok_str("-00001.0"); }
#[test] #[should_panic] fn letters_float() { tok_str("0bbc.0"); }
#[test] #[should_panic] fn letters_float2() { tok_str("0.bbc"); }
#[test] #[should_panic] fn letters_float3() { tok_str("0.bbce0"); }
#[test] #[should_panic] fn no_exp_sign_float() { tok_str("0e0"); }

#[test]
fn string() {
    assert_eq!(tok_str(r#""""#), [r#""""#]);
    assert_eq!(tok_typ(r#""""#), [StringValue]);
    assert_eq!(tok_str(r#""hello""#), [r#""hello""#]);
    assert_eq!(tok_typ(r#""hello""#), [StringValue]);
    assert_eq!(tok_str(r#""my\"quote""#), [r#""my\"quote""#]);
    assert_eq!(tok_typ(r#""my\"quote""#), [StringValue]);
}

#[test]
fn block_string() {
    assert_eq!(tok_str(r#""""""""#), [r#""""""""#]);
    assert_eq!(tok_typ(r#""""""""#), [BlockString]);
    assert_eq!(tok_str(r#""""hello""""#), [r#""""hello""""#]);
    assert_eq!(tok_typ(r#""""hello""""#), [BlockString]);
    assert_eq!(tok_str(r#""""my "quote" """"#), [r#""""my "quote" """"#]);
    assert_eq!(tok_typ(r#""""my "quote" """"#), [BlockString]);
    assert_eq!(tok_str(r#""""\"""quote" """"#), [r#""""\"""quote" """"#]);
    assert_eq!(tok_typ(r#""""\"""quote" """"#), [BlockString]);
}

#[test]
fn lexical_error_kinds() {
    assert_eq!(tok_err("?"), TokenError::UnexpectedCharacter);
    assert_eq!(tok_err("."), TokenError::BareDot);
    assert_eq!(tok_err(".."), TokenError::BareDot);
    assert_eq!(tok_err("01"), TokenError::UnsupportedInt);
    assert_eq!(tok_err("0e0"), TokenError::UnsupportedFloat);
    assert_eq!(tok_err("\"abc"), TokenError::UnterminatedString);
    assert_eq!(tok_err("\"\"\"abc"), TokenError::UnterminatedBlockString);
}

#[test]
fn positions_track_lines_and_columns() {
    let mut s = TokenStream::new("a\n  bb ccc");
    let p0 = s.position();
    assert_eq!((p0.line, p0.column), (1, 1));
    s.uncons().unwrap();
    let p1 = s.position();
    assert_eq!((p1.line, p1.column), (2, 3));
    s.uncons().unwrap();
    let p2 = s.position();
    assert_eq!((p2.line, p2.column), (2, 6));
}

#[test]
fn checkpoint_restores_the_cursor() {
    let mut s = TokenStream::new("a b");
    let cp = s.checkpoint();
    assert_eq!(s.uncons().unwrap().value, "a");
    assert_eq!(s.uncons().unwrap().value, "b");
    s.reset(cp);
    assert_eq!(s.uncons().unwrap().value, "a");
}

#[test]
fn shape_checks() {
    assert!(graphql_parser::tokenizer::check_int("0"));
    assert!(graphql_parser::tokenizer::check_int("-0"));
    assert!(graphql_parser::tokenizer::check_int("-132"));
    assert!(!graphql_parser::tokenizer::check_int("01"));
    assert!(!graphql_parser::tokenizer::check_int("-"));
    assert!(!graphql_parser::tokenizer::check_int("-01"));
    assert!(graphql_parser::tokenizer::check_dec("023"));
    assert!(!graphql_parser::tokenizer::check_dec(""));
    assert!(!graphql_parser::tokenizer::check_dec("2a"));
    assert!(graphql_parser::tokenizer::check_exp("+0"));
    assert!(graphql_parser::tokenizer::check_exp("-123"));
    assert!(!graphql_parser::tokenizer::check_exp("0"));
    assert!(!graphql_parser::tokenizer::check_exp("+"));
    assert!(graphql_parser::tokenizer::check_float("1.5", None, Some(1)));
    assert!(graphql_parser::tokenizer::check_float("1e+5", Some(1), None));
    assert!(!graphql_parser::tokenizer::check_float("1e5.0", Some(1), Some(3)));
}
