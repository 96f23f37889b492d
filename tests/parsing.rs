use firstlang::ast::{ExprKind, LiteralKind};
use firstlang::parse;
use firstlang::types::Type;

#[test]
fn parses_the_largest_integer() {
    let exprs = parse("9223372036854775807").unwrap();
    assert_eq!(exprs[0].kind, ExprKind::Literal(LiteralKind::Int(9223372036854775807)));
}

#[test]
fn rejects_an_integer_that_overflows() {
    assert!(parse("9223372036854775808").is_err());
}

#[test]
fn parses_several_expressions() {
    let exprs = parse("x = 1\n  y = x\n").unwrap();
    assert_eq!(exprs.len(), 2);
    assert!(parse("").unwrap().is_empty());
}

#[test]
fn omitted_annotations_are_unknown() {
    let exprs = parse("def f(a, b: bool) { a }").unwrap();
    assert_eq!(
        exprs[0].ty,
        Type::Function(vec![Type::Unknown, Type::Scalar(firstlang::types::ScalarKind::Bool)], Box::new(Type::Unknown))
    );
}

#[test]
fn rejects_malformed_source() {
    assert!(parse("(1").is_err());
    assert!(parse("def").is_err());
    assert!(parse("if (true) { 1 }").is_err());
    assert!(parse(")").is_err());
}
