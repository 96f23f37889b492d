use firstlang::infer_types;
use firstlang::parse;
use firstlang::types::{ScalarKind, Type};

#[test]
fn test_infer_leaves() {
    let exprs = parse("1").unwrap();
    let exprs = infer_types(exprs).unwrap();
    assert_eq!(exprs[0].ty, Type::Scalar(ScalarKind::Int));
    let exprs = parse("true").unwrap();
    let exprs = infer_types(exprs).unwrap();
    assert_eq!(exprs[0].ty, Type::Scalar(ScalarKind::Bool));
}

#[test]
fn test_infer_unary() {
    let expr = parse("-1").unwrap();
    let expr = infer_types(expr).unwrap();
    assert_eq!(expr[0].ty, Type::Scalar(ScalarKind::Int));
}

#[test]
fn test_infer_binary() {
    let expr = parse("1 + 2").unwrap();
    let expr = infer_types(expr).unwrap();
    assert_eq!(expr[0].ty, Type::Scalar(ScalarKind::Int));
}

#[test]
fn test_infer_assignment() {
    let expr = parse("x = 1").unwrap();
    let expr = infer_types(expr).unwrap();
    assert_eq!(expr[0].ty, Type::Scalar(ScalarKind::Int));
}

#[test]
fn test_infer_function() {
    let expr = parse("def f(x: int) -> int { return x }").unwrap();
    let expr = infer_types(expr).unwrap();
    assert_eq!(
        expr[0].ty,
        Type::Function(
            vec![Type::Scalar(ScalarKind::Int)],
            Box::new(Type::Scalar(ScalarKind::Int))
        )
    );
}

#[test]
fn test_infer_conditional() {
    let expr = parse("if (true) { 1 } else { 2 }").unwrap();
    let expr = infer_types(expr).unwrap();
    assert_eq!(expr[0].ty, Type::Scalar(ScalarKind::Int));
}

#[test]
fn test_infer_loop() {
    let expr = parse("while (true) { 1 }").unwrap();
    let expr = infer_types(expr).unwrap();
    assert_eq!(expr[0].ty, Type::Unit);
}
