use firstlang::surface::{BinaryOp, Expr, Stmt};
use firstlang::surface_parser::parse;

#[test]
fn test_parse_literal() {
    let program = parse("42").unwrap();
    assert_eq!(program.len(), 1);
    if let Stmt::Expr(Expr::Int(n)) = &program[0] {
        assert_eq!(*n, 42);
    } else {
        panic!("Expected Int literal");
    }
}

#[test]
fn test_parse_bool() {
    let program = parse("true").unwrap();
    if let Stmt::Expr(Expr::Bool(b)) = &program[0] {
        assert!(*b);
    } else {
        panic!("Expected Bool literal");
    }
}

#[test]
fn test_parse_binary() {
    let program = parse("1 + 2").unwrap();
    if let Stmt::Expr(Expr::Binary { op, .. }) = &program[0] {
        assert_eq!(*op, BinaryOp::Add);
    } else {
        panic!("Expected Binary expression");
    }
}

#[test]
fn test_parse_assignment() {
    let program = parse("x = 42").unwrap();
    if let Stmt::Assignment { name, value } = &program[0] {
        assert_eq!(name, "x");
        assert_eq!(*value, Expr::Int(42));
    } else {
        panic!("Expected Assignment");
    }
}

#[test]
fn parser_test_parse_function() {
    let program = parse("def add(a, b) { return a + b }").unwrap();
    if let Stmt::Function { name, params, .. } = &program[0] {
        assert_eq!(name, "add");
        assert_eq!(params, &["a", "b"]);
    } else {
        panic!("Expected Function");
    }
}

#[test]
fn parser_test_parse_call() {
    let program = parse("add(1, 2)").unwrap();
    if let Stmt::Expr(Expr::Call { name, args }) = &program[0] {
        assert_eq!(name, "add");
        assert_eq!(args.len(), 2);
    } else {
        panic!("Expected Call expression");
    }
}

#[test]
fn parser_test_parse_conditional() {
    let program = parse("if (x < 10) { 1 } else { 2 }").unwrap();
    if let Stmt::Expr(Expr::If { .. }) = &program[0] {
        // Successfully parsed
    } else {
        panic!("Expected If expression");
    }
}

#[test]
fn test_parse_while() {
    let program = parse("while (x < 10) { x = x + 1 }").unwrap();
    if let Stmt::Expr(Expr::While { body, .. }) = &program[0] {
        assert_eq!(body.len(), 1);
    } else {
        panic!("Expected While expression");
    }
}

#[test]
fn parser_test_parse_fibonacci() {
    let source = r#"
        def fib(n) {
            if (n < 2) {
                return n
            } else {
                return fib(n - 1) + fib(n - 2)
            }
        }
        fib(10)
    "#;
    let program = parse(source).unwrap();
    assert_eq!(program.len(), 2);
}
