use firstlang::ast::{
    BinaryExpr, BinaryOp, Call, Conditional, Expr, ExprKind, Function, Identifier, LiteralKind,
    Loop, Parameter, Return, UnaryExpr, UnaryOp,
};
use firstlang::parse;
use firstlang::types::{ScalarKind, Type};

#[test]
fn typed_parser_test_parse_identifier() {
    let source = "identifier";
    let result = parse(source).unwrap();
    assert_eq!(
        result[0],
        Expr::new(
            ExprKind::Identifier(Identifier::new(String::from("identifier"))),
            Type::Unknown
        )
    );
}

#[test]
fn typed_parser_test_parse_literal_int() {
    let source = "42";
    let result = parse(source).unwrap();
    assert_eq!(
        result[0],
        Expr::new(
            ExprKind::Literal(LiteralKind::Int(42)),
            Type::Scalar(ScalarKind::Int)
        )
    );
}

#[test]
fn typed_parser_test_parse_literal_bool() {
    let source = "true";
    let result = parse(source).unwrap();
    assert_eq!(
        result[0],
        Expr::new(
            ExprKind::Literal(LiteralKind::Bool(true)),
            Type::Scalar(ScalarKind::Bool)
        )
    );
}

#[test]
fn typed_parser_test_parse_unary_expr() {
    let source = "-42";
    let result = parse(source).unwrap();
    assert_eq!(
        result[0],
        Expr::new(
            ExprKind::UnaryExpr(UnaryExpr::new(
                UnaryOp::Minus,
                Box::new(Expr::new(
                    ExprKind::Literal(LiteralKind::Int(42)),
                    Type::Scalar(ScalarKind::Int)
                ))
            )),
            Type::Unknown
        )
    );
}

#[test]
fn typed_parser_test_parse_binary_expr() {
    let source = "3 + 5";
    let result = parse(source).unwrap();
    assert_eq!(
        result[0],
        Expr::new(
            ExprKind::BinaryExpr(BinaryExpr::new(
                BinaryOp::Add,
                Box::new(Expr::new(
                    ExprKind::Literal(LiteralKind::Int(3)),
                    Type::Scalar(ScalarKind::Int)
                )),
                Box::new(Expr::new(
                    ExprKind::Literal(LiteralKind::Int(5)),
                    Type::Scalar(ScalarKind::Int)
                )),
            )),
            Type::Unknown
        )
    );
    let source = "3 * 5";
    let result = parse(source).unwrap();
    assert_eq!(
        result[0],
        Expr::new(
            ExprKind::BinaryExpr(BinaryExpr::new(
                BinaryOp::Mul,
                Box::new(Expr::new(
                    ExprKind::Literal(LiteralKind::Int(3)),
                    Type::Scalar(ScalarKind::Int)
                )),
                Box::new(Expr::new(
                    ExprKind::Literal(LiteralKind::Int(5)),
                    Type::Scalar(ScalarKind::Int)
                )),
            )),
            Type::Unknown
        )
    );
}

#[test]
fn typed_parser_test_parse_function() {
    let source = "def myFunc(param1: int, param2: int) -> int { return 42 }";
    let result = parse(source).unwrap();
    let expected = Expr::new(
        ExprKind::Function(Function::new(
            Identifier::new(String::from("myFunc")),
            vec![
                Parameter::new(
                    Identifier::new(String::from("param1")),
                    Type::Scalar(ScalarKind::Int),
                ),
                Parameter::new(
                    Identifier::new(String::from("param2")),
                    Type::Scalar(ScalarKind::Int),
                ),
            ],
            Box::new(vec![Expr::new(
                ExprKind::Return(Return::new(Box::new(Expr::new(
                    ExprKind::Literal(LiteralKind::Int(42)),
                    Type::Scalar(ScalarKind::Int),
                )))),
                Type::Unknown,
            )]),
        )),
        Type::Function(
            vec![Type::Scalar(ScalarKind::Int), Type::Scalar(ScalarKind::Int)],
            Box::new(Type::Scalar(ScalarKind::Int)),
        ),
    );
    assert_eq!(result[0], expected);
}

#[test]
fn typed_parser_test_parse_call() {
    let source = "myFunc(arg1, arg2)";
    let result = parse(source).unwrap();
    let expected = Expr::new(
        ExprKind::Call(Call::new(
            Identifier::new(String::from("myFunc")),
            vec![
                Expr::new(
                    ExprKind::Identifier(Identifier::new(String::from("arg1"))),
                    Type::Unknown,
                ),
                Expr::new(
                    ExprKind::Identifier(Identifier::new(String::from("arg2"))),
                    Type::Unknown,
                ),
            ],
        )),
        Type::Unknown,
    );
    assert_eq!(result[0], expected);
}

#[test]
fn typed_parser_test_parse_loop() {
    let source = "while (true) { return 42 }";
    let result = parse(source).unwrap();
    let expected = Expr::new(
        ExprKind::Loop(Loop::new(
            Box::new(Expr::new(
                ExprKind::Literal(LiteralKind::Bool(true)),
                Type::Scalar(ScalarKind::Bool),
            )),
            Box::new(vec![Expr::new(
                ExprKind::Return(Return::new(Box::new(Expr::new(
                    ExprKind::Literal(LiteralKind::Int(42)),
                    Type::Scalar(ScalarKind::Int),
                )))),
                Type::Unknown,
            )]),
        )),
        Type::Unit,
    );
    assert_eq!(result[0], expected);
}

#[test]
fn typed_parser_test_parse_conditional() {
    let source = "if (true) { return 42 } else { return 24 }";
    let result = parse(source).unwrap();

    let expected = Expr::new(
        ExprKind::Conditional(Conditional::new(
            Box::new(Expr::new(
                ExprKind::Literal(LiteralKind::Bool(true)),
                Type::Scalar(ScalarKind::Bool),
            )),
            Box::new(Expr::new(
                ExprKind::Return(Return::new(Box::new(Expr::new(
                    ExprKind::Literal(LiteralKind::Int(42)),
                    Type::Scalar(ScalarKind::Int),
                )))),
                Type::Unknown,
            )),
            Box::new(Expr::new(
                ExprKind::Return(Return::new(Box::new(Expr::new(
                    ExprKind::Literal(LiteralKind::Int(24)),
                    Type::Scalar(ScalarKind::Int),
                )))),
                Type::Unknown,
            )),
        )),
        Type::Unknown,
    );

    assert_eq!(result[0], expected);
}
