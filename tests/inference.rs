use firstlang::ast::{BinaryOp, Expr, ExprKind, Identifier, LiteralKind};
use firstlang::env::TypeEnv;
use firstlang::infer::{infer_locally, infer_types_with_env};
use firstlang::types::{ScalarKind, Type};
use firstlang::{infer_types, parse, InferError};

#[test]
fn scenario_int_literal() {
    let exprs = infer_types(parse("1").unwrap()).unwrap();
    assert_eq!(exprs[0].ty, Type::Scalar(ScalarKind::Int));
}

#[test]
fn scenario_bool_literal() {
    let exprs = infer_types(parse("true").unwrap()).unwrap();
    assert_eq!(exprs[0].ty, Type::Scalar(ScalarKind::Bool));
}

#[test]
fn scenario_negation() {
    let exprs = infer_types(parse("-1").unwrap()).unwrap();
    assert_eq!(exprs[0].ty, Type::Scalar(ScalarKind::Int));
}

#[test]
fn scenario_addition() {
    let exprs = infer_types(parse("1 + 2").unwrap()).unwrap();
    assert_eq!(exprs[0].ty, Type::Scalar(ScalarKind::Int));
}

#[test]
fn scenario_comparison_is_bool() {
    let exprs = infer_types(parse("1 < 2").unwrap()).unwrap();
    assert_eq!(exprs[0].ty, Type::Scalar(ScalarKind::Bool));
}

#[test]
fn scenario_assignment_binds_the_name() {
    let mut exprs = parse("x = 1").unwrap();
    let mut env = TypeEnv::new();
    infer_types_with_env(&mut exprs[0], &mut env).unwrap();
    assert_eq!(exprs[0].ty, Type::Scalar(ScalarKind::Int));
    let x = Identifier::new(String::from("x"));
    assert_eq!(env.get(&x), Some(&Type::Scalar(ScalarKind::Int)));
}

#[test]
fn scenario_function_signature() {
    let exprs = infer_types(parse("def f(x: int) -> int { return x }").unwrap()).unwrap();
    assert_eq!(
        exprs[0].ty,
        Type::Function(
            vec![Type::Scalar(ScalarKind::Int)],
            Box::new(Type::Scalar(ScalarKind::Int))
        )
    );
}

#[test]
fn scenario_function_return_type_inferred() {
    let exprs = infer_types(parse("def g(a: bool) { return a }").unwrap()).unwrap();
    assert_eq!(
        exprs[0].ty,
        Type::Function(
            vec![Type::Scalar(ScalarKind::Bool)],
            Box::new(Type::Scalar(ScalarKind::Bool))
        )
    );
}

#[test]
fn scenario_conditional() {
    let exprs = infer_types(parse("if (true) { 1 } else { 2 }").unwrap()).unwrap();
    assert_eq!(exprs[0].ty, Type::Scalar(ScalarKind::Int));
}

#[test]
fn scenario_loop_is_unit_whatever_its_body() {
    let exprs = infer_types(parse("while (true) { 1 }").unwrap()).unwrap();
    assert_eq!(exprs[0].ty, Type::Unit);
    let exprs = infer_types(parse("while (false) { true }").unwrap()).unwrap();
    assert_eq!(exprs[0].ty, Type::Unit);
}

#[test]
fn scenario_type_mismatch() {
    let r = infer_types(parse("1 + true").unwrap());
    assert!(matches!(r, Err(InferError::TypeMismatch { .. })));
}

#[test]
fn scenario_undefined_identifier() {
    match infer_types(parse("y").unwrap()) {
        Err(InferError::UndefinedIdentifier { name }) => assert_eq!(name, "y"),
        other => panic!("unexpected {:?}", other),
    }
}

#[test]
fn conditional_arms_must_agree() {
    let r = infer_types(parse("if (true) { 1 } else { false }").unwrap());
    assert!(matches!(r, Err(InferError::TypeMismatch { .. })));
}

#[test]
fn condition_must_be_bool() {
    let r = infer_types(parse("if (1) { 1 } else { 2 }").unwrap());
    assert!(matches!(r, Err(InferError::TypeMismatch { .. })));
}

#[test]
fn call_with_wrong_arity() {
    let source = "def f(x: int) -> int { return x }\nf(1, 2)";
    match infer_types(parse(source).unwrap()) {
        Err(InferError::ArityMismatch { name, params, args }) => {
            assert_eq!(name, "f");
            assert_eq!(params, 1);
            assert_eq!(args, 2);
        }
        other => panic!("unexpected {:?}", other),
    }
}

#[test]
fn call_of_unknown_function() {
    let r = infer_types(parse("g(1)").unwrap());
    assert!(matches!(r, Err(InferError::UndefinedIdentifier { .. })));
}

#[test]
fn unresolvable_parameter_cannot_be_inferred() {
    let r = infer_types(parse("def f(x) { 1 }").unwrap());
    assert!(matches!(r, Err(InferError::CouldNotInfer)));
}

#[test]
fn bindings_do_not_carry_over_between_top_level_expressions() {
    let r = infer_types(parse("x = 1\nx").unwrap());
    assert!(matches!(r, Err(InferError::UndefinedIdentifier { .. })));
}

#[test]
fn local_step_on_a_literal() {
    let mut e = Expr::new(ExprKind::Literal(LiteralKind::Int(3)), Type::Unknown);
    let mut env = TypeEnv::new();
    assert_eq!(infer_locally(&mut e, &mut env).unwrap(), true);
    assert_eq!(e.ty, Type::Scalar(ScalarKind::Int));
    let mut wrong = Expr::new(ExprKind::Literal(LiteralKind::Bool(true)), Type::Unit);
    assert!(infer_locally(&mut wrong, &mut env).is_err());
}

#[test]
fn local_step_on_an_identifier_binds_itself() {
    let mut e = Expr::new(
        ExprKind::Identifier(Identifier::new(String::from("z"))),
        Type::Scalar(ScalarKind::Bool),
    );
    e.infer_local().unwrap();
    assert_eq!(e.ty, Type::Scalar(ScalarKind::Bool));
}

#[test]
fn whole_expression_inference_method() {
    let mut exprs = parse("3 > 1").unwrap();
    exprs[0].infer_types().unwrap();
    assert_eq!(exprs[0].ty, Type::Scalar(ScalarKind::Bool));
    assert!(!exprs[0].partially_typed());
}

#[test]
fn parsed_trees_start_partially_typed() {
    let exprs = parse("x = 1").unwrap();
    assert!(exprs[0].partially_typed());
    assert!(BinaryOp::LessThan.is_comparison());
    assert!(!BinaryOp::Add.is_comparison());
}

#[test]
fn environment_insert_and_remove() {
    let mut env = TypeEnv::new();
    let a = Identifier::new(String::from("a"));
    assert_eq!(env.insert(a.duplicate(), Type::Unit), None);
    assert_eq!(env.insert(a.duplicate(), Type::Unknown), Some(Type::Unit));
    assert!(env.contains_key(&a));
    let copy = env.snapshot();
    assert!(copy.same_bindings(&env));
    env.remove(&a);
    assert!(!env.contains_key(&a));
    assert!(!copy.same_bindings(&env));
}

#[test]
fn parameters_are_unbound_after_the_function() {
    let mut exprs = parse("def f(x: int) -> int { return x }").unwrap();
    let mut env = TypeEnv::new();
    infer_types_with_env(&mut exprs[0], &mut env).unwrap();
    assert!(!env.contains_key(&Identifier::new(String::from("x"))));
    assert!(env.contains_key(&Identifier::new(String::from("f"))));
}

#[test]
fn shadowed_binding_is_restored_after_the_function() {
    let mut exprs = parse("def f(x: int) -> int { return x }").unwrap();
    let mut env = TypeEnv::new();
    let x = Identifier::new(String::from("x"));
    env.insert(x.duplicate(), Type::Scalar(ScalarKind::Bool));
    infer_types_with_env(&mut exprs[0], &mut env).unwrap();
    assert_eq!(env.get(&x), Some(&Type::Scalar(ScalarKind::Bool)));
}

#[test]
fn call_with_undeclared_return_type_is_an_inference_loop() {
    let r = infer_types(parse("def g() { 1 }\ng()").unwrap());
    assert!(matches!(r, Err(InferError::InferenceLoop)));
}
