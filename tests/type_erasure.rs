use firstlang::parse;
use firstlang::tree_interpreter::{Interpreter, Value};
use firstlang::untyped;

#[test]
fn test_type_erasure_and_interpretation() {
    let source = "
        def add(x: int, y: int) -> int { return x + y }
        add(3, 4)
    ";
    let typed_ast = parse(source).unwrap();
    let untyped_ast: Vec<untyped::Expr> =
        typed_ast.iter().map(|expr| expr.erase_type()).collect();

    let mut interpreter = Interpreter::new();
    let _ = interpreter.visit_expr(&untyped_ast[0]); // Define the function
    let result = interpreter.visit_expr(&untyped_ast[1]); // Call the function
    assert_eq!(result, Some(Value::Int(7)));
}

#[test]
fn test_type_erasure_and_interpretation_with_loops() {
    let source = "
        def add(x: int, y: int) -> int {
            result = 0
            while (x > 0) {
                result = result + y
                x = x - 1
            }
            return result
        }
        add(3, 4)
    ";
    let typed_ast = parse(source).unwrap();
    let untyped_ast: Vec<untyped::Expr> =
        typed_ast.iter().map(|expr| expr.erase_type()).collect();

    let mut interpreter = Interpreter::new();
    let _ = interpreter.visit_expr(&untyped_ast[0]); // Define the function
    let result = interpreter.visit_expr(&untyped_ast[1]); // Call the function
    assert_eq!(result, Some(Value::Int(12)));
}
