use firstlang::tree_interpreter::{Interpreter, Value};
use firstlang::untyped_parser::parse;

#[test]
fn test_interpret_literal_int() {
    let mut interpreter = Interpreter::new();
    let source = "42";
    let ast = parse(source).unwrap();
    let result = interpreter.visit_expr(&ast[0]);
    assert_eq!(result, Some(Value::Int(42)));
}

#[test]
fn test_interpret_literal_bool() {
    let mut interpreter = Interpreter::new();
    let source = "true";
    let ast = parse(source).unwrap();
    let result = interpreter.visit_expr(&ast[0]);
    assert_eq!(result, Some(Value::Bool(true)));
}

#[test]
fn test_interpret_unary_expr() {
    let mut interpreter = Interpreter::new();
    let source = "-5";
    let ast = parse(source).unwrap();
    let result = interpreter.visit_expr(&ast[0]);
    assert_eq!(result, Some(Value::Int(-5)));
}

#[test]
fn test_interpret_binary_expr() {
    let mut interpreter = Interpreter::new();
    let source = "3 + 5";
    let ast = parse(source).unwrap();
    let result = interpreter.visit_expr(&ast[0]);
    assert_eq!(result, Some(Value::Int(8)));
}

#[test]
fn test_interpret_function_call() {
    let mut interpreter = Interpreter::new();
    let source = "
    def add(x, y) { return x + y }
    add(3, 4)
    ";
    let ast = parse(source).unwrap();
    let _ = interpreter.visit_expr(&ast[0]); // Define the function
    let result = interpreter.visit_expr(&ast[1]); // Call the function
    assert_eq!(result, Some(Value::Int(7)));
}

#[test]
fn test_interpret_conditional() {
    let mut interpreter = Interpreter::new();
    let source = "
    if (true) {
        42
    } else {
        43
    }
    ";
    let ast = parse(source).unwrap();
    let result = interpreter.visit_expr(&ast[0]);
    assert_eq!(result, Some(Value::Int(42)));
}

#[test]
fn test_interpret_assignment() {
    let mut interpreter = Interpreter::new();
    let source = "
    x = 42
    x
    ";
    let ast = parse(source).unwrap();
    let _ = interpreter.visit_expr(&ast[0]);
    let result = interpreter.visit_expr(&ast[1]);
    assert_eq!(result, Some(Value::Int(42)));
    let source = "
    n = 1
    n = n + 1
    n
    ";
    let ast = parse(source).unwrap();
    let _ = interpreter.visit_expr(&ast[0]);
    let _ = interpreter.visit_expr(&ast[1]);
    let result = interpreter.visit_expr(&ast[2]);
    assert_eq!(result, Some(Value::Int(2)));
}

#[test]
fn test_interpret_loop() {
    let mut interpreter = Interpreter::new();
    let source = "
    x = 0
    while (x < 10) {
        x = x + 1
    }
    x
    ";
    let ast = parse(source).unwrap();
    let _ = interpreter.visit_expr(&ast[0]);
    let _ = interpreter.visit_expr(&ast[1]);
    let result = interpreter.visit_expr(&ast[2]);
    assert_eq!(result, Some(Value::Int(10)));
}

#[test]
fn test_fib() {
    let mut interpreter = Interpreter::new();
    let source = "
def factorial(n) {
    result = 1
    while (n > 1) {
        result = result * n
        n = n - 1
    }
    return result
}
factorial(5)
";
    let ast = parse(source).unwrap();
    let _ = interpreter.visit_expr(&ast[0]);
    let result = interpreter.visit_expr(&ast[1]);
    assert_eq!(result, Some(Value::Int(120)));
}
