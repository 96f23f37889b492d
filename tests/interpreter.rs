use firstlang::interpreter::{Interpreter, Value};
use firstlang::surface_parser::parse;

fn run(source: &str) -> Result<Value, String> {
    let program = parse(source).map_err(|e| format!("Parse error at {}", e.position))?;
    let mut interpreter = Interpreter::new();
    interpreter.run(&program)
}

#[test]
fn test_literal() {
    assert_eq!(run("42").unwrap(), Value::Int(42));
    assert_eq!(run("true").unwrap(), Value::Bool(true));
    assert_eq!(run("false").unwrap(), Value::Bool(false));
}

#[test]
fn test_arithmetic() {
    assert_eq!(run("1 + 2").unwrap(), Value::Int(3));
    assert_eq!(run("10 - 3").unwrap(), Value::Int(7));
    assert_eq!(run("4 * 5").unwrap(), Value::Int(20));
    assert_eq!(run("15 / 3").unwrap(), Value::Int(5));
    assert_eq!(run("17 % 5").unwrap(), Value::Int(2));
}

#[test]
fn test_comparison() {
    assert_eq!(run("1 < 2").unwrap(), Value::Bool(true));
    assert_eq!(run("2 > 1").unwrap(), Value::Bool(true));
    assert_eq!(run("1 == 1").unwrap(), Value::Bool(true));
    assert_eq!(run("1 != 2").unwrap(), Value::Bool(true));
}

#[test]
fn test_variables() {
    assert_eq!(run("x = 42\nx").unwrap(), Value::Int(42));
}

#[test]
fn test_function() {
    let source = r#"
        def add(a, b) {
            return a + b
        }
        add(3, 4)
    "#;
    assert_eq!(run(source).unwrap(), Value::Int(7));
}

#[test]
fn test_conditional() {
    let source = r#"
        if (true) {
            42
        } else {
            0
        }
    "#;
    assert_eq!(run(source).unwrap(), Value::Int(42));

    let source = r#"
        if (false) {
            42
        } else {
            0
        }
    "#;
    assert_eq!(run(source).unwrap(), Value::Int(0));
}

#[test]
fn interpreter_test_while_loop() {
    let source = r#"
        x = 0
        while (x < 5) {
            x = x + 1
        }
        x
    "#;
    assert_eq!(run(source).unwrap(), Value::Int(5));
}

#[test]
fn interpreter_test_factorial_iterative() {
    let source = r#"
        def factorial(n) {
            result = 1
            while (n > 1) {
                result = result * n
                n = n - 1
            }
            return result
        }
        factorial(5)
    "#;
    assert_eq!(run(source).unwrap(), Value::Int(120));
}

#[test]
fn interpreter_test_factorial_recursive() {
    let source = r#"
        def factorial(n) {
            if (n <= 1) {
                return 1
            } else {
                return n * factorial(n - 1)
            }
        }
        factorial(5)
    "#;
    assert_eq!(run(source).unwrap(), Value::Int(120));
}

#[test]
fn interpreter_test_fibonacci_recursive() {
    let source = r#"
        def fib(n) {
            if (n < 2) {
                return n
            } else {
                return fib(n - 1) + fib(n - 2)
            }
        }
        fib(10)
    "#;
    assert_eq!(run(source).unwrap(), Value::Int(55));
}

#[test]
fn interpreter_test_fibonacci_iterative() {
    let source = r#"
        def fib(n) {
            if (n < 2) {
                return n
            } else {
                a = 0
                b = 1
                i = 2
                while (i <= n) {
                    temp = a + b
                    a = b
                    b = temp
                    i = i + 1
                }
                return b
            }
        }
        fib(10)
    "#;
    assert_eq!(run(source).unwrap(), Value::Int(55));
}

#[test]
fn test_nested_calls() {
    let source = r#"
        def double(x) {
            return x * 2
        }
        def quadruple(x) {
            return double(double(x))
        }
        quadruple(5)
    "#;
    assert_eq!(run(source).unwrap(), Value::Int(20));
}
