use firstlang::ast;
use firstlang::ast::Parameter;
use firstlang::ir::{BasicBlock, Program, Statement, StatementKind, Symbol, Terminator};
use firstlang::types::Type;

#[test]
fn test_basic_block_empty() {
    let block = BasicBlock {
        id: 0,
        statements: vec![],
        terminator: Terminator::Crash,
    };
    assert_eq!(block.text(), "B0:\n  -> crash\n");
}

#[test]
fn test_basic_block() {
    let mut block = BasicBlock {
        id: 0,
        statements: vec![],
        terminator: Terminator::Crash,
    };
    block.add_statement(Statement::new(
        StatementKind::Unary {
            op: ast::UnaryOp::Minus,
            child: Symbol::new("x", 0),
        },
        None,
    ));
    block.add_statement(Statement::new(
        StatementKind::Binary {
            op: ast::BinaryOp::Add,
            lhs: Symbol::new("x", 0),
            rhs: Symbol::new("y", 0),
        },
        None,
    ));
    block.terminator = Terminator::ProgramReturn(Symbol::new("x", 0));
    let expected_output = "\
B0:
  -x
  x + y
  -> return x
";
    assert_eq!(block.text(), expected_output);
}

#[test]
fn test_program_ir() {
    // 1. Create a new program with some top-level parameters
    let mut program = Program::new(
        &Type::Unknown,
        &[
            Parameter::new(
                ast::Identifier::new("a".to_string()),
                ast::Type::Scalar(ast::ScalarKind::Int),
            ),
            Parameter::new(
                ast::Identifier::new("b".to_string()),
                ast::Type::Scalar(ast::ScalarKind::Int),
            ),
        ],
    );

    // 2. Add a function to the program
    let func_id = program.add_func();

    // 3. Add some local variables to the function
    let x = program.add_local(func_id, &Type::Unknown);
    let y = program.add_local(func_id, &Type::Unknown);

    // 4. Create a basic block with some statements and add it to the function
    let mut block = BasicBlock {
        id: 0,
        statements: vec![
            Statement::new(
                StatementKind::Unary {
                    op: ast::UnaryOp::Minus,
                    child: Symbol::new("a", 0),
                },
                Some(x.clone()),
            ),
            Statement::new(
                StatementKind::Binary {
                    op: ast::BinaryOp::Add,
                    lhs: x.clone(),
                    rhs: Symbol::new("b", 0),
                },
                Some(y.clone()),
            ),
        ],
        terminator: Terminator::ProgramReturn(x),
    };

    program.funcs[func_id].blocks.push(block);

    // 5. Check the formatted output of the program
    let expected_output = "\
Top Parameters:
  a: int
  b: int

F0:
  ret unknown
F1:
  local fn1_tmp unknown
  local fn1_tmp__1 unknown
B0:
  fn1_tmp = -a
  fn1_tmp__1 = fn1_tmp + b
  -> return fn1_tmp

  ret unknown
Return Type: unknown
";
    assert_eq!(program.text(), expected_output);
}

#[test]
fn test_program_fib_ir() {
    let mut program = Program::new(&Type::Scalar(ast::ScalarKind::Int), &[]);

    // Define the Fibonacci function
    let fib_func = program.add_func();
    let block_id = program.add_block(fib_func);

    // Add parameter n
    let n = program.add_local(fib_func, &Type::Scalar(ast::ScalarKind::Int));

    // Define the base case: if n <= 1, return n;
    let rhs_value = program.add_local(fib_func, &Type::Scalar(ast::ScalarKind::Int));
    let cond_check = program.add_statement(
        fib_func,
        block_id,
        StatementKind::Binary {
            op: ast::BinaryOp::LessThan,
            lhs: n.clone(),
            rhs: rhs_value,
        },
    );

    // Recursive calls
    let sub_rhs_1 = program.add_local(fib_func, &Type::Scalar(ast::ScalarKind::Int));
    let arg_value_1 = program.add_statement(
        fib_func,
        block_id,
        StatementKind::Binary {
            op: ast::BinaryOp::Sub,
            lhs: n.clone(),
            rhs: sub_rhs_1,
        },
    );

    let fib_n_minus_1 = program.add_statement(
        fib_func,
        block_id,
        StatementKind::Call {
            func: fib_func.into(),
            args: vec![arg_value_1],
        },
    );

    let sub_rhs_2 = program.add_local(fib_func, &Type::Scalar(ast::ScalarKind::Int));
    let arg_value_2 = program.add_statement(
        fib_func,
        block_id,
        StatementKind::Binary {
            op: ast::BinaryOp::Sub,
            lhs: n.clone(),
            rhs: sub_rhs_2,
        },
    );

    let fib_n_minus_2 = program.add_statement(
        fib_func,
        block_id,
        StatementKind::Call {
            func: fib_func.into(),
            args: vec![arg_value_2],
        },
    );

    // Add the sum of the recursive calls to the function body
    let result = program.add_statement(
        fib_func,
        block_id,
        StatementKind::Binary {
            op: ast::BinaryOp::Add,
            lhs: fib_n_minus_1,
            rhs: fib_n_minus_2,
        },
    );

    // Change the terminator to return the computed Fibonacci value
    program.funcs[fib_func].blocks[block_id].terminator = Terminator::ProgramReturn(result);

    let expected_ir = "\
F0:
  ret unknown
F1:
  local fn1_tmp int
  local fn1_tmp__1 int
  local fn1_tmp__3 int
  local fn1_tmp__6 int
B0:
  fn1_tmp__2 = fn1_tmp < fn1_tmp__1
  fn1_tmp__4 = fn1_tmp - fn1_tmp__3
  fn1_tmp__5 = F1__1(fn1_tmp__4)
  fn1_tmp__7 = fn1_tmp - fn1_tmp__6
  fn1_tmp__8 = F1__1(fn1_tmp__7)
  fn1_tmp__9 = fn1_tmp__5 + fn1_tmp__8
  -> return fn1_tmp__9

  ret unknown
Return Type: int
";
    assert_eq!(program.text(), expected_ir);
}
