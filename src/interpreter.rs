//! A tree-walking interpreter for the surface language.
use vstd::prelude::*;

use crate::surface::{clone_stmts, BinaryOp, Expr, Program, Stmt, UnaryOp};
use crate::scan::chars_of;
use crate::surface_parser::parse;
use crate::text::signed_text;

verus! {

/// How many nested calls and loop iterations one evaluation may go through.
pub const FUEL: u64 = 100000000;

/// A runtime value.
#[derive(Debug, PartialEq)]
pub enum Value {
    Int(i64),
    Bool(bool),
    Function { params: Vec<String>, body: Vec<Stmt> },
    Unit,
}

impl Clone for Value {
    fn clone(&self) -> (r: Self)
        ensures
            self is Int ==> r == *self,
            self is Bool ==> r == *self,
            self is Unit ==> r == *self,
            self is Function ==> r is Function,
    {
        match self {
            Value::Int(n) => Value::Int(*n),
            Value::Bool(b) => Value::Bool(*b),
            Value::Function { params, body } => Value::Function {
                params: params.clone(),
                body: clone_stmts(body),
            },
            Value::Unit => Value::Unit,
        }
    }
}

/// The local variables of one active call.
struct Frame {
    locals: Vec<(String, Value)>,
}

/// What executing a statement leads to: go on with a value, or return one.
enum Flow {
    Continue(Value),
    Return(Value),
}

/// The interpreter's state: global functions and the stack of active calls.
pub struct Interpreter {
    globals: Vec<(String, Value)>,
    call_stack: Vec<Frame>,
}

/// The outcome of a binary operator on two values, as Rust's checked arithmetic on
/// `i64` gives it: `None` when the operands do not fit the operator, on division by
/// zero, and when the result does not fit `i64`. Division and remainder truncate
/// toward zero.
pub open spec fn binary_outcome(op: BinaryOp, l: Value, r: Value) -> Option<Value> {
    match l {
        Value::Int(a) => match r {
            Value::Int(b) => match op {
                BinaryOp::Add => if i64::MIN <= a + b <= i64::MAX {
                    Some(Value::Int((a + b) as i64))
                } else {
                    None
                },
                BinaryOp::Sub => if i64::MIN <= a - b <= i64::MAX {
                    Some(Value::Int((a - b) as i64))
                } else {
                    None
                },
                BinaryOp::Mul => if i64::MIN <= a * b <= i64::MAX {
                    Some(Value::Int((a * b) as i64))
                } else {
                    None
                },
                BinaryOp::Div => match a.checked_div(b) {
                    Some(v) => Some(Value::Int(v)),
                    None => None,
                },
                BinaryOp::Mod => match a.checked_rem(b) {
                    Some(v) => Some(Value::Int(v)),
                    None => None,
                },
                BinaryOp::Lt => Some(Value::Bool(a < b)),
                BinaryOp::Gt => Some(Value::Bool(a > b)),
                BinaryOp::Le => Some(Value::Bool(a <= b)),
                BinaryOp::Ge => Some(Value::Bool(a >= b)),
                BinaryOp::Eq => Some(Value::Bool(a == b)),
                BinaryOp::Ne => Some(Value::Bool(a != b)),
            },
            _ => None,
        },
        Value::Bool(a) => match r {
            Value::Bool(b) => match op {
                BinaryOp::Eq => Some(Value::Bool(a == b)),
                BinaryOp::Ne => Some(Value::Bool(a != b)),
                _ => None,
            },
            _ => None,
        },
        _ => None,
    }
}

/// The value bound to `name` in `list`, if any.
fn lookup<'a>(list: &'a Vec<(String, Value)>, name: &String) -> (r: Option<&'a Value>) {
    let mut i: usize = 0;
    while i < list.len()
        invariant
            i <= list@.len(),
        decreases list@.len() - i,
    {
        if list[i].0 == *name {
            return Some(&list[i].1);
        }
        i += 1;
    }
    None
}

/// Binds `name` to `v` in `list`, replacing an earlier binding of the same name.
fn bind(list: &mut Vec<(String, Value)>, name: String, v: Value) {
    let mut i: usize = 0;
    while i < list.len()
        invariant
            i <= list@.len(),
        decreases list@.len() - i,
    {
        if list[i].0 == name {
            list[i].1 = v;
            return ;
        }
        i += 1;
    }
    list.push((name, v));
}

fn error(text: &str) -> (r: String)
    ensures
        r@ == text@,
{
    text.to_owned()
}

/// Applies a binary operator to two values.
fn eval_binary_op(op: BinaryOp, left: Value, right: Value) -> (r: Result<Value, String>)
    ensures
        r is Ok <==> binary_outcome(op, left, right) is Some,
        r is Ok ==> r->Ok_0 == binary_outcome(op, left, right)->0,
{
    match (left, right) {
        (Value::Int(a), Value::Int(b)) => match op {
            BinaryOp::Add => match a.checked_add(b) {
                Some(v) => Ok(Value::Int(v)),
                None => Err(error("Integer overflow")),
            },
            BinaryOp::Sub => match a.checked_sub(b) {
                Some(v) => Ok(Value::Int(v)),
                None => Err(error("Integer overflow")),
            },
            BinaryOp::Mul => match a.checked_mul(b) {
                Some(v) => Ok(Value::Int(v)),
                None => Err(error("Integer overflow")),
            },
            BinaryOp::Div => {
                if b == 0 {
                    Err(error("Division by zero"))
                } else {
                    match a.checked_div(b) {
                        Some(v) => Ok(Value::Int(v)),
                        None => Err(error("Integer overflow")),
                    }
                }
            },
            BinaryOp::Mod => {
                if b == 0 {
                    Err(error("Modulo by zero"))
                } else {
                    match a.checked_rem(b) {
                        Some(v) => Ok(Value::Int(v)),
                        None => Err(error("Integer overflow")),
                    }
                }
            },
            BinaryOp::Lt => Ok(Value::Bool(a < b)),
            BinaryOp::Gt => Ok(Value::Bool(a > b)),
            BinaryOp::Le => Ok(Value::Bool(a <= b)),
            BinaryOp::Ge => Ok(Value::Bool(a >= b)),
            BinaryOp::Eq => Ok(Value::Bool(a == b)),
            BinaryOp::Ne => Ok(Value::Bool(a != b)),
        },
        (Value::Bool(a), Value::Bool(b)) => match op {
            BinaryOp::Eq => Ok(Value::Bool(a == b)),
            BinaryOp::Ne => Ok(Value::Bool(a != b)),
            _ => Err(error("Cannot apply the operator to booleans")),
        },
        _ => Err(error("Cannot apply the operator to these operands")),
    }
}

impl Interpreter {
    /// The call stack always holds at least the global frame.
    pub closed spec fn wf(&self) -> bool {
        self.call_stack@.len() > 0
    }

    /// An interpreter with no definitions and an empty global frame.
    pub fn new() -> (r: Interpreter)
        ensures
            r.wf(),
    {
        Interpreter { globals: Vec::new(), call_stack: vec![Frame { locals: Vec::new() }] }
    }

    /// Runs the statements of a program in order; the result is the value of the last
    /// one, or of the first top-level `return`.
    pub fn run(&mut self, program: &Program) -> (r: Result<Value, String>)
        requires
            old(self).wf(),
        ensures
            final(self).wf(),
    {
        let mut result = Value::Unit;
        let mut i: usize = 0;
        while i < program.len()
            invariant
                self.wf(),
                i <= program@.len(),
            decreases program@.len() - i,
        {
            match self.exec_stmt(&program[i], FUEL)? {
                Flow::Continue(v) => result = v,
                Flow::Return(v) => return Ok(v),
            }
            i += 1;
        }
        Ok(result)
    }

    /// The value of a variable: a local of the current call, else a global.
    fn lookup_var(&self, name: &String) -> (r: Result<Value, String>)
        requires
            self.wf(),
    {
        let top = self.call_stack.len() - 1;
        match lookup(&self.call_stack[top].locals, name) {
            Some(v) => return Ok(v.clone()),
            None => {},
        }
        match lookup(&self.globals, name) {
            Some(v) => Ok(v.clone()),
            None => Err(error("Undefined variable")),
        }
    }

    fn exec_stmt(&mut self, stmt: &Stmt, fuel: u64) -> (r: Result<Flow, String>)
        requires
            old(self).wf(),
        ensures
            final(self).wf(),
            final(self).call_stack@.len() >= old(self).call_stack@.len(),
            r is Ok ==> final(self).call_stack@.len() == old(self).call_stack@.len(),
        decreases fuel, stmt,
    {
        match stmt {
            Stmt::Function { name, params, body } => {
                let f = Value::Function { params: params.clone(), body: clone_stmts(body) };
                bind(&mut self.globals, name.clone(), f);
                Ok(Flow::Continue(Value::Unit))
            },
            Stmt::Return(e) => {
                let v = self.eval_expr(e, fuel)?;
                Ok(Flow::Return(v))
            },
            Stmt::Assignment { name, value } => {
                let v = self.eval_expr(value, fuel)?;
                let top = self.call_stack.len() - 1;
                bind(&mut self.call_stack[top].locals, name.clone(), v);
                Ok(Flow::Continue(Value::Unit))
            },
            Stmt::Expr(e) => {
                let v = self.eval_expr(e, fuel)?;
                Ok(Flow::Continue(v))
            },
        }
    }

    /// Executes statements in order until one returns; the result is the value of the
    /// last statement, or the returned value.
    fn exec_block(&mut self, stmts: &Vec<Stmt>, fuel: u64) -> (r: Result<Flow, String>)
        requires
            old(self).wf(),
        ensures
            final(self).wf(),
            final(self).call_stack@.len() >= old(self).call_stack@.len(),
            r is Ok ==> final(self).call_stack@.len() == old(self).call_stack@.len(),
        decreases fuel, stmts,
    {
        let mut result = Value::Unit;
        let mut i: usize = 0;
        while i < stmts.len()
            invariant
                self.wf(),
                self.call_stack@.len() == old(self).call_stack@.len(),
                i <= stmts@.len(),
            decreases stmts@.len() - i,
        {
            proof {
                assert(decreases_to!(*stmts => stmts@));
                assert(decreases_to!(stmts@ => stmts@[i as int]));
            }
            match self.exec_stmt(&stmts[i], fuel)? {
                Flow::Continue(v) => result = v,
                Flow::Return(v) => return Ok(Flow::Return(v)),
            }
            i += 1;
        }
        Ok(Flow::Continue(result))
    }

    fn eval_expr(&mut self, expr: &Expr, fuel: u64) -> (r: Result<Value, String>)
        requires
            old(self).wf(),
        ensures
            final(self).wf(),
            final(self).call_stack@.len() >= old(self).call_stack@.len(),
            r is Ok ==> final(self).call_stack@.len() == old(self).call_stack@.len(),
        decreases fuel, expr,
    {
        match expr {
            Expr::Int(n) => Ok(Value::Int(*n)),
            Expr::Bool(b) => Ok(Value::Bool(*b)),
            Expr::Var(name) => self.lookup_var(name),
            Expr::Unary { op, expr } => {
                let v = self.eval_expr(expr, fuel)?;
                match (op, v) {
                    (UnaryOp::Neg, Value::Int(n)) => match 0i64.checked_sub(n) {
                        Some(m) => Ok(Value::Int(m)),
                        None => Err(error("Integer overflow")),
                    },
                    (UnaryOp::Not, Value::Bool(b)) => Ok(Value::Bool(!b)),
                    _ => Err(error("Cannot apply the unary operator to this operand")),
                }
            },
            Expr::Binary { op, left, right } => {
                let l = self.eval_expr(left, fuel)?;
                let r = self.eval_expr(right, fuel)?;
                eval_binary_op(*op, l, r)
            },
            Expr::Call { name, args } => {
                let func = self.lookup_var(name)?;
                match func {
                    Value::Function { params, body } => {
                        let mut values: Vec<Value> = Vec::new();
                        let mut i: usize = 0;
                        while i < args.len()
                            invariant
                                decreases_to!(*expr => *args),
                                self.wf(),
                                self.call_stack@.len() == old(self).call_stack@.len(),
                                i <= args@.len(),
                            decreases args@.len() - i,
                        {
                            proof {
                                assert(decreases_to!(*args => args@));
                                assert(decreases_to!(args@ => args@[i as int]));
                            }
                            let v = self.eval_expr(&args[i], fuel)?;
                            values.push(v);
                            i += 1;
                        }
                        if params.len() != values.len() {
                            return Err(error("Function expects a different number of arguments"));
                        }
                        if fuel == 0 {
                            return Err(error("Evaluation limit reached"));
                        }
                        let mut frame = Frame { locals: Vec::new() };
                        let mut values = values;
                        let mut j: usize = params.len();
                        while j > 0
                            invariant
                                j <= params@.len(),
                                values@.len() == j,
                            decreases j,
                        {
                            let v = values.pop().unwrap();
                            bind(&mut frame.locals, params[j - 1].clone(), v);
                            j -= 1;
                        }
                        self.call_stack.push(frame);
                        let flow = self.exec_block(&body, fuel - 1)?;
                        self.call_stack.pop();
                        match flow {
                            Flow::Continue(v) => Ok(v),
                            Flow::Return(v) => Ok(v),
                        }
                    },
                    _ => Err(error("Only functions can be called")),
                }
            },
            Expr::If { cond, then_branch, else_branch } => {
                let c = self.eval_expr(cond, fuel)?;
                match c {
                    Value::Bool(b) => {
                        let flow = if b {
                            self.exec_block(then_branch, fuel)?
                        } else {
                            self.exec_block(else_branch, fuel)?
                        };
                        match flow {
                            Flow::Continue(v) => Ok(v),
                            Flow::Return(v) => Ok(v),
                        }
                    },
                    _ => Err(error("Condition must be boolean")),
                }
            },
            Expr::While { cond, body } => {
                let mut budget = fuel;
                loop
                    invariant
                        self.wf(),
                        self.call_stack@.len() == old(self).call_stack@.len(),
                        budget <= fuel,
                    decreases budget,
                {
                    if budget == 0 {
                        return Err(error("Evaluation limit reached"));
                    }
                    budget -= 1;
                    let c = self.eval_expr(cond, budget)?;
                    match c {
                        Value::Bool(b) => {
                            if !b {
                                return Ok(Value::Unit);
                            }
                            match self.exec_block(body, budget)? {
                                Flow::Continue(_) => {},
                                Flow::Return(v) => return Ok(v),
                            }
                        },
                        _ => return Err(error("While condition must be boolean")),
                    }
                }
            },
            Expr::Block(stmts) => match self.exec_block(stmts, fuel)? {
                Flow::Continue(v) => Ok(v),
                Flow::Return(v) => Ok(v),
            },
        }
    }
}

impl Value {
    /// How the value is shown: the number, `true` or `false`, `<function(params)>`, or `()`.
    pub fn text(&self) -> (r: String) {
        match self {
            Value::Int(n) => signed_text(*n),
            Value::Bool(true) => "true".to_owned(),
            Value::Bool(false) => "false".to_owned(),
            Value::Function { params, .. } => {
                let mut out = "<function(".to_owned();
                let mut i: usize = 0;
                while i < params.len()
                    invariant
                        i <= params@.len(),
                    decreases params@.len() - i,
                {
                    if i > 0 {
                        out.append(", ");
                    }
                    out.append(params[i].as_str());
                    i += 1;
                }
                out.append(")>");
                out
            },
            Value::Unit => "()".to_owned(),
        }
    }
}

/// How deeply brackets are still open at the end of `s`: each of `{`, `(`, `[` opens
/// one and each of `}`, `)`, `]` closes one, except inside double-quoted strings (where
/// `\"` does not end the string).
pub fn bracket_depth(s: &str) -> (r: i64)
    requires
        s@.len() < i64::MAX,
{
    let cs = chars_of(s);
    let mut depth: i64 = 0;
    let mut in_string = false;
    let mut prev = ' ';
    let mut i: usize = 0;
    while i < cs.len()
        invariant
            cs@.len() < i64::MAX,
            i <= cs@.len(),
            -(i as int) <= depth <= i as int,
        decreases cs@.len() - i,
    {
        let c = cs[i];
        if c == '"' && prev != '\\' {
            in_string = !in_string;
        }
        if !in_string {
            if c == '{' || c == '(' || c == '[' {
                depth += 1;
            } else if c == '}' || c == ')' || c == ']' {
                depth -= 1;
            }
        }
        prev = c;
        i += 1;
    }
    depth
}

/// Parses and runs a program on a fresh interpreter.
pub fn run(source: &str) -> (r: Result<Value, String>) {
    let program = match parse(source) {
        Ok(p) => p,
        Err(_) => return Err(error("Parse error")),
    };
    let mut interpreter = Interpreter::new();
    interpreter.run(&program)
}

} // verus!
