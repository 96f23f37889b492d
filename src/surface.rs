//! The syntax tree of the untyped surface language that the interpreter runs.
use vstd::prelude::*;

verus! {

/// A program is its sequence of top-level statements.
pub type Program = Vec<Stmt>;

/// A statement.
#[derive(Debug, PartialEq)]
pub enum Stmt {
    /// `def name(params) { body }`
    Function { name: String, params: Vec<String>, body: Vec<Stmt> },
    /// `return expr`
    Return(Expr),
    /// `name = expr`
    Assignment { name: String, value: Expr },
    /// An expression evaluated for its value.
    Expr(Expr),
}

/// An expression.
#[derive(Debug, PartialEq)]
pub enum Expr {
    Int(i64),
    Bool(bool),
    Var(String),
    Unary { op: UnaryOp, expr: Box<Expr> },
    Binary { op: BinaryOp, left: Box<Expr>, right: Box<Expr> },
    Call { name: String, args: Vec<Expr> },
    If { cond: Box<Expr>, then_branch: Vec<Stmt>, else_branch: Vec<Stmt> },
    While { cond: Box<Expr>, body: Vec<Stmt> },
    /// A block: its value is that of its last statement.
    Block(Vec<Stmt>),
}

#[derive(Debug, Clone, Copy, PartialEq, Eq, Structural)]
pub enum UnaryOp {
    Neg,
    Not,
}

#[derive(Debug, Clone, Copy, PartialEq, Eq, Structural)]
pub enum BinaryOp {
    Add,
    Sub,
    Mul,
    Div,
    Mod,
    Lt,
    Gt,
    Le,
    Ge,
    Eq,
    Ne,
}

impl Clone for Stmt {
    fn clone(&self) -> (r: Self)
        decreases self, 1nat,
    {
        match self {
            Stmt::Function { name, params, body } => Stmt::Function {
                name: name.clone(),
                params: params.clone(),
                body: clone_stmts(body),
            },
            Stmt::Return(e) => Stmt::Return(e.clone()),
            Stmt::Assignment { name, value } => Stmt::Assignment {
                name: name.clone(),
                value: value.clone(),
            },
            Stmt::Expr(e) => Stmt::Expr(e.clone()),
        }
    }
}

impl Clone for Expr {
    fn clone(&self) -> (r: Self)
        decreases self, 1nat,
    {
        match self {
            Expr::Int(n) => Expr::Int(*n),
            Expr::Bool(b) => Expr::Bool(*b),
            Expr::Var(name) => Expr::Var(name.clone()),
            Expr::Unary { op, expr } => Expr::Unary { op: *op, expr: Box::new((**expr).clone()) },
            Expr::Binary { op, left, right } => Expr::Binary {
                op: *op,
                left: Box::new((**left).clone()),
                right: Box::new((**right).clone()),
            },
            Expr::Call { name, args } => Expr::Call { name: name.clone(), args: clone_exprs(args) },
            Expr::If { cond, then_branch, else_branch } => Expr::If {
                cond: Box::new((**cond).clone()),
                then_branch: clone_stmts(then_branch),
                else_branch: clone_stmts(else_branch),
            },
            Expr::While { cond, body } => Expr::While {
                cond: Box::new((**cond).clone()),
                body: clone_stmts(body),
            },
            Expr::Block(stmts) => Expr::Block(clone_stmts(stmts)),
        }
    }
}

/// A copy of each statement of `v`.
pub fn clone_stmts(v: &Vec<Stmt>) -> (r: Vec<Stmt>)
    ensures
        r@.len() == v@.len(),
    decreases v, 0nat,
{
    let mut out: Vec<Stmt> = Vec::new();
    let mut i: usize = 0;
    while i < v.len()
        invariant
            i <= v@.len(),
            out@.len() == i,
        decreases v@.len() - i,
    {
        proof {
            assert(decreases_to!(*v => v@));
            assert(decreases_to!(v@ => v@[i as int]));
        }
        out.push(v[i].clone());
        i += 1;
    }
    out
}

/// A copy of each expression of `v`.
pub fn clone_exprs(v: &Vec<Expr>) -> (r: Vec<Expr>)
    ensures
        r@.len() == v@.len(),
    decreases v, 0nat,
{
    let mut out: Vec<Expr> = Vec::new();
    let mut i: usize = 0;
    while i < v.len()
        invariant
            i <= v@.len(),
            out@.len() == i,
        decreases v@.len() - i,
    {
        proof {
            assert(decreases_to!(*v => v@));
            assert(decreases_to!(v@ => v@[i as int]));
        }
        out.push(v[i].clone());
        i += 1;
    }
    out
}

} // verus!
