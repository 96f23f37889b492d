//! Type erasure: from the annotated tree to the tree without annotations.
use vstd::prelude::*;

use crate::ast;
use crate::untyped;

verus! {

/// The node kinds of an annotated and an unannotated expression correspond.
pub open spec fn same_kind(t: ast::Expr, u: untyped::Expr) -> bool {
    match t.kind {
        ast::ExprKind::Identifier(i) => u.kind is Identifier && u.kind->Identifier_0.name@ == i.name@,
        ast::ExprKind::Literal(l) => u.kind is Literal && match l {
            ast::LiteralKind::Int(n) => u.kind->Literal_0 == untyped::LiteralKind::Int(n),
            ast::LiteralKind::Bool(b) => u.kind->Literal_0 == untyped::LiteralKind::Bool(b),
        },
        ast::ExprKind::UnaryExpr(_) => u.kind is UnaryExpr,
        ast::ExprKind::BinaryExpr(_) => u.kind is BinaryExpr,
        ast::ExprKind::Return(_) => u.kind is Return,
        ast::ExprKind::Assignment(_) => u.kind is Assignment,
        ast::ExprKind::Conditional(_) => u.kind is Conditional,
        ast::ExprKind::Loop(_) => u.kind is Loop,
        ast::ExprKind::Function(f) => u.kind is Function && u.kind->Function_0.params@.len()
            == f.params@.len(),
        ast::ExprKind::Call(c) => u.kind is Call && u.kind->Call_0.args@.len() == c.args@.len(),
        ast::ExprKind::Block(b) => u.kind is Block && u.kind->Block_0@.len() == b.exprs@.len(),
    }
}

fn erase_ident(i: &ast::Identifier) -> (r: untyped::Identifier)
    ensures
        r.name@ == i.name@,
{
    untyped::Identifier { name: i.name.clone() }
}

/// Each expression of `v`, erased.
fn erase_all(v: &Vec<ast::Expr>) -> (r: Vec<untyped::Expr>)
    ensures
        r@.len() == v@.len(),
    decreases v, 0nat,
{
    let mut out: Vec<untyped::Expr> = Vec::new();
    let mut i: usize = 0;
    while i < v.len()
        invariant
            i <= v@.len(),
            out@.len() == i,
        decreases v@.len() - i,
    {
        proof {
            assert(decreases_to!(*v => v@));
            assert(decreases_to!(v@ => v@[i as int]));
        }
        out.push(v[i].erase_type());
        i += 1;
    }
    out
}

/// A body of expressions as one expression: the expression itself when there is one,
/// a block otherwise.
fn erase_body(v: &Vec<ast::Expr>) -> (r: untyped::Expr)
    decreases v, 1nat,
{
    let mut exprs = erase_all(v);
    if exprs.len() == 1 {
        exprs.pop().unwrap()
    } else {
        untyped::Expr { kind: untyped::ExprKind::Block(exprs) }
    }
}

impl ast::Expr {
    /// This expression with every type annotation removed.
    pub fn erase_type(&self) -> (r: untyped::Expr)
        ensures
            same_kind(*self, r),
        decreases self, 2nat,
    {
        let kind = match &self.kind {
            ast::ExprKind::Identifier(ident) => untyped::ExprKind::Identifier(erase_ident(ident)),
            ast::ExprKind::Literal(lk) => untyped::ExprKind::Literal(
                match lk {
                    ast::LiteralKind::Int(i) => untyped::LiteralKind::Int(*i),
                    ast::LiteralKind::Bool(b) => untyped::LiteralKind::Bool(*b),
                },
            ),
            ast::ExprKind::UnaryExpr(ue) => untyped::ExprKind::UnaryExpr(
                untyped::UnaryExpr {
                    op: match ue.op {
                        ast::UnaryOp::Plus => untyped::UnaryOp::Plus,
                        ast::UnaryOp::Minus => untyped::UnaryOp::Minus,
                    },
                    child: Box::new(ue.child.erase_type()),
                },
            ),
            ast::ExprKind::BinaryExpr(be) => untyped::ExprKind::BinaryExpr(
                untyped::BinaryExpr {
                    op: match be.op {
                        ast::BinaryOp::Add => untyped::BinaryOp::Add,
                        ast::BinaryOp::Sub => untyped::BinaryOp::Sub,
                        ast::BinaryOp::Mul => untyped::BinaryOp::Mul,
                        ast::BinaryOp::LessThan => untyped::BinaryOp::LessThan,
                        ast::BinaryOp::GreaterThan => untyped::BinaryOp::GreaterThan,
                    },
                    lhs: Box::new(be.lhs.erase_type()),
                    rhs: Box::new(be.rhs.erase_type()),
                },
            ),
            ast::ExprKind::Return(ret) => untyped::ExprKind::Return(
                untyped::Return { value: Box::new(ret.value.erase_type()) },
            ),
            ast::ExprKind::Assignment(asgn) => untyped::ExprKind::Assignment(
                untyped::Assignment {
                    ident: erase_ident(&asgn.ident),
                    value: Box::new(asgn.value.erase_type()),
                },
            ),
            ast::ExprKind::Conditional(c) => untyped::ExprKind::Conditional(
                untyped::Conditional {
                    cond: Box::new(c.cond.erase_type()),
                    on_true: Box::new(c.on_true.erase_type()),
                    on_false: Box::new(c.on_false.erase_type()),
                },
            ),
            ast::ExprKind::Loop(l) => untyped::ExprKind::Loop(
                untyped::Loop {
                    cond: Box::new(l.cond.erase_type()),
                    body: Box::new(erase_body(&l.body)),
                },
            ),
            ast::ExprKind::Function(f) => {
                let mut params: Vec<untyped::Parameter> = Vec::new();
                let mut i: usize = 0;
                while i < f.params.len()
                    invariant
                        i <= f.params@.len(),
                        params@.len() == i,
                    decreases f.params@.len() - i,
                {
                    params.push(untyped::Parameter { ident: erase_ident(&f.params[i].ident) });
                    i += 1;
                }
                untyped::ExprKind::Function(
                    untyped::Function {
                        ident: erase_ident(&f.ident),
                        params,
                        body: Box::new(erase_body(&f.body)),
                    },
                )
            },
            ast::ExprKind::Call(c) => untyped::ExprKind::Call(
                untyped::Call { ident: erase_ident(&c.ident), args: erase_all(&c.args) },
            ),
            ast::ExprKind::Block(b) => untyped::ExprKind::Block(erase_all(&b.exprs)),
        };
        untyped::Expr { kind }
    }
}

} // verus!
