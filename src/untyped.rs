//! The syntax tree without type annotations, as type erasure leaves it.
use vstd::prelude::*;

verus! {

#[derive(Debug, PartialEq, Eq, Hash)]
pub struct Expr {
    pub kind: ExprKind,
}

#[derive(Debug, PartialEq, Eq, Hash)]
pub enum ExprKind {
    Identifier(Identifier),
    Literal(LiteralKind),
    UnaryExpr(UnaryExpr),
    BinaryExpr(BinaryExpr),
    Return(Return),
    Assignment(Assignment),
    Conditional(Conditional),
    Loop(Loop),
    Function(Function),
    Call(Call),
    /// A sequence of expressions; its value is that of the last one.
    Block(Vec<Expr>),
}

#[derive(Debug, PartialEq, Eq, Hash)]
pub struct Identifier {
    pub name: String,
}

#[derive(Debug, PartialEq, Eq, Hash, Clone, Copy, Structural)]
pub enum LiteralKind {
    Int(i64),
    Bool(bool),
}

#[derive(Debug, PartialEq, Eq, Hash)]
pub struct UnaryExpr {
    pub op: UnaryOp,
    pub child: Box<Expr>,
}

#[derive(Debug, PartialEq, Eq, Hash, Clone, Copy, Structural)]
pub enum UnaryOp {
    Plus,
    Minus,
}

#[derive(Debug, PartialEq, Eq, Hash)]
pub struct BinaryExpr {
    pub op: BinaryOp,
    pub lhs: Box<Expr>,
    pub rhs: Box<Expr>,
}

#[derive(Debug, PartialEq, Eq, Hash, Clone, Copy, Structural)]
pub enum BinaryOp {
    Add,
    Sub,
    Mul,
    LessThan,
    GreaterThan,
}

#[derive(Debug, PartialEq, Eq, Hash)]
pub struct Return {
    pub value: Box<Expr>,
}

#[derive(Debug, PartialEq, Eq, Hash)]
pub struct Assignment {
    pub ident: Identifier,
    pub value: Box<Expr>,
}

#[derive(Debug, PartialEq, Eq, Hash)]
pub struct Conditional {
    pub cond: Box<Expr>,
    pub on_true: Box<Expr>,
    pub on_false: Box<Expr>,
}

/// A loop; a body of several expressions is a block.
#[derive(Debug, PartialEq, Eq, Hash)]
pub struct Loop {
    pub cond: Box<Expr>,
    pub body: Box<Expr>,
}

#[derive(Debug, PartialEq, Eq, Hash)]
pub struct Call {
    pub ident: Identifier,
    pub args: Vec<Expr>,
}

/// A function definition; a body of several expressions is a block.
#[derive(Debug, PartialEq, Eq, Hash)]
pub struct Function {
    pub ident: Identifier,
    pub params: Vec<Parameter>,
    pub body: Box<Expr>,
}

#[derive(Debug, PartialEq, Eq, Hash)]
pub struct Parameter {
    pub ident: Identifier,
}

impl BinaryOp {
    /// Whether the operator compares its operands.
    pub fn is_comparison(&self) -> (r: bool)
        ensures
            r == (*self == BinaryOp::LessThan || *self == BinaryOp::GreaterThan),
    {
        match self {
            BinaryOp::LessThan | BinaryOp::GreaterThan => true,
            _ => false,
        }
    }
}

impl Expr {
    pub fn new(kind: ExprKind) -> (r: Expr)
        ensures
            r.kind == kind,
    {
        Expr { kind }
    }

    /// The identifier this expression is, or the expression itself when it is not one.
    pub fn to_identifier(self) -> (r: Result<Identifier, Expr>)
        ensures
            self.kind is Identifier <==> r is Ok,
            r is Ok ==> r->Ok_0 == self.kind->Identifier_0,
            r is Err ==> r->Err_0 == self,
    {
        match self.kind {
            ExprKind::Identifier(ident) => Ok(ident),
            kind => Err(Expr { kind }),
        }
    }

    /// The parameter this expression declares, or the expression itself when it is not
    /// an identifier.
    pub fn to_parameter(self) -> (r: Result<Parameter, Expr>)
        ensures
            self.kind is Identifier <==> r is Ok,
            r is Ok ==> r->Ok_0.ident == self.kind->Identifier_0,
            r is Err ==> r->Err_0 == self,
    {
        match self.kind {
            ExprKind::Identifier(ident) => Ok(Parameter { ident }),
            kind => Err(Expr { kind }),
        }
    }
}

impl Identifier {
    pub fn new(name: String) -> (r: Identifier)
        ensures
            r.name == name,
    {
        Identifier { name }
    }
}

impl UnaryExpr {
    pub fn new(op: UnaryOp, child: Box<Expr>) -> (r: UnaryExpr)
        ensures
            r.op == op,
            r.child == child,
    {
        UnaryExpr { op, child }
    }
}

impl BinaryExpr {
    pub fn new(op: BinaryOp, lhs: Box<Expr>, rhs: Box<Expr>) -> (r: BinaryExpr)
        ensures
            r.op == op,
            r.lhs == lhs,
            r.rhs == rhs,
    {
        BinaryExpr { op, lhs, rhs }
    }
}

impl Return {
    pub fn new(value: Box<Expr>) -> (r: Return)
        ensures
            r.value == value,
    {
        Return { value }
    }
}

impl Assignment {
    pub fn new(ident: Identifier, value: Box<Expr>) -> (r: Assignment)
        ensures
            r.ident == ident,
            r.value == value,
    {
        Assignment { ident, value }
    }
}

impl Conditional {
    pub fn new(cond: Box<Expr>, on_true: Box<Expr>, on_false: Box<Expr>) -> (r: Conditional)
        ensures
            r.cond == cond,
            r.on_true == on_true,
            r.on_false == on_false,
    {
        Conditional { cond, on_true, on_false }
    }
}

impl Loop {
    pub fn new(cond: Box<Expr>, body: Box<Expr>) -> (r: Loop)
        ensures
            r.cond == cond,
            r.body == body,
    {
        Loop { cond, body }
    }
}

impl Call {
    pub fn new(ident: Identifier, args: Vec<Expr>) -> (r: Call)
        ensures
            r.ident == ident,
            r.args == args,
    {
        Call { ident, args }
    }
}

impl Function {
    pub fn new(ident: Identifier, params: Vec<Parameter>, body: Box<Expr>) -> (r: Function)
        ensures
            r.ident == ident,
            r.params == params,
            r.body == body,
    {
        Function { ident, params, body }
    }
}

impl Parameter {
    pub fn new(ident: Identifier) -> (r: Parameter)
        ensures
            r.ident == ident,
    {
        Parameter { ident }
    }
}

impl Clone for Identifier {
    fn clone(&self) -> (r: Self)
        ensures
            r.name@ == self.name@,
    {
        Identifier { name: self.name.clone() }
    }
}

impl Clone for Parameter {
    fn clone(&self) -> (r: Self) {
        Parameter { ident: self.ident.clone() }
    }
}

impl Clone for Function {
    fn clone(&self) -> (r: Self)
        decreases self, 2nat,
    {
        Function {
            ident: self.ident.clone(),
            params: self.params.clone(),
            body: Box::new((*self.body).clone()),
        }
    }
}

impl Clone for Expr {
    fn clone(&self) -> (r: Self)
        decreases self, 1nat,
    {
        let kind = match &self.kind {
            ExprKind::Identifier(i) => ExprKind::Identifier(i.clone()),
            ExprKind::Literal(l) => ExprKind::Literal(*l),
            ExprKind::UnaryExpr(u) => ExprKind::UnaryExpr(
                UnaryExpr { op: u.op, child: Box::new((*u.child).clone()) },
            ),
            ExprKind::BinaryExpr(b) => ExprKind::BinaryExpr(
                BinaryExpr {
                    op: b.op,
                    lhs: Box::new((*b.lhs).clone()),
                    rhs: Box::new((*b.rhs).clone()),
                },
            ),
            ExprKind::Return(r) => ExprKind::Return(Return { value: Box::new((*r.value).clone()) }),
            ExprKind::Assignment(a) => ExprKind::Assignment(
                Assignment { ident: a.ident.clone(), value: Box::new((*a.value).clone()) },
            ),
            ExprKind::Conditional(c) => ExprKind::Conditional(
                Conditional {
                    cond: Box::new((*c.cond).clone()),
                    on_true: Box::new((*c.on_true).clone()),
                    on_false: Box::new((*c.on_false).clone()),
                },
            ),
            ExprKind::Loop(l) => ExprKind::Loop(
                Loop { cond: Box::new((*l.cond).clone()), body: Box::new((*l.body).clone()) },
            ),
            ExprKind::Function(f) => ExprKind::Function(f.clone()),
            ExprKind::Call(c) => ExprKind::Call(
                Call { ident: c.ident.clone(), args: clone_all(&c.args) },
            ),
            ExprKind::Block(v) => ExprKind::Block(clone_all(v)),
        };
        Expr { kind }
    }
}

/// A copy of each expression of `v`.
pub fn clone_all(v: &Vec<Expr>) -> (r: Vec<Expr>)
    ensures
        r@.len() == v@.len(),
    decreases v, 0nat,
{
    let mut out: Vec<Expr> = Vec::new();
    let mut i: usize = 0;
    while i < v.len()
        invariant
            i <= v@.len(),
            out@.len() == i,
        decreases v@.len() - i,
    {
        proof {
            assert(decreases_to!(*v => v@));
            assert(decreases_to!(v@ => v@[i as int]));
        }
        out.push(v[i].clone());
        i += 1;
    }
    out
}

} // verus!
