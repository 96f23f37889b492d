//! The syntax tree: every node owns its children and carries a type annotation.
use vstd::prelude::*;

pub use crate::types::{ScalarKind, Type};
use crate::types::{resolved, Ty};

verus! {

/// A node of the tree: what it is, and the type known for it so far.
#[derive(Debug, PartialEq, Eq, Hash)]
pub struct Expr {
    pub kind: ExprKind,
    pub ty: Type,
}

/// The closed set of node kinds.
#[derive(Debug, PartialEq, Eq, Hash)]
pub enum ExprKind {
    Identifier(Identifier),
    Literal(LiteralKind),
    UnaryExpr(UnaryExpr),
    BinaryExpr(BinaryExpr),
    Return(Return),
    Assignment(Assignment),
    Conditional(Conditional),
    Loop(Loop),
    Function(Function),
    Call(Call),
    Block(Block),
}

/// A sequence of expressions; its value is that of the last one.
#[derive(Debug, PartialEq, Eq, Hash)]
pub struct Block {
    pub exprs: Vec<Expr>,
}

/// A name, compared by its text alone.
#[derive(Debug, PartialEq, Eq, Hash)]
pub struct Identifier {
    pub name: String,
}

#[derive(Debug, PartialEq, Eq, Hash, Clone, Copy, Structural)]
pub enum LiteralKind {
    Int(i64),
    Bool(bool),
}

#[derive(Debug, PartialEq, Eq, Hash)]
pub struct UnaryExpr {
    pub op: UnaryOp,
    pub child: Box<Expr>,
}

#[derive(Debug, PartialEq, Eq, Hash, Clone, Copy, Structural)]
pub enum UnaryOp {
    Plus,
    Minus,
}

#[derive(Debug, PartialEq, Eq, Hash)]
pub struct BinaryExpr {
    pub op: BinaryOp,
    pub lhs: Box<Expr>,
    pub rhs: Box<Expr>,
}

#[derive(Debug, PartialEq, Eq, Hash, Clone, Copy, Structural)]
pub enum BinaryOp {
    Add,
    Sub,
    Mul,
    LessThan,
    GreaterThan,
}

#[derive(Debug, PartialEq, Eq, Hash)]
pub struct Return {
    pub value: Box<Expr>,
}

#[derive(Debug, PartialEq, Eq, Hash)]
pub struct Assignment {
    pub ident: Identifier,
    pub value: Box<Expr>,
}

#[derive(Debug, PartialEq, Eq, Hash)]
pub struct Conditional {
    pub cond: Box<Expr>,
    pub on_true: Box<Expr>,
    pub on_false: Box<Expr>,
}

#[derive(Debug, PartialEq, Eq, Hash)]
pub struct Loop {
    pub cond: Box<Expr>,
    pub body: Box<Vec<Expr>>,
}

#[derive(Debug, PartialEq, Eq, Hash)]
pub struct Call {
    pub ident: Identifier,
    pub args: Vec<Expr>,
}

#[derive(Debug, PartialEq, Eq, Hash)]
pub struct Function {
    pub ident: Identifier,
    pub params: Vec<Parameter>,
    pub body: Box<Vec<Expr>>,
}

/// A declared parameter of a function, with its annotated type.
#[derive(Debug, PartialEq, Eq, Hash)]
pub struct Parameter {
    pub ident: Identifier,
    pub ty: Type,
}

impl View for Identifier {
    type V = Seq<char>;

    open spec fn view(&self) -> Seq<char> {
        self.name@
    }
}

impl BinaryOp {
    /// Whether the operator compares its operands (and so yields a boolean).
    pub fn is_comparison(&self) -> (r: bool)
        ensures
            r == (*self == BinaryOp::LessThan || *self == BinaryOp::GreaterThan),
    {
        match self {
            BinaryOp::LessThan | BinaryOp::GreaterThan => true,
            _ => false,
        }
    }
}

impl Identifier {
    pub fn new(name: String) -> (r: Identifier)
        ensures
            r.name == name,
    {
        Identifier { name }
    }

    /// A copy of this identifier.
    pub fn duplicate(&self) -> (r: Identifier)
        ensures
            r@ == self@,
    {
        Identifier { name: self.name.clone() }
    }
}

impl Expr {
    pub fn new(kind: ExprKind, ty: Type) -> (r: Expr)
        ensures
            r.kind == kind,
            r.ty == ty,
    {
        Expr { kind, ty }
    }
}

impl UnaryExpr {
    pub fn new(op: UnaryOp, child: Box<Expr>) -> (r: UnaryExpr)
        ensures
            r.op == op,
            r.child == child,
    {
        UnaryExpr { op, child }
    }
}

impl BinaryExpr {
    pub fn new(op: BinaryOp, lhs: Box<Expr>, rhs: Box<Expr>) -> (r: BinaryExpr)
        ensures
            r.op == op,
            r.lhs == lhs,
            r.rhs == rhs,
    {
        BinaryExpr { op, lhs, rhs }
    }
}

impl Return {
    pub fn new(value: Box<Expr>) -> (r: Return)
        ensures
            r.value == value,
    {
        Return { value }
    }
}

impl Assignment {
    pub fn new(ident: Identifier, value: Box<Expr>) -> (r: Assignment)
        ensures
            r.ident == ident,
            r.value == value,
    {
        Assignment { ident, value }
    }
}

impl Conditional {
    pub fn new(cond: Box<Expr>, on_true: Box<Expr>, on_false: Box<Expr>) -> (r: Conditional)
        ensures
            r.cond == cond,
            r.on_true == on_true,
            r.on_false == on_false,
    {
        Conditional { cond, on_true, on_false }
    }
}

impl Loop {
    pub fn new(cond: Box<Expr>, body: Box<Vec<Expr>>) -> (r: Loop)
        ensures
            r.cond == cond,
            r.body == body,
    {
        Loop { cond, body }
    }
}

impl Call {
    pub fn new(ident: Identifier, args: Vec<Expr>) -> (r: Call)
        ensures
            r.ident == ident,
            r.args == args,
    {
        Call { ident, args }
    }
}

impl Function {
    pub fn new(ident: Identifier, params: Vec<Parameter>, body: Box<Vec<Expr>>) -> (r: Function)
        ensures
            r.ident == ident,
            r.params == params,
            r.body == body,
    {
        Function { ident, params, body }
    }
}

impl Parameter {
    pub fn new(ident: Identifier, ty: Type) -> (r: Parameter)
        ensures
            r.ident == ident,
            r.ty == ty,
    {
        Parameter { ident, ty }
    }
}

/// The mathematical value of an expression: the same tree, with sequences in place
/// of vectors, names as character sequences and types as `Ty`.
pub struct Tree {
    pub kind: TreeKind,
    pub ty: Ty,
}

pub enum TreeKind {
    Identifier(Seq<char>),
    Literal(LiteralKind),
    Unary(UnaryOp, Box<Tree>),
    Binary(BinaryOp, Box<Tree>, Box<Tree>),
    Return(Box<Tree>),
    Assignment(Seq<char>, Box<Tree>),
    Conditional(Box<Tree>, Box<Tree>, Box<Tree>),
    Loop(Box<Tree>, Seq<Tree>),
    /// The name, the parameters with their declared types, and the body.
    Function(Seq<char>, Seq<(Seq<char>, Ty)>, Seq<Tree>),
    Call(Seq<char>, Seq<Tree>),
    Block(Seq<Tree>),
}

/// The parameters of a function as names with their declared types.
pub open spec fn param_views(ps: Seq<Parameter>) -> Seq<(Seq<char>, Ty)> {
    Seq::new(ps.len(), |i: int| (ps[i].ident@, ps[i].ty@))
}

/// The model of each expression of `v`.
pub open spec fn trees(v: Seq<Expr>) -> Seq<Tree>
    decreases v,
{
    Seq::new(
        v.len(),
        |i: int|
            if 0 <= i < v.len() {
                v[i].tree()
            } else {
                Tree { kind: TreeKind::Block(Seq::empty()), ty: Ty::Unknown }
            },
    )
}

impl Expr {
    pub open spec fn tree(self) -> Tree
        decreases self,
    {
        let kind = match self.kind {
            ExprKind::Identifier(i) => TreeKind::Identifier(i@),
            ExprKind::Literal(l) => TreeKind::Literal(l),
            ExprKind::UnaryExpr(u) => TreeKind::Unary(u.op, Box::new(u.child.tree())),
            ExprKind::BinaryExpr(b) => TreeKind::Binary(
                b.op,
                Box::new(b.lhs.tree()),
                Box::new(b.rhs.tree()),
            ),
            ExprKind::Return(r) => TreeKind::Return(Box::new(r.value.tree())),
            ExprKind::Assignment(a) => TreeKind::Assignment(a.ident@, Box::new(a.value.tree())),
            ExprKind::Conditional(c) => TreeKind::Conditional(
                Box::new(c.cond.tree()),
                Box::new(c.on_true.tree()),
                Box::new(c.on_false.tree()),
            ),
            ExprKind::Loop(l) => TreeKind::Loop(Box::new(l.cond.tree()), trees((*l.body)@)),
            ExprKind::Function(f) => TreeKind::Function(
                f.ident@,
                param_views(f.params@),
                trees((*f.body)@),
            ),
            ExprKind::Call(c) => TreeKind::Call(c.ident@, trees(c.args@)),
            ExprKind::Block(b) => TreeKind::Block(trees(b.exprs@)),
        };
        Tree { kind, ty: self.ty@ }
    }
}

/// The model of an expression carries the model of its type.
pub broadcast proof fn lemma_tree_ty(e: Expr)
    ensures
        #[trigger] e.tree().ty == e.ty@,
{
}

/// Two expressions of the same kind have models of the same kind.
pub broadcast proof fn lemma_tree_kind(a: Expr, b: Expr)
    requires
        a.kind == b.kind,
    ensures
        #[trigger] a.tree().kind == #[trigger] b.tree().kind,
{
}

/// Every node of `t`, `t` included, carries a resolved type.
pub open spec fn resolved_tree(t: Tree) -> bool
    decreases t,
{
    &&& resolved(t.ty)
    &&& match t.kind {
        TreeKind::Unary(_, c) => resolved_tree(*c),
        TreeKind::Binary(_, l, r) => resolved_tree(*l) && resolved_tree(*r),
        TreeKind::Return(v) => resolved_tree(*v),
        TreeKind::Assignment(_, v) => resolved_tree(*v),
        TreeKind::Conditional(c, a, b) => resolved_tree(*c) && resolved_tree(*a) && resolved_tree(*b),
        TreeKind::Loop(c, body) => resolved_tree(*c) && forall|i: int|
            0 <= i < body.len() ==> resolved_tree(#[trigger] body[i]),
        TreeKind::Function(_, _, body) => forall|i: int|
            0 <= i < body.len() ==> resolved_tree(#[trigger] body[i]),
        TreeKind::Call(_, args) => forall|i: int| 0 <= i < args.len() ==> resolved_tree(#[trigger] args[i]),
        TreeKind::Block(v) => forall|i: int| 0 <= i < v.len() ==> resolved_tree(#[trigger] v[i]),
        _ => true,
    }
}

/// An expression is fully typed exactly when its model is resolved.
pub proof fn lemma_resolved_tree(e: Expr)
    ensures
        fully_typed(e) == resolved_tree(e.tree()),
    decreases e, 1nat,
{
    reveal_with_fuel(resolved_tree, 2);
    reveal_with_fuel(fully_typed, 2);
    assert(e.tree().ty == e.ty@);
    match e.kind {
        ExprKind::UnaryExpr(u) => {
            assert(e.tree().kind == TreeKind::Unary(u.op, Box::new(u.child.tree())));
            lemma_resolved_tree(*u.child);
            assert(fully_typed(e) == resolved_tree(e.tree()));
        },
        ExprKind::BinaryExpr(b) => {
            lemma_resolved_tree(*b.lhs);
            lemma_resolved_tree(*b.rhs);
        },
        ExprKind::Return(r) => lemma_resolved_tree(*r.value),
        ExprKind::Assignment(a) => lemma_resolved_tree(*a.value),
        ExprKind::Conditional(c) => {
            lemma_resolved_tree(*c.cond);
            lemma_resolved_tree(*c.on_true);
            lemma_resolved_tree(*c.on_false);
        },
        ExprKind::Loop(l) => {
            lemma_resolved_tree(*l.cond);
            lemma_resolved_trees(*l.body);
            assert(e.tree().kind == TreeKind::Loop(Box::new(l.cond.tree()), trees((*l.body)@)));
            let t = e.tree();
            assert(resolved_tree(t) == (resolved(t.ty) && resolved_tree(*t.kind->Loop_0) && (forall|
                i: int,
            | 0 <= i < t.kind->Loop_1.len() ==> resolved_tree(#[trigger] t.kind->Loop_1[i]))));
            assert(fully_typed(e) == resolved_tree(e.tree()));
        },
        ExprKind::Function(f) => {
            lemma_resolved_trees(*f.body);
            assert(e.tree().kind == TreeKind::Function(f.ident@, param_views(f.params@), trees((*f.body)@)));
            let t = e.tree();
            assert(resolved_tree(t) == (resolved(t.ty) && (forall|i: int|
                0 <= i < t.kind->Function_2.len() ==> resolved_tree(#[trigger] t.kind->Function_2[i]))));
            assert(fully_typed(e) == resolved_tree(e.tree()));
        },
        ExprKind::Call(c) => {
            lemma_resolved_trees(c.args);
            assert(e.tree().kind == TreeKind::Call(c.ident@, trees(c.args@)));
            let t = e.tree();
            assert(resolved_tree(t) == (resolved(t.ty) && (forall|i: int|
                0 <= i < t.kind->Call_1.len() ==> resolved_tree(#[trigger] t.kind->Call_1[i]))));
            assert(fully_typed(e) == resolved_tree(e.tree()));
        },
        ExprKind::Block(b) => {
            lemma_resolved_trees(b.exprs);
            assert(e.tree().kind == TreeKind::Block(trees(b.exprs@)));
            let t = e.tree();
            assert(resolved_tree(t) == (resolved(t.ty) && (forall|i: int|
                0 <= i < t.kind->Block_0.len() ==> resolved_tree(#[trigger] t.kind->Block_0[i]))));
            assert(fully_typed(e) == resolved_tree(e.tree()));
        },
        _ => {
            assert(fully_typed(e) == resolved_tree(e.tree()));
        },
    }
}

/// A vector of expressions is fully typed exactly when every model is resolved.
pub proof fn lemma_resolved_trees(v: Vec<Expr>)
    ensures
        all_fully_typed(v) == (forall|i: int|
            0 <= i < trees(v@).len() ==> resolved_tree(#[trigger] trees(v@)[i])),
    decreases v, 0nat,
{
    assert(trees(v@).len() == v@.len());
    assert forall|i: int| 0 <= i < v@.len() implies fully_typed(#[trigger] v@[i]) == resolved_tree(
        trees(v@)[i],
    ) by {
        assert(decreases_to!(v => v@));
        assert(decreases_to!(v@ => v@[i]));
        lemma_resolved_tree(v@[i]);
    }
}

/// Every node of `e`, `e` included, carries a resolved type.
pub open spec fn fully_typed(e: Expr) -> bool
    decreases e,
{
    &&& resolved(e.ty@)
    &&& match e.kind {
        ExprKind::Identifier(_) => true,
        ExprKind::Literal(_) => true,
        ExprKind::UnaryExpr(u) => fully_typed(*u.child),
        ExprKind::BinaryExpr(b) => fully_typed(*b.lhs) && fully_typed(*b.rhs),
        ExprKind::Return(r) => fully_typed(*r.value),
        ExprKind::Assignment(a) => fully_typed(*a.value),
        ExprKind::Conditional(c) => fully_typed(*c.cond) && fully_typed(*c.on_true)
            && fully_typed(*c.on_false),
        ExprKind::Loop(l) => fully_typed(*l.cond) && all_fully_typed(*l.body),
        ExprKind::Function(f) => all_fully_typed(*f.body),
        ExprKind::Call(c) => all_fully_typed(c.args),
        ExprKind::Block(b) => all_fully_typed(b.exprs),
    }
}

/// The structural children of `e`, in order.
pub open spec fn child_seq(e: Expr) -> Seq<Expr> {
    match e.kind {
        ExprKind::Identifier(_) | ExprKind::Literal(_) => Seq::empty(),
        ExprKind::UnaryExpr(u) => seq![*u.child],
        ExprKind::BinaryExpr(b) => seq![*b.lhs, *b.rhs],
        ExprKind::Return(r) => seq![*r.value],
        ExprKind::Assignment(a) => seq![*a.value],
        ExprKind::Conditional(c) => seq![*c.cond, *c.on_true, *c.on_false],
        ExprKind::Loop(l) => seq![*l.cond] + l.body@,
        ExprKind::Function(f) => f.body@,
        ExprKind::Call(c) => c.args@,
        ExprKind::Block(b) => b.exprs@,
    }
}

/// Appends a reference to each expression of `v` to `out`.
fn push_refs<'a>(out: &mut Vec<&'a Expr>, v: &'a Vec<Expr>)
    ensures
        final(out)@.len() == old(out)@.len() + v@.len(),
        forall|i: int| 0 <= i < old(out)@.len() ==> final(out)@[i] == old(out)@[i],
        forall|i: int| 0 <= i < v@.len() ==> *final(out)@[old(out)@.len() + i] == v@[i],
{
    let mut i: usize = 0;
    while i < v.len()
        invariant
            i <= v@.len(),
            out@.len() == old(out)@.len() + i,
            forall|j: int| 0 <= j < old(out)@.len() ==> out@[j] == old(out)@[j],
            forall|j: int| 0 <= j < i ==> *out@[old(out)@.len() + j] == v@[j],
        decreases v@.len() - i,
    {
        out.push(&v[i]);
        i += 1;
    }
}

impl Expr {
    /// The identifier this expression is, or the expression itself when it is not one.
    pub fn to_identifier(self) -> (r: Result<Identifier, Expr>)
        ensures
            self.kind is Identifier <==> r is Ok,
            r is Ok ==> r->Ok_0 == self.kind->Identifier_0,
            r is Err ==> r->Err_0 == self,
    {
        match self.kind {
            ExprKind::Identifier(ident) => Ok(ident),
            kind => Err(Expr { kind, ty: self.ty }),
        }
    }

    /// The parameter this expression declares (an identifier with its annotated type),
    /// or the expression itself when it is not an identifier.
    pub fn to_parameter(self) -> (r: Result<Parameter, Expr>)
        ensures
            self.kind is Identifier <==> r is Ok,
            r is Ok ==> r->Ok_0.ident == self.kind->Identifier_0 && r->Ok_0.ty == self.ty,
            r is Err ==> r->Err_0 == self,
    {
        match self.kind {
            ExprKind::Identifier(ident) => Ok(Parameter { ident, ty: self.ty }),
            kind => Err(Expr { kind, ty: self.ty }),
        }
    }

    /// References to the structural children of this expression, in order.
    pub fn children(&self) -> (r: Vec<&Expr>)
        ensures
            r@.len() == child_seq(*self).len(),
            forall|i: int| 0 <= i < r@.len() ==> *r@[i] == child_seq(*self)[i],
    {
        let mut out: Vec<&Expr> = Vec::new();
        match &self.kind {
            ExprKind::Identifier(_) | ExprKind::Literal(_) => {},
            ExprKind::UnaryExpr(u) => out.push(&u.child),
            ExprKind::BinaryExpr(b) => {
                out.push(&b.lhs);
                out.push(&b.rhs);
            },
            ExprKind::Return(r) => out.push(&r.value),
            ExprKind::Assignment(a) => out.push(&a.value),
            ExprKind::Conditional(c) => {
                out.push(&c.cond);
                out.push(&c.on_true);
                out.push(&c.on_false);
            },
            ExprKind::Loop(l) => {
                out.push(&l.cond);
                push_refs(&mut out, &l.body);
            },
            ExprKind::Function(f) => push_refs(&mut out, &f.body),
            ExprKind::Call(c) => push_refs(&mut out, &c.args),
            ExprKind::Block(b) => push_refs(&mut out, &b.exprs),
        }
        out
    }

    /// Whether some node of this expression, itself included, has a type that is not resolved.
    pub fn partially_typed(&self) -> (r: bool)
        ensures
            r == !fully_typed(*self),
        decreases self, 1nat,
    {
        if !self.ty.is_resolved() {
            return true;
        }
        match &self.kind {
            ExprKind::Identifier(_) | ExprKind::Literal(_) => false,
            ExprKind::UnaryExpr(u) => u.child.partially_typed(),
            ExprKind::BinaryExpr(b) => b.lhs.partially_typed() || b.rhs.partially_typed(),
            ExprKind::Return(r) => r.value.partially_typed(),
            ExprKind::Assignment(a) => a.value.partially_typed(),
            ExprKind::Conditional(c) => c.cond.partially_typed() || c.on_true.partially_typed()
                || c.on_false.partially_typed(),
            ExprKind::Loop(l) => l.cond.partially_typed() || any_partially_typed(&l.body),
            ExprKind::Function(f) => any_partially_typed(&f.body),
            ExprKind::Call(c) => any_partially_typed(&c.args),
            ExprKind::Block(b) => any_partially_typed(&b.exprs),
        }
    }
}

/// Whether some expression of `v` is partially typed.
fn any_partially_typed(v: &Vec<Expr>) -> (r: bool)
    ensures
        r == !all_fully_typed(*v),
    decreases v, 0nat,
{
    let mut i: usize = 0;
    while i < v.len()
        invariant
            i <= v@.len(),
            forall|j: int| 0 <= j < i ==> fully_typed(#[trigger] v@[j]),
        decreases v@.len() - i,
    {
        proof {
            assert(decreases_to!(*v => v@[i as int]));
        }
        if v[i].partially_typed() {
            return true;
        }
        i += 1;
    }
    false
}

/// The annotations of `e` are those its syntax fixes: literals carry their scalar type,
/// loops `Unit`, functions the types declared for their parameters, and every other
/// node `Unknown`.
pub open spec fn annotated_by_syntax(e: Expr) -> bool
    decreases e,
{
    match e.kind {
        ExprKind::Literal(LiteralKind::Int(_)) => e.ty@ == Ty::Scalar(ScalarKind::Int),
        ExprKind::Literal(LiteralKind::Bool(_)) => e.ty@ == Ty::Scalar(ScalarKind::Bool),
        ExprKind::Loop(l) => e.ty@ == Ty::Unit && annotated_by_syntax(*l.cond)
            && all_annotated_by_syntax(*l.body),
        ExprKind::Function(f) => {
            &&& e.ty@ is Function
            &&& e.ty@->Function_0.len() == f.params@.len()
            &&& forall|i: int|
                0 <= i < f.params@.len() ==> e.ty@->Function_0[i] == (#[trigger] f.params@[i]).ty@
            &&& all_annotated_by_syntax(*f.body)
        },
        ExprKind::Identifier(_) => e.ty@ == Ty::Unknown,
        ExprKind::UnaryExpr(u) => e.ty@ == Ty::Unknown && annotated_by_syntax(*u.child),
        ExprKind::BinaryExpr(b) => e.ty@ == Ty::Unknown && annotated_by_syntax(*b.lhs)
            && annotated_by_syntax(*b.rhs),
        ExprKind::Return(r) => e.ty@ == Ty::Unknown && annotated_by_syntax(*r.value),
        ExprKind::Assignment(a) => e.ty@ == Ty::Unknown && annotated_by_syntax(*a.value),
        ExprKind::Conditional(c) => e.ty@ == Ty::Unknown && annotated_by_syntax(*c.cond)
            && annotated_by_syntax(*c.on_true) && annotated_by_syntax(*c.on_false),
        ExprKind::Call(c) => e.ty@ == Ty::Unknown && all_annotated_by_syntax(c.args),
        ExprKind::Block(b) => e.ty@ == Ty::Unknown && all_annotated_by_syntax(b.exprs),
    }
}

/// Every expression of `v` is annotated by its syntax alone.
pub open spec fn all_annotated_by_syntax(v: Vec<Expr>) -> bool
    decreases v,
{
    forall|i: int| 0 <= i < v@.len() ==> annotated_by_syntax(#[trigger] v@[i])
}

/// Every expression of `v` is fully typed.
pub open spec fn all_fully_typed(v: Vec<Expr>) -> bool
    decreases v,
{
    forall|i: int| 0 <= i < v@.len() ==> fully_typed(#[trigger] v@[i])
}

} // verus!
