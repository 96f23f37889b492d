//! A low-level representation of programs: functions of basic blocks of statements
//! over named symbols.
use vstd::prelude::*;

use crate::ast::{BinaryOp, LiteralKind, Parameter, UnaryOp};
use crate::text::{decimal_text, signed_text};
use crate::types::Type;

verus! {

pub type BasicBlockId = usize;

pub type FunctionId = usize;

/// A name with a numeric suffix that tells apart symbols of the same name.
#[derive(Debug, PartialEq, Eq, Hash, PartialOrd, Ord)]
pub struct Symbol {
    name: String,
    id: i32,
}

impl View for Symbol {
    type V = (Seq<char>, i32);

    closed spec fn view(&self) -> (Seq<char>, i32) {
        (self.name@, self.id)
    }
}

impl Clone for Symbol {
    fn clone(&self) -> (r: Self)
        ensures
            r@ == self@,
    {
        Symbol { name: self.name.clone(), id: self.id }
    }
}

impl Symbol {
    pub fn new(name: &str, id: i32) -> (r: Symbol)
        ensures
            r@ == (name@, id),
    {
        Symbol { name: name.to_owned(), id }
    }

    /// The symbol that stands for a placeholder expression.
    pub fn placeholder() -> (r: Symbol)
        ensures
            r@.1 == 0,
    {
        Symbol::new("#placeholder", 0)
    }

    pub fn name(&self) -> (r: String)
        ensures
            r@ == self@.0,
    {
        self.name.clone()
    }

    pub fn id(&self) -> (r: i32)
        ensures
            r == self@.1,
    {
        self.id
    }

    /// Whether the two symbols have the same name and suffix.
    pub fn same_as(&self, other: &Symbol) -> (r: bool)
        ensures
            r == (self@ == other@),
    {
        self.id == other.id && self.name == other.name
    }

    /// The symbol that names the function with index `item`: `F<item>`, with `item`
    /// as its suffix.
    pub fn for_function(item: usize) -> (r: Symbol)
        ensures
            r@.1 == item as i32,
    {
        let mut name = "F".to_owned();
        name.append(decimal_text(item as u64).as_str());
        Symbol { name, id: item as i32 }
    }
}

impl From<usize> for Symbol {
    fn from(item: usize) -> (r: Symbol) {
        Symbol::for_function(item)
    }
}

impl vstd::std_specs::convert::FromSpecImpl<usize> for Symbol {
    open spec fn obeys_from_spec() -> bool {
        false
    }

    open spec fn from_spec(v: usize) -> Symbol {
        arbitrary()
    }
}

/// Generates symbols with fresh suffixes: for each name, the suffixes handed out count
/// up from zero.
pub struct SymbolGenerator {
    ids: Vec<(String, i32)>,
    last: Ghost<Map<Seq<char>, i32>>,
}

impl View for SymbolGenerator {
    type V = Map<Seq<char>, i32>;

    /// For each name handed out, the last suffix given to it.
    closed spec fn view(&self) -> Map<Seq<char>, i32> {
        self.last@
    }
}

impl SymbolGenerator {
    pub closed spec fn wf(&self) -> bool {
        &&& forall|i: int, j: int|
            0 <= i < self.ids@.len() && 0 <= j < self.ids@.len() && i != j
                ==> (#[trigger] self.ids@[i]).0@ != (#[trigger] self.ids@[j]).0@
        &&& forall|i: int|
            0 <= i < self.ids@.len() ==> self.last@.contains_key((#[trigger] self.ids@[i]).0@)
                && self.last@[self.ids@[i].0@] == self.ids@[i].1
        &&& forall|k: Seq<char>|
            self.last@.contains_key(k) ==> exists|i: int|
                0 <= i < self.ids@.len() && (#[trigger] self.ids@[i]).0@ == k
    }

    pub fn new() -> (r: SymbolGenerator)
        ensures
            r.wf(),
            r@ == Map::<Seq<char>, i32>::empty(),
    {
        SymbolGenerator { ids: Vec::new(), last: Ghost(Map::empty()) }
    }

    /// A symbol named `name` whose suffix no earlier symbol of that name had.
    pub fn new_symbol(&mut self, name: &str) -> (r: Symbol)
        requires
            old(self).wf(),
            old(self)@.contains_key(name@) ==> old(self)@[name@] < i32::MAX,
        ensures
            final(self).wf(),
            r@.0 == name@,
            r@.1 == if old(self)@.contains_key(name@) {
                old(self)@[name@] + 1
            } else {
                0
            },
            final(self)@ == old(self)@.insert(name@, r@.1),
    {
        let key = name.to_owned();
        let mut i: usize = 0;
        while i < self.ids.len()
            invariant
                self.wf(),
                key@ == name@,
                i <= self.ids@.len(),
                old(self)@.contains_key(name@) ==> old(self)@[name@] < i32::MAX,
                *self == *old(self),
                forall|j: int| 0 <= j < i ==> (#[trigger] self.ids@[j]).0@ != name@,
            decreases self.ids@.len() - i,
        {
            if self.ids[i].0 == key {
                let id = self.ids[i].1 + 1;
                self.ids[i].1 = id;
                self.last = Ghost(self.last@.insert(name@, id));
                assert forall|k: Seq<char>| self.last@.contains_key(k) implies exists|j: int|
                    0 <= j < self.ids@.len() && (#[trigger] self.ids@[j]).0@ == k by {
                    if k != name@ {
                        let j = choose|j: int|
                            0 <= j < old(self).ids@.len() && (#[trigger] old(self).ids@[j]).0@ == k;
                        assert(self.ids@[j].0 == old(self).ids@[j].0);
                    } else {
                        assert(self.ids@[i as int].0@ == k);
                    }
                }
                return Symbol { name: key, id };
            }
            i += 1;
        }
        self.ids.push((key, 0));
        self.last = Ghost(self.last@.insert(name@, 0));
        assert forall|k: Seq<char>| self.last@.contains_key(k) implies exists|j: int|
            0 <= j < self.ids@.len() && (#[trigger] self.ids@[j]).0@ == k by {
            if k != name@ {
                let j = choose|j: int|
                    0 <= j < old(self).ids@.len() && (#[trigger] old(self).ids@[j]).0@ == k;
                assert(self.ids@[j] == old(self).ids@[j]);
            } else {
                assert(self.ids@[self.ids@.len() - 1].0@ == k);
            }
        }
        Symbol::new(name, 0)
    }
}

/// What a statement computes.
#[derive(Debug, PartialEq, Eq, Hash)]
pub enum StatementKind {
    Identifier(Symbol),
    Literal(LiteralKind),
    Unary { op: UnaryOp, child: Symbol },
    Binary { op: BinaryOp, lhs: Symbol, rhs: Symbol },
    Return(Symbol),
    Assignment { ident: Symbol, value: Symbol },
    Conditional { cond: Symbol, on_true: Symbol, on_false: Symbol },
    Loop { cond: Symbol, body: Symbol },
    Function { name: Symbol, params: Vec<Symbol>, body: Vec<Symbol> },
    Call { func: Symbol, args: Vec<Symbol> },
    Block { statements: Vec<Symbol> },
}

/// The symbols that a statement of kind `k` reads, in order.
pub open spec fn kind_symbols(k: StatementKind) -> Seq<Symbol> {
    match k {
        StatementKind::Identifier(s) => seq![s],
        StatementKind::Literal(_) => Seq::empty(),
        StatementKind::Unary { child, .. } => seq![child],
        StatementKind::Binary { lhs, rhs, .. } => seq![lhs, rhs],
        StatementKind::Return(s) => seq![s],
        StatementKind::Assignment { ident, .. } => seq![ident],
        StatementKind::Conditional { cond, on_true, on_false } => seq![cond, on_true, on_false],
        StatementKind::Loop { cond, body } => seq![cond, body],
        StatementKind::Function { name, params, body } => seq![name] + params@ + body@,
        StatementKind::Call { func, args } => seq![func] + args@,
        StatementKind::Block { statements } => statements@,
    }
}

fn push_symbol_refs<'a>(out: &mut Vec<&'a Symbol>, v: &'a Vec<Symbol>)
    ensures
        final(out)@.len() == old(out)@.len() + v@.len(),
        forall|i: int| 0 <= i < old(out)@.len() ==> final(out)@[i] == old(out)@[i],
        forall|i: int| 0 <= i < v@.len() ==> *final(out)@[old(out)@.len() + i] == v@[i],
{
    let mut i: usize = 0;
    while i < v.len()
        invariant
            i <= v@.len(),
            out@.len() == old(out)@.len() + i,
            forall|j: int| 0 <= j < old(out)@.len() ==> out@[j] == old(out)@[j],
            forall|j: int| 0 <= j < i ==> *out@[old(out)@.len() + j] == v@[j],
        decreases v@.len() - i,
    {
        out.push(&v[i]);
        i += 1;
    }
}

/// A copy of each symbol of `v`.
fn clone_symbols(v: &Vec<Symbol>) -> (r: Vec<Symbol>)
    ensures
        r@.len() == v@.len(),
        forall|i: int| 0 <= i < v@.len() ==> (#[trigger] r@[i])@ == v@[i]@,
{
    let mut out: Vec<Symbol> = Vec::new();
    let mut i: usize = 0;
    while i < v.len()
        invariant
            i <= v@.len(),
            out@.len() == i,
            forall|j: int| 0 <= j < i ==> (#[trigger] out@[j])@ == v@[j]@,
        decreases v@.len() - i,
    {
        out.push(v[i].clone());
        i += 1;
    }
    out
}

/// Whether two symbol lists hold the same symbols in the same order.
fn same_symbols(a: &Vec<Symbol>, b: &Vec<Symbol>) -> (r: bool) {
    if a.len() != b.len() {
        return false;
    }
    let mut i: usize = 0;
    while i < a.len()
        invariant
            a@.len() == b@.len(),
            i <= a@.len(),
        decreases a@.len() - i,
    {
        if !a[i].same_as(&b[i]) {
            return false;
        }
        i += 1;
    }
    true
}

/// `s`, or `with` when `s` is `target`.
fn renamed(s: &Symbol, target: &Symbol, with: &Symbol) -> (r: Symbol)
    ensures
        r@ == if s@ == target@ {
            with@
        } else {
            s@
        },
{
    if s.same_as(target) {
        with.clone()
    } else {
        s.clone()
    }
}

/// `v` with each symbol that is `target` replaced by `with`.
fn renamed_all(v: &Vec<Symbol>, target: &Symbol, with: &Symbol) -> (r: Vec<Symbol>)
    ensures
        r@.len() == v@.len(),
        forall|i: int|
            0 <= i < v@.len() ==> (#[trigger] r@[i])@ == if v@[i]@ == target@ {
                with@
            } else {
                v@[i]@
            },
{
    let mut out: Vec<Symbol> = Vec::new();
    let mut i: usize = 0;
    while i < v.len()
        invariant
            i <= v@.len(),
            out@.len() == i,
            forall|j: int|
                0 <= j < i ==> (#[trigger] out@[j])@ == if v@[j]@ == target@ {
                    with@
                } else {
                    v@[j]@
                },
        decreases v@.len() - i,
    {
        out.push(renamed(&v[i], target, with));
        i += 1;
    }
    out
}

impl Clone for StatementKind {
    fn clone(&self) -> (r: Self) {
        match self {
            StatementKind::Identifier(s) => StatementKind::Identifier(s.clone()),
            StatementKind::Literal(l) => StatementKind::Literal(*l),
            StatementKind::Unary { op, child } => StatementKind::Unary { op: *op, child: child.clone() },
            StatementKind::Binary { op, lhs, rhs } => StatementKind::Binary {
                op: *op,
                lhs: lhs.clone(),
                rhs: rhs.clone(),
            },
            StatementKind::Return(s) => StatementKind::Return(s.clone()),
            StatementKind::Assignment { ident, value } => StatementKind::Assignment {
                ident: ident.clone(),
                value: value.clone(),
            },
            StatementKind::Conditional { cond, on_true, on_false } => StatementKind::Conditional {
                cond: cond.clone(),
                on_true: on_true.clone(),
                on_false: on_false.clone(),
            },
            StatementKind::Loop { cond, body } => StatementKind::Loop {
                cond: cond.clone(),
                body: body.clone(),
            },
            StatementKind::Function { name, params, body } => StatementKind::Function {
                name: name.clone(),
                params: clone_symbols(params),
                body: clone_symbols(body),
            },
            StatementKind::Call { func, args } => StatementKind::Call {
                func: func.clone(),
                args: clone_symbols(args),
            },
            StatementKind::Block { statements } => StatementKind::Block {
                statements: clone_symbols(statements),
            },
        }
    }
}

impl StatementKind {
    /// References to the symbols this statement reads, in order.
    pub fn children(&self) -> (r: Vec<&Symbol>)
        ensures
            r@.len() == kind_symbols(*self).len(),
            forall|i: int| 0 <= i < r@.len() ==> *r@[i] == kind_symbols(*self)[i],
    {
        let mut vars: Vec<&Symbol> = Vec::new();
        match self {
            StatementKind::Identifier(sym) => vars.push(sym),
            StatementKind::Literal(_) => {},
            StatementKind::Unary { child, .. } => vars.push(child),
            StatementKind::Binary { lhs, rhs, .. } => {
                vars.push(lhs);
                vars.push(rhs);
            },
            StatementKind::Return(sym) => vars.push(sym),
            StatementKind::Assignment { ident, .. } => vars.push(ident),
            StatementKind::Conditional { cond, on_true, on_false } => {
                vars.push(cond);
                vars.push(on_true);
                vars.push(on_false);
            },
            StatementKind::Loop { cond, body } => {
                vars.push(cond);
                vars.push(body);
            },
            StatementKind::Function { name, params, body } => {
                vars.push(name);
                push_symbol_refs(&mut vars, params);
                push_symbol_refs(&mut vars, body);
            },
            StatementKind::Call { func, args } => {
                vars.push(func);
                push_symbol_refs(&mut vars, args);
            },
            StatementKind::Block { statements } => push_symbol_refs(&mut vars, statements),
        }
        vars
    }

    /// This statement with each of its symbols that is `target` replaced by `with`.
    pub fn substituted(&self, target: &Symbol, with: &Symbol) -> (r: StatementKind)
        ensures
            kind_symbols(r).len() == kind_symbols(*self).len(),
            forall|i: int|
                0 <= i < kind_symbols(r).len() ==> (#[trigger] kind_symbols(r)[i])@ == if kind_symbols(
                    *self,
                )[i]@ == target@ {
                    with@
                } else {
                    kind_symbols(*self)[i]@
                },
    {
        match self {
            StatementKind::Identifier(sym) => StatementKind::Identifier(renamed(sym, target, with)),
            StatementKind::Literal(l) => StatementKind::Literal(*l),
            StatementKind::Unary { op, child } => StatementKind::Unary {
                op: *op,
                child: renamed(child, target, with),
            },
            StatementKind::Binary { op, lhs, rhs } => StatementKind::Binary {
                op: *op,
                lhs: renamed(lhs, target, with),
                rhs: renamed(rhs, target, with),
            },
            StatementKind::Return(sym) => StatementKind::Return(renamed(sym, target, with)),
            StatementKind::Assignment { ident, value } => StatementKind::Assignment {
                ident: renamed(ident, target, with),
                value: renamed(value, target, with),
            },
            StatementKind::Conditional { cond, on_true, on_false } => StatementKind::Conditional {
                cond: renamed(cond, target, with),
                on_true: renamed(on_true, target, with),
                on_false: renamed(on_false, target, with),
            },
            StatementKind::Loop { cond, body } => StatementKind::Loop {
                cond: renamed(cond, target, with),
                body: renamed(body, target, with),
            },
            StatementKind::Function { name, params, body } => StatementKind::Function {
                name: renamed(name, target, with),
                params: renamed_all(params, target, with),
                body: renamed_all(body, target, with),
            },
            StatementKind::Call { func, args } => StatementKind::Call {
                func: renamed(func, target, with),
                args: renamed_all(args, target, with),
            },
            StatementKind::Block { statements } => StatementKind::Block {
                statements: renamed_all(statements, target, with),
            },
        }
    }

    /// Whether the two kinds are the same statement over the same symbols.
    pub fn same_as(&self, other: &StatementKind) -> (r: bool) {
        match (self, other) {
            (StatementKind::Identifier(a), StatementKind::Identifier(b)) => a.same_as(b),
            (StatementKind::Literal(a), StatementKind::Literal(b)) => *a == *b,
            (StatementKind::Unary { op: o_a, child: c_a }, StatementKind::Unary { op: o_b, child: c_b }) =>
                *o_a == *o_b && c_a.same_as(c_b),
            (
                StatementKind::Binary { op: o_a, lhs: l_a, rhs: r_a },
                StatementKind::Binary { op: o_b, lhs: l_b, rhs: r_b },
            ) => *o_a == *o_b && l_a.same_as(l_b) && r_a.same_as(r_b),
            (StatementKind::Return(a), StatementKind::Return(b)) => a.same_as(b),
            (
                StatementKind::Assignment { ident: i_a, value: v_a },
                StatementKind::Assignment { ident: i_b, value: v_b },
            ) => i_a.same_as(i_b) && v_a.same_as(v_b),
            (
                StatementKind::Conditional { cond: c_a, on_true: t_a, on_false: f_a },
                StatementKind::Conditional { cond: c_b, on_true: t_b, on_false: f_b },
            ) => c_a.same_as(c_b) && t_a.same_as(t_b) && f_a.same_as(f_b),
            (StatementKind::Loop { cond: c_a, body: b_a }, StatementKind::Loop { cond: c_b, body: b_b }) =>
                c_a.same_as(c_b) && b_a.same_as(b_b),
            (
                StatementKind::Function { name: n_a, params: p_a, body: b_a },
                StatementKind::Function { name: n_b, params: p_b, body: b_b },
            ) => n_a.same_as(n_b) && same_symbols(p_a, p_b) && same_symbols(b_a, b_b),
            (StatementKind::Call { func: f_a, args: a_a }, StatementKind::Call { func: f_b, args: a_b }) =>
                f_a.same_as(f_b) && same_symbols(a_a, a_b),
            (StatementKind::Block { statements: s_a }, StatementKind::Block { statements: s_b }) =>
                same_symbols(s_a, s_b),
            _ => false,
        }
    }
}

/// A statement, and the symbol that holds its result, if any.
#[derive(Debug, PartialEq, Eq, Hash)]
pub struct Statement {
    pub kind: StatementKind,
    pub output: Option<Symbol>,
}

impl Statement {
    pub fn new(kind: StatementKind, output: Option<Symbol>) -> (r: Statement)
        ensures
            r.kind == kind,
            r.output == output,
    {
        Statement { kind, output }
    }

    /// Replaces each occurrence of `target` among the symbols of this statement's kind
    /// by `with`.
    pub fn substitute_symbol(&mut self, target: &Symbol, with: &Symbol)
        ensures
            final(self).output == old(self).output,
            kind_symbols(final(self).kind).len() == kind_symbols(old(self).kind).len(),
            forall|i: int|
                0 <= i < kind_symbols(final(self).kind).len() ==> (#[trigger] kind_symbols(
                    final(self).kind,
                )[i])@ == if kind_symbols(old(self).kind)[i]@ == target@ {
                    with@
                } else {
                    kind_symbols(old(self).kind)[i]@
                },
    {
        self.kind = self.kind.substituted(target, with);
    }
}

/// How a basic block ends.
#[derive(Debug, PartialEq, Eq, Hash)]
pub enum Terminator {
    Branch { cond: Symbol, on_true: BasicBlockId, on_false: BasicBlockId },
    JumpBlock(BasicBlockId),
    ProgramReturn(Symbol),
    EndFunction(Symbol),
    Crash,
}

impl Terminator {
    /// References to the symbols the terminator reads.
    pub fn children(&self) -> (r: Vec<&Symbol>)
        ensures
            self is Branch ==> r@.len() == 1 && *r@[0] == self->cond,
            self is ProgramReturn ==> r@.len() == 1 && *r@[0] == self->ProgramReturn_0,
            self is EndFunction ==> r@.len() == 1 && *r@[0] == self->EndFunction_0,
            self is JumpBlock || self is Crash ==> r@.len() == 0,
    {
        let mut vars: Vec<&Symbol> = Vec::new();
        match self {
            Terminator::Branch { cond, .. } => vars.push(cond),
            Terminator::ProgramReturn(sym) => vars.push(sym),
            Terminator::EndFunction(sym) => vars.push(sym),
            Terminator::Crash => {},
            Terminator::JumpBlock(_) => {},
        }
        vars
    }

    /// This terminator with each symbol it reads that is `target` replaced by `with`.
    pub fn substituted(&self, target: &Symbol, with: &Symbol) -> (r: Terminator) {
        match self {
            Terminator::Branch { cond, on_true, on_false } => Terminator::Branch {
                cond: renamed(cond, target, with),
                on_true: *on_true,
                on_false: *on_false,
            },
            Terminator::ProgramReturn(sym) => Terminator::ProgramReturn(renamed(sym, target, with)),
            Terminator::EndFunction(sym) => Terminator::EndFunction(renamed(sym, target, with)),
            Terminator::Crash => Terminator::Crash,
            Terminator::JumpBlock(b) => Terminator::JumpBlock(*b),
        }
    }
}

/// A straight-line sequence of statements and the terminator that ends it.
#[derive(Debug, PartialEq, Eq, Hash)]
pub struct BasicBlock {
    pub id: BasicBlockId,
    pub statements: Vec<Statement>,
    pub terminator: Terminator,
}

impl BasicBlock {
    pub fn add_statement(&mut self, statement: Statement)
        ensures
            final(self).statements@ == old(self).statements@.push(statement),
            final(self).id == old(self).id,
            final(self).terminator == old(self).terminator,
    {
        self.statements.push(statement);
    }
}

/// A function of the program: its parameters and locals with their types, and its blocks.
#[derive(Debug, PartialEq, Eq, Hash)]
pub struct Function {
    pub id: FunctionId,
    pub params: Vec<(Symbol, Type)>,
    pub locals: Vec<(Symbol, Type)>,
    pub blocks: Vec<BasicBlock>,
    pub ret_ty: Type,
}

impl Function {
    /// Adds an empty block that ends in `Crash`; returns its index.
    pub fn add_block(&mut self) -> (r: BasicBlockId)
        requires
            old(self).blocks@.len() < usize::MAX,
        ensures
            r == old(self).blocks@.len(),
            final(self).blocks@.len() == old(self).blocks@.len() + 1,
            final(self).blocks@[r as int].id == r,
            final(self).blocks@[r as int].statements@.len() == 0,
            final(self).blocks@[r as int].terminator == Terminator::Crash,
            forall|i: int| 0 <= i < r ==> final(self).blocks@[i] == old(self).blocks@[i],
            final(self).locals == old(self).locals,
    {
        let block = BasicBlock { id: self.blocks.len(), statements: Vec::new(), terminator: Terminator::Crash };
        self.blocks.push(block);
        self.blocks.len() - 1
    }
}

/// Sets the type of `sym` in `vars`, adding it after the others when it is not there.
fn set_var(vars: &mut Vec<(Symbol, Type)>, sym: Symbol, ty: Type) {
    let mut i: usize = 0;
    while i < vars.len()
        invariant
            i <= vars@.len(),
        decreases vars@.len() - i,
    {
        if vars[i].0.same_as(&sym) {
            vars[i].1 = ty;
            return ;
        }
        i += 1;
    }
    vars.push((sym, ty));
}

/// A program: its functions (the first is the entry), its result type, and the
/// parameters given to it.
pub struct Program {
    pub funcs: Vec<Function>,
    pub ret_ty: Type,
    pub top_params: Vec<Parameter>,
    pub sym_gen: SymbolGenerator,
}

impl Program {
    pub closed spec fn wf(&self) -> bool {
        self.sym_gen.wf()
    }

    /// A program with only its (empty) entry function.
    pub fn new(ret_type: &Type, top_params: &[Parameter]) -> (r: Program)
        ensures
            r.wf(),
            r.funcs@.len() == 1,
            r.ret_ty@ == ret_type@,
            r.top_params@.len() == top_params@.len(),
            r.sym_gen@ == Map::<Seq<char>, i32>::empty(),
    {
        let mut params: Vec<Parameter> = Vec::new();
        let mut i: usize = 0;
        while i < top_params.len()
            invariant
                i <= top_params@.len(),
                params@.len() == i,
            decreases top_params@.len() - i,
        {
            let p = &top_params[i];
            params.push(Parameter { ident: p.ident.duplicate(), ty: p.ty.clone() });
            i += 1;
        }
        let mut prog = Program {
            funcs: Vec::new(),
            ret_ty: ret_type.clone(),
            top_params: params,
            sym_gen: SymbolGenerator::new(),
        };
        prog.add_func();
        prog
    }

    /// Adds an empty function; returns its index.
    pub fn add_func(&mut self) -> (r: FunctionId)
        requires
            old(self).funcs@.len() < usize::MAX,
        ensures
            r == old(self).funcs@.len(),
            final(self).funcs@.len() == old(self).funcs@.len() + 1,
            final(self).funcs@[r as int].id == r,
            final(self).funcs@[r as int].blocks@.len() == 0,
            forall|i: int| 0 <= i < r ==> final(self).funcs@[i] == old(self).funcs@[i],
            final(self).ret_ty == old(self).ret_ty,
            final(self).sym_gen == old(self).sym_gen,
            final(self).top_params == old(self).top_params,
    {
        let func = Function {
            id: self.funcs.len(),
            params: Vec::new(),
            locals: Vec::new(),
            blocks: Vec::new(),
            ret_ty: Type::Unknown,
        };
        self.funcs.push(func);
        self.funcs.len() - 1
    }

    /// Adds a fresh local of type `ty` to function `func`; returns its symbol.
    pub fn add_local(&mut self, func: FunctionId, ty: &Type) -> (r: Symbol)
        requires
            old(self).wf(),
            func < old(self).funcs@.len(),
            func <= i32::MAX,
            forall|k: Seq<char>| #[trigger] old(self).sym_gen@.contains_key(k) ==> old(self).sym_gen@[k] < i32::MAX,
        ensures
            final(self).wf(),
            final(self).funcs@.len() == old(self).funcs@.len(),
            forall|i: int|
                0 <= i < old(self).funcs@.len() ==> (#[trigger] final(self).funcs@[i]).blocks
                    == old(self).funcs@[i].blocks,
    {
        let name = temporary_name(func);
        let sym = self.sym_gen.new_symbol(name.as_str());
        set_var(&mut self.funcs[func].locals, sym.clone(), ty.clone());
        sym
    }

    /// Gives the local `sym` of function `func` the type `ty`.
    pub fn add_local_named(&mut self, sym: &Symbol, func: FunctionId, ty: &Type)
        requires
            func < old(self).funcs@.len(),
        ensures
            final(self).funcs@.len() == old(self).funcs@.len(),
            final(self).sym_gen == old(self).sym_gen,
            forall|i: int|
                0 <= i < old(self).funcs@.len() ==> (#[trigger] final(self).funcs@[i]).blocks
                    == old(self).funcs@[i].blocks,
    {
        set_var(&mut self.funcs[func].locals, sym.clone(), ty.clone());
    }

    /// Adds an empty block to function `func`; returns its index.
    pub fn add_block(&mut self, func: FunctionId) -> (r: BasicBlockId)
        requires
            func < old(self).funcs@.len(),
            old(self).funcs@[func as int].blocks@.len() < usize::MAX,
        ensures
            r == old(self).funcs@[func as int].blocks@.len(),
            final(self).funcs@.len() == old(self).funcs@.len(),
            final(self).funcs@[func as int].blocks@.len() == r + 1,
            final(self).sym_gen == old(self).sym_gen,
    {
        self.funcs[func].add_block()
    }

    /// Appends `stmt` to block `block` of function `func`, with a fresh symbol for its
    /// result; returns that symbol.
    pub fn add_statement(&mut self, func: FunctionId, block: BasicBlockId, stmt: StatementKind) -> (r: Symbol)
        requires
            old(self).wf(),
            func < old(self).funcs@.len(),
            block < old(self).funcs@[func as int].blocks@.len(),
            func <= i32::MAX,
            forall|k: Seq<char>| #[trigger] old(self).sym_gen@.contains_key(k) ==> old(self).sym_gen@[k] < i32::MAX,
        ensures
            final(self).wf(),
            final(self).funcs@.len() == old(self).funcs@.len(),
            final(self).funcs@[func as int].blocks@.len() == old(self).funcs@[func as int].blocks@.len(),
    {
        let name = temporary_name(func);
        let sym = self.sym_gen.new_symbol(name.as_str());
        self.funcs[func].blocks[block].add_statement(Statement::new(stmt, Some(sym.clone())));
        sym
    }
}

/// The name of the temporaries of function `func`: `fn<func>_tmp`.
fn temporary_name(func: usize) -> (r: String) {
    let mut name = "fn".to_owned();
    name.append(decimal_text(func as u64).as_str());
    name.append("_tmp");
    name
}

/// Where a statement was generated: the function and the block.
type ProgramSite = (FunctionId, BasicBlockId);

/// Remembers, for each site, which statements already have a symbol, so that a
/// statement computed twice at one site shares one symbol.
pub struct StatementTracker {
    generated: Vec<(ProgramSite, Vec<(StatementKind, Symbol)>)>,
}

impl StatementTracker {
    /// The number of sites that have a table.
    pub closed spec fn site_count(&self) -> nat {
        self.generated@.len()
    }

    pub fn new() -> (r: StatementTracker)
        ensures
            r.site_count() == 0,
    {
        StatementTracker { generated: Vec::new() }
    }

    /// The index of the table of `site`, added empty if there was none.
    fn site_index(&mut self, site: ProgramSite) -> (r: usize)
        ensures
            r < final(self).generated@.len(),
    {
        let mut i: usize = 0;
        while i < self.generated.len()
            invariant
                i <= self.generated@.len(),
            decreases self.generated@.len() - i,
        {
            if self.generated[i].0.0 == site.0 && self.generated[i].0.1 == site.1 {
                return i;
            }
            i += 1;
        }
        self.generated.push((site, Vec::new()));
        self.generated.len() - 1
    }

    /// The symbol holding the value of `kind` at `(func, block)`; when there is none
    /// yet, the statement is added to the end of the block with a fresh local of type
    /// `sym_ty`, whose symbol is returned.
    pub fn symbol_for_statement(
        &mut self,
        prog: &mut Program,
        func: FunctionId,
        block: BasicBlockId,
        sym_ty: &Type,
        kind: StatementKind,
    ) -> (r: Symbol)
        requires
            old(prog).wf(),
            func < old(prog).funcs@.len(),
            block < old(prog).funcs@[func as int].blocks@.len(),
            func <= i32::MAX,
            forall|k: Seq<char>| #[trigger] old(prog).sym_gen@.contains_key(k) ==> old(prog).sym_gen@[k] < i32::MAX,
        ensures
            final(prog).wf(),
            final(prog).funcs@.len() == old(prog).funcs@.len(),
    {
        let s = self.site_index((func, block));
        let mut i: usize = 0;
        while i < self.generated[s].1.len()
            invariant
                s < self.generated@.len(),
                i <= self.generated@[s as int].1@.len(),
                *prog == *old(prog),
                prog.wf(),
            decreases self.generated@[s as int].1@.len() - i,
        {
            if self.generated[s].1[i].0.same_as(&kind) {
                return self.generated[s].1[i].1.clone();
            }
            i += 1;
        }
        let res_sym = prog.add_local(func, sym_ty);
        prog.funcs[func].blocks[block].add_statement(
            Statement::new(kind.clone(), Some(res_sym.clone())),
        );
        self.generated[s].1.push((kind, res_sym.clone()));
        res_sym
    }

    /// Adds `kind` to the end of `(func, block)` with the result held by `named_sym`, a
    /// local of type `sym_ty`, and remembers that symbol for the statement.
    pub fn named_symbol_for_statement(
        &mut self,
        prog: &mut Program,
        func: FunctionId,
        block: BasicBlockId,
        sym_ty: &Type,
        kind: StatementKind,
        named_sym: Symbol,
    )
        requires
            func < old(prog).funcs@.len(),
            block < old(prog).funcs@[func as int].blocks@.len(),
        ensures
            final(prog).funcs@.len() == old(prog).funcs@.len(),
    {
        let s = self.site_index((func, block));
        prog.add_local_named(&named_sym, func, sym_ty);
        prog.funcs[func].blocks[block].add_statement(
            Statement::new(kind.clone(), Some(named_sym.clone())),
        );
        let mut i: usize = 0;
        while i < self.generated[s].1.len()
            invariant
                s < self.generated@.len(),
                i <= self.generated@[s as int].1@.len(),
                prog.funcs@.len() == old(prog).funcs@.len(),
            decreases self.generated@[s as int].1@.len() - i,
        {
            if self.generated[s].1[i].0.same_as(&kind) {
                self.generated[s].1[i].1 = named_sym;
                return ;
            }
            i += 1;
        }
        self.generated[s].1.push((kind, named_sym));
    }
}

impl Symbol {
    /// How the symbol is written: its name, followed by `__` and its suffix unless the
    /// suffix is zero.
    pub fn text(&self) -> (r: String) {
        let mut out = self.name.clone();
        if self.id != 0 {
            out.append("__");
            out.append(signed_text(self.id as i64).as_str());
        }
        out
    }
}

fn literal_text(l: &LiteralKind) -> (r: String) {
    match l {
        LiteralKind::Int(n) => signed_text(*n),
        LiteralKind::Bool(true) => "true".to_owned(),
        LiteralKind::Bool(false) => "false".to_owned(),
    }
}

fn unary_text(op: &UnaryOp) -> (r: &'static str) {
    match op {
        UnaryOp::Plus => "+",
        UnaryOp::Minus => "-",
    }
}

fn binary_text(op: &BinaryOp) -> (r: &'static str) {
    match op {
        BinaryOp::Add => "+",
        BinaryOp::Sub => "-",
        BinaryOp::Mul => "*",
        BinaryOp::LessThan => "<",
        BinaryOp::GreaterThan => ">",
    }
}

/// Appends the symbols of `v` to `out`, separated by `sep`.
fn append_symbols(out: &mut String, v: &Vec<Symbol>, sep: &str) {
    let mut i: usize = 0;
    while i < v.len()
        invariant
            i <= v@.len(),
        decreases v@.len() - i,
    {
        if i > 0 {
            out.append(sep);
        }
        out.append(v[i].text().as_str());
        i += 1;
    }
}

impl StatementKind {
    /// How the statement is written.
    pub fn text(&self) -> (r: String) {
        let mut out = String::new();
        match self {
            StatementKind::Identifier(sym) => out.append(sym.text().as_str()),
            StatementKind::Literal(lit) => out.append(literal_text(lit).as_str()),
            StatementKind::Unary { op, child } => {
                out.append(unary_text(op));
                out.append(child.text().as_str());
            },
            StatementKind::Binary { op, lhs, rhs } => {
                out.append(lhs.text().as_str());
                out.append(" ");
                out.append(binary_text(op));
                out.append(" ");
                out.append(rhs.text().as_str());
            },
            StatementKind::Return(sym) => {
                out.append("return ");
                out.append(sym.text().as_str());
            },
            StatementKind::Assignment { ident, value } => {
                out.append(ident.text().as_str());
                out.append(" = ");
                out.append(value.text().as_str());
            },
            StatementKind::Conditional { cond, on_true, on_false } => {
                out.append("if (");
                out.append(cond.text().as_str());
                out.append(") ");
                out.append(on_true.text().as_str());
                out.append(" else ");
                out.append(on_false.text().as_str());
            },
            StatementKind::Loop { cond, body } => {
                out.append("while (");
                out.append(cond.text().as_str());
                out.append(") ");
                out.append(body.text().as_str());
            },
            StatementKind::Function { name, params, body } => {
                out.append("def ");
                out.append(name.text().as_str());
                out.append("(");
                append_symbols(&mut out, params, ", ");
                out.append(") {");
                append_symbols(&mut out, body, "; ");
                out.append("}");
            },
            StatementKind::Call { func, args } => {
                out.append(func.text().as_str());
                out.append("(");
                append_symbols(&mut out, args, ", ");
                out.append(")");
            },
            StatementKind::Block { statements } => {
                out.append("{");
                append_symbols(&mut out, statements, "; ");
                out.append("}");
            },
        }
        out
    }
}

impl Statement {
    /// How the statement is written: `out = kind`, or the kind alone.
    pub fn text(&self) -> (r: String) {
        let mut out = String::new();
        match &self.output {
            Some(sym) => {
                out.append(sym.text().as_str());
                out.append(" = ");
            },
            None => {},
        }
        out.append(self.kind.text().as_str());
        out
    }
}

impl Terminator {
    /// How the terminator is written.
    pub fn text(&self) -> (r: String) {
        let mut out = String::new();
        match self {
            Terminator::Branch { cond, on_true, on_false } => {
                out.append("if ");
                out.append(cond.text().as_str());
                out.append(" then B");
                out.append(decimal_text(*on_true as u64).as_str());
                out.append(" else B");
                out.append(decimal_text(*on_false as u64).as_str());
            },
            Terminator::JumpBlock(block) => {
                out.append("jump B");
                out.append(decimal_text(*block as u64).as_str());
            },
            Terminator::ProgramReturn(sym) => {
                out.append("return ");
                out.append(sym.text().as_str());
            },
            Terminator::EndFunction(sym) => {
                out.append("end ");
                out.append(sym.text().as_str());
            },
            Terminator::Crash => out.append("crash"),
        }
        out
    }
}

impl BasicBlock {
    /// The block written out: its label, a line per statement, and its terminator.
    pub fn text(&self) -> (r: String) {
        let mut out = "B".to_owned();
        out.append(decimal_text(self.id as u64).as_str());
        out.append(":\n");
        let mut i: usize = 0;
        while i < self.statements.len()
            invariant
                i <= self.statements@.len(),
            decreases self.statements@.len() - i,
        {
            out.append("  ");
            out.append(self.statements[i].text().as_str());
            out.append("\n");
            i += 1;
        }
        out.append("  -> ");
        out.append(self.terminator.text().as_str());
        out.append("\n");
        out
    }
}

/// Appends a line `  <kind> <symbol> <type>` for each variable of `vars`.
fn append_vars(out: &mut String, kind: &str, vars: &Vec<(Symbol, Type)>) {
    let mut i: usize = 0;
    while i < vars.len()
        invariant
            i <= vars@.len(),
        decreases vars@.len() - i,
    {
        out.append("  ");
        out.append(kind);
        out.append(" ");
        out.append(vars[i].0.text().as_str());
        out.append(" ");
        out.append(vars[i].1.text().as_str());
        out.append("\n");
        i += 1;
    }
}

impl Function {
    /// The function written out: its label, parameters, locals, blocks and result type.
    pub fn text(&self) -> (r: String) {
        let mut out = "F".to_owned();
        out.append(decimal_text(self.id as u64).as_str());
        out.append(":\n");
        append_vars(&mut out, "param", &self.params);
        append_vars(&mut out, "local", &self.locals);
        let mut i: usize = 0;
        while i < self.blocks.len()
            invariant
                i <= self.blocks@.len(),
            decreases self.blocks@.len() - i,
        {
            out.append(self.blocks[i].text().as_str());
            out.append("\n");
            i += 1;
        }
        out.append("  ret ");
        out.append(self.ret_ty.text().as_str());
        out.append("\n");
        out
    }
}

impl Program {
    /// The program written out: its parameters, its functions and its result type.
    pub fn text(&self) -> (r: String) {
        let mut out = String::new();
        if self.top_params.len() > 0 {
            out.append("Top Parameters:\n");
            let mut i: usize = 0;
            while i < self.top_params.len()
                invariant
                    i <= self.top_params@.len(),
                decreases self.top_params@.len() - i,
            {
                out.append("  ");
                out.append(self.top_params[i].ident.name.as_str());
                out.append(": ");
                out.append(self.top_params[i].ty.text().as_str());
                out.append("\n");
                i += 1;
            }
            out.append("\n");
        }
        let mut i: usize = 0;
        while i < self.funcs.len()
            invariant
                i <= self.funcs@.len(),
            decreases self.funcs@.len() - i,
        {
            out.append(self.funcs[i].text().as_str());
            i += 1;
        }
        out.append("Return Type: ");
        out.append(self.ret_ty.text().as_str());
        out.append("\n");
        out
    }
}

} // verus!
