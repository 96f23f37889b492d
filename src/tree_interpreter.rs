//! An evaluator that walks the tree without type annotations.
//!
//! All names live in one environment: a call binds its parameters there, where they
//! stay after the call.
use vstd::prelude::*;

use crate::untyped::{BinaryOp, Expr, ExprKind, Function, LiteralKind, UnaryOp};

verus! {

/// How many nested calls and loop iterations one evaluation may go through.
pub const STEPS: u64 = 100000000;

/// A value of the evaluator; definitions and assignments have no value.
#[derive(Debug, PartialEq, Eq, Hash)]
pub enum Value {
    Int(i64),
    Bool(bool),
    Function(Function),
    Unit,
}

impl Clone for Value {
    fn clone(&self) -> (r: Self)
        ensures
            self is Int ==> r == *self,
            self is Bool ==> r == *self,
            self is Unit ==> r == *self,
            self is Function ==> r is Function,
    {
        match self {
            Value::Int(n) => Value::Int(*n),
            Value::Bool(b) => Value::Bool(*b),
            Value::Function(f) => Value::Function(f.clone()),
            Value::Unit => Value::Unit,
        }
    }
}

/// The bindings of names to values.
pub struct Enviroment {
    entries: Vec<(String, Value)>,
    bound: Ghost<Map<Seq<char>, Value>>,
}

impl View for Enviroment {
    type V = Map<Seq<char>, Value>;

    closed spec fn view(&self) -> Map<Seq<char>, Value> {
        self.bound@
    }
}

impl Enviroment {
    /// Each bound name has exactly one entry, which holds its value.
    pub closed spec fn wf(&self) -> bool {
        &&& forall|i: int, j: int|
            0 <= i < self.entries@.len() && 0 <= j < self.entries@.len() && i != j
                ==> (#[trigger] self.entries@[i]).0@ != (#[trigger] self.entries@[j]).0@
        &&& forall|i: int|
            0 <= i < self.entries@.len() ==> self.bound@.contains_key(
                (#[trigger] self.entries@[i]).0@,
            ) && self.bound@[self.entries@[i].0@] == self.entries@[i].1
        &&& forall|k: Seq<char>|
            self.bound@.contains_key(k) ==> exists|i: int|
                0 <= i < self.entries@.len() && (#[trigger] self.entries@[i]).0@ == k
    }

    pub fn new() -> (r: Enviroment)
        ensures
            r.wf(),
            r@ == Map::<Seq<char>, Value>::empty(),
    {
        Enviroment { entries: Vec::new(), bound: Ghost(Map::empty()) }
    }

    fn position(&self, name: &str) -> (r: Option<usize>)
        requires
            self.wf(),
        ensures
            r is None <==> !self@.contains_key(name@),
            r is Some ==> r->0 < self.entries@.len() && self.entries@[r->0 as int].0@ == name@,
    {
        let key = name.to_owned();
        let mut i: usize = 0;
        while i < self.entries.len()
            invariant
                self.wf(),
                key@ == name@,
                i <= self.entries@.len(),
                forall|j: int| 0 <= j < i ==> (#[trigger] self.entries@[j]).0@ != name@,
            decreases self.entries@.len() - i,
        {
            if self.entries[i].0 == key {
                return Some(i);
            }
            i += 1;
        }
        None
    }

    /// Binds `name` to `value`, replacing its earlier value.
    pub fn insert(&mut self, name: String, value: Value)
        requires
            old(self).wf(),
        ensures
            final(self).wf(),
            final(self)@ == old(self)@.insert(name@, value),
    {
        let ghost key = name@;
        let ghost v = value;
        match self.position(name.as_str()) {
            Some(i) => {
                self.entries[i].1 = value;
                self.bound = Ghost(self.bound@.insert(key, v));
                assert forall|k: Seq<char>| self.bound@.contains_key(k) implies exists|j: int|
                    0 <= j < self.entries@.len() && (#[trigger] self.entries@[j]).0@ == k by {
                    if k != key {
                        let j = choose|j: int|
                            0 <= j < old(self).entries@.len() && (#[trigger] old(self).entries@[j]).0@ == k;
                        assert(self.entries@[j].0 == old(self).entries@[j].0);
                    } else {
                        assert(self.entries@[i as int].0@ == k);
                    }
                }
            },
            None => {
                self.entries.push((name, value));
                self.bound = Ghost(self.bound@.insert(key, v));
                assert forall|k: Seq<char>| self.bound@.contains_key(k) implies exists|j: int|
                    0 <= j < self.entries@.len() && (#[trigger] self.entries@[j]).0@ == k by {
                    if k != key {
                        let j = choose|j: int|
                            0 <= j < old(self).entries@.len() && (#[trigger] old(self).entries@[j]).0@ == k;
                        assert(self.entries@[j] == old(self).entries@[j]);
                    } else {
                        assert(self.entries@[self.entries@.len() - 1].0@ == k);
                    }
                }
            },
        }
    }

    /// The value bound to `name`, if any.
    pub fn get(&self, name: &str) -> (r: Option<&Value>)
        requires
            self.wf(),
        ensures
            r is None <==> !self@.contains_key(name@),
            r is Some ==> *r->0 == self@[name@],
    {
        match self.position(name) {
            Some(i) => Some(&self.entries[i].1),
            None => None,
        }
    }
}

/// The evaluator's state: its one environment.
pub struct Interpreter {
    pub env: Enviroment,
}

/// An integer result as a value; `None` when it overflowed.
fn int_value(n: Option<i64>) -> (r: Option<Value>)
    ensures
        n is Some ==> r == Some(Value::Int(n->0)),
        n is None ==> r is None,
{
    match n {
        Some(v) => Some(Value::Int(v)),
        None => None,
    }
}

impl Interpreter {
    pub closed spec fn wf(&self) -> bool {
        self.env.wf()
    }

    pub fn new() -> (r: Interpreter)
        ensures
            r.wf(),
    {
        Interpreter { env: Enviroment::new() }
    }

    /// Evaluates `expr`: its value, or `None` when it has none, or when it cannot be
    /// evaluated (an unbound name, operands of the wrong kind, an overflow, or more
    /// than `STEPS` nested calls or loop iterations).
    pub fn visit_expr(&mut self, expr: &Expr) -> (r: Option<Value>)
        requires
            old(self).wf(),
        ensures
            final(self).wf(),
    {
        self.eval(expr, STEPS)
    }

    fn eval(&mut self, expr: &Expr, fuel: u64) -> (r: Option<Value>)
        requires
            old(self).wf(),
        ensures
            final(self).wf(),
        decreases fuel, expr,
    {
        match &expr.kind {
            ExprKind::Literal(LiteralKind::Int(i)) => Some(Value::Int(*i)),
            ExprKind::Literal(LiteralKind::Bool(b)) => Some(Value::Bool(*b)),
            ExprKind::UnaryExpr(ue) => {
                let operand = self.eval(&ue.child, fuel);
                match ue.op {
                    UnaryOp::Plus => operand,
                    UnaryOp::Minus => match operand {
                        Some(Value::Int(i)) => int_value(0i64.checked_sub(i)),
                        _ => None,
                    },
                }
            },
            ExprKind::BinaryExpr(be) => {
                let left = self.eval(&be.lhs, fuel);
                let right = self.eval(&be.rhs, fuel);
                match (left, right) {
                    (Some(Value::Int(l)), Some(Value::Int(r))) => match be.op {
                        BinaryOp::Add => int_value(l.checked_add(r)),
                        BinaryOp::Sub => int_value(l.checked_sub(r)),
                        BinaryOp::Mul => int_value(l.checked_mul(r)),
                        BinaryOp::LessThan => Some(Value::Bool(l < r)),
                        BinaryOp::GreaterThan => Some(Value::Bool(l > r)),
                    },
                    _ => None,
                }
            },
            ExprKind::Conditional(c) => match self.eval(&c.cond, fuel) {
                Some(Value::Bool(b)) => {
                    if b {
                        self.eval(&c.on_true, fuel)
                    } else {
                        self.eval(&c.on_false, fuel)
                    }
                },
                _ => None,
            },
            ExprKind::Block(exprs) => {
                let mut last: Option<Value> = None;
                let mut i: usize = 0;
                while i < exprs.len()
                    invariant
                        self.wf(),
                        decreases_to!(*expr => *exprs),
                        i <= exprs@.len(),
                    decreases exprs@.len() - i,
                {
                    proof {
                        assert(decreases_to!(*exprs => exprs@));
                        assert(decreases_to!(exprs@ => exprs@[i as int]));
                    }
                    last = self.eval(&exprs[i], fuel);
                    i += 1;
                }
                last
            },
            ExprKind::Function(f) => {
                self.env.insert(f.ident.name.clone(), Value::Function(f.clone()));
                None
            },
            ExprKind::Call(call) => {
                let func = match self.env.get(call.ident.name.as_str()) {
                    Some(Value::Function(f)) => f.clone(),
                    _ => return None,
                };
                let n = if func.params.len() < call.args.len() {
                    func.params.len()
                } else {
                    call.args.len()
                };
                let mut i: usize = 0;
                while i < n
                    invariant
                        self.wf(),
                        decreases_to!(*expr => call.args),
                        n <= call.args@.len(),
                        n <= func.params@.len(),
                        i <= n,
                    decreases n - i,
                {
                    proof {
                        assert(decreases_to!(call.args => call.args@));
                        assert(decreases_to!(call.args@ => call.args@[i as int]));
                    }
                    let arg = match self.eval(&call.args[i], fuel) {
                        Some(v) => v,
                        None => return None,
                    };
                    self.env.insert(func.params[i].ident.name.clone(), arg);
                    i += 1;
                }
                if fuel == 0 {
                    return None;
                }
                self.eval(&func.body, fuel - 1)
            },
            ExprKind::Identifier(ident) => match self.env.get(ident.name.as_str()) {
                Some(v) => Some(v.clone()),
                None => None,
            },
            ExprKind::Return(ret) => self.eval(&ret.value, fuel),
            ExprKind::Assignment(a) => {
                match self.eval(&a.value, fuel) {
                    Some(v) => self.env.insert(a.ident.name.clone(), v),
                    None => {},
                }
                None
            },
            ExprKind::Loop(l) => {
                let mut budget = fuel;
                loop
                    invariant
                        self.wf(),
                        budget <= fuel,
                        decreases_to!(*expr => l.cond),
                    decreases budget,
                {
                    match self.eval(&l.cond, budget) {
                        Some(Value::Bool(true)) => {},
                        _ => return None,
                    }
                    if budget == 0 {
                        return None;
                    }
                    budget -= 1;
                    self.eval(&l.body, budget);
                }
            },
        }
    }
}

} // verus!
