//! The inference engine as mathematics: one local step, one upward pass, the fixpoint
//! driver and the program driver, as functions on the model of the tree.
use vstd::prelude::*;

use crate::ast::{resolved_tree, BinaryOp, LiteralKind, Tree, TreeKind};
use crate::error::InferError;
use crate::infer::MAX_ITERATIONS;
use crate::types::{merge, unifiable, ScalarKind, Ty};

verus! {

/// Which error a run ends with.
pub enum Fault {
    Mismatch,
    Undefined,
    Arity,
    Unresolved,
    Looping,
    Ceiling,
}

/// The kind of an error value.
pub open spec fn fault_of(e: InferError) -> Fault {
    match e {
        InferError::TypeMismatch { .. } => Fault::Mismatch,
        InferError::UndefinedIdentifier { .. } => Fault::Undefined,
        InferError::ArityMismatch { .. } => Fault::Arity,
        InferError::CouldNotInfer => Fault::Unresolved,
        InferError::InferenceLoop => Fault::Looping,
        InferError::NoConvergence => Fault::Ceiling,
    }
}

pub type Env = Map<Seq<char>, Ty>;

/// The outcome of a step on one tree: the new tree, the new environment and whether
/// anything changed, or the error.
pub type Step = Result<(Tree, Env, bool), Fault>;

/// The outcome of a step on a sequence of trees.
pub type Steps = Result<(Seq<Tree>, Env, bool), Fault>;

/// `push` of `b` into `a`: their merge, when they are unifiable.
pub open spec fn push_ty(a: Ty, b: Ty) -> Option<Ty> {
    if unifiable(a, b) {
        Some(merge(a, b))
    } else {
        None
    }
}

/// `push_complete` of `b` into `a`: `b`, when `a` is `b` or `Unknown`.
pub open spec fn complete_ty(a: Ty, b: Ty) -> Option<Ty> {
    if a == b || a == Ty::Unknown {
        Some(b)
    } else {
        None
    }
}

/// The tree `t` with type `ty`.
pub open spec fn retyped(t: Tree, ty: Ty) -> Tree {
    Tree { kind: t.kind, ty }
}

/// Sets the node's type by `o` (the result of a `push` or `push_complete`).
pub open spec fn set_node(t: Tree, m: Env, o: Option<Ty>) -> Step {
    match o {
        Some(ty) => Ok((retyped(t, ty), m, ty != t.ty)),
        None => Err(Fault::Mismatch),
    }
}

/// The type of the last tree of `ts`, if there is one.
pub open spec fn last_ty(ts: Seq<Tree>) -> Option<Ty> {
    if ts.len() > 0 {
        Some(ts.last().ty)
    } else {
        None
    }
}

/// Syncs the parameter slots `slots` with the declared parameters `ps`, in order;
/// `None` at the first pair that does not unify.
pub open spec fn sync_params(slots: Seq<Ty>, ps: Seq<(Seq<char>, Ty)>, n: nat) -> Option<
    (Seq<Ty>, Seq<(Seq<char>, Ty)>, bool),
>
    decreases n,
{
    if n == 0 || n > slots.len() || n > ps.len() {
        if n == 0 {
            Some((slots, ps, false))
        } else {
            None
        }
    } else {
        match sync_params(slots, ps, (n - 1) as nat) {
            None => None,
            Some((s1, p1, c)) => {
                let i = n - 1;
                if unifiable(s1[i], p1[i].1) {
                    let x = merge(s1[i], p1[i].1);
                    Some((s1.update(i, x), p1.update(i, (p1[i].0, x)), c || x != s1[i] || x != p1[i].1))
                } else {
                    None
                }
            },
        }
    }
}

/// Local determination on one node (spec §4.2).
pub open spec fn local(t: Tree, m: Env) -> Step
    decreases t, 1nat,
{
    match t.kind {
        TreeKind::Identifier(id) => if m.contains_key(id) {
            set_node(t, m, push_ty(t.ty, m[id]))
        } else {
            Err(Fault::Undefined)
        },
        TreeKind::Literal(LiteralKind::Int(_)) => set_node(
            t,
            m,
            complete_ty(t.ty, Ty::Scalar(ScalarKind::Int)),
        ),
        TreeKind::Literal(LiteralKind::Bool(_)) => set_node(
            t,
            m,
            complete_ty(t.ty, Ty::Scalar(ScalarKind::Bool)),
        ),
        TreeKind::Unary(_, c) => if c.ty == Ty::Scalar(ScalarKind::Int) {
            set_node(t, m, push_ty(t.ty, c.ty))
        } else if c.ty == Ty::Unknown {
            Ok((t, m, false))
        } else {
            Err(Fault::Mismatch)
        },
        TreeKind::Binary(op, l, r) => {
            let comparison = op == BinaryOp::LessThan || op == BinaryOp::GreaterThan;
            if !unifiable(l.ty, r.ty) || (!comparison && !unifiable(merge(l.ty, r.ty), t.ty)) {
                Err(Fault::Mismatch)
            } else {
                let elem = if comparison {
                    merge(l.ty, r.ty)
                } else {
                    merge(merge(l.ty, r.ty), t.ty)
                };
                let l2 = merge(l.ty, elem);
                let r2 = merge(r.ty, elem);
                let node = if comparison {
                    complete_ty(t.ty, Ty::Scalar(ScalarKind::Bool))
                } else {
                    push_ty(t.ty, elem)
                };
                match node {
                    None => Err(Fault::Mismatch),
                    Some(ty) => Ok(
                        (
                            Tree {
                                kind: TreeKind::Binary(
                                    op,
                                    Box::new(retyped(*l, l2)),
                                    Box::new(retyped(*r, r2)),
                                ),
                                ty,
                            },
                            m,
                            l2 != l.ty || r2 != r.ty || ty != t.ty,
                        ),
                    ),
                }
            }
        },
        TreeKind::Return(v) => if unifiable(t.ty, v.ty) {
            let x = merge(t.ty, v.ty);
            Ok(
                (
                    Tree { kind: TreeKind::Return(Box::new(retyped(*v, x))), ty: x },
                    m,
                    x != t.ty || x != v.ty,
                ),
            )
        } else {
            Err(Fault::Mismatch)
        },
        TreeKind::Assignment(id, v) => {
            let bound = m.contains_key(id);
            if bound && !unifiable(m[id], v.ty) {
                Err(Fault::Mismatch)
            } else {
                let v1 = if bound {
                    merge(m[id], v.ty)
                } else {
                    v.ty
                };
                let m1 = m.insert(id, v1);
                let env_changed = !bound || v1 != m[id] || v1 != v.ty;
                if unifiable(t.ty, v1) {
                    let x = merge(t.ty, v1);
                    Ok(
                        (
                            Tree { kind: TreeKind::Assignment(id, Box::new(retyped(*v, x))), ty: x },
                            m1,
                            env_changed || x != t.ty || x != v1,
                        ),
                    )
                } else {
                    Err(Fault::Mismatch)
                }
            }
        },
        TreeKind::Conditional(c, a, b) => match complete_ty(c.ty, Ty::Scalar(ScalarKind::Bool)) {
            None => Err(Fault::Mismatch),
            Some(cty) => if !unifiable(t.ty, a.ty) {
                Err(Fault::Mismatch)
            } else {
                let x = merge(t.ty, a.ty);
                if !unifiable(x, b.ty) {
                    Err(Fault::Mismatch)
                } else {
                    let y = merge(x, b.ty);
                    Ok(
                        (
                            Tree {
                                kind: TreeKind::Conditional(
                                    Box::new(retyped(*c, cty)),
                                    Box::new(retyped(*a, x)),
                                    Box::new(retyped(*b, y)),
                                ),
                                ty: y,
                            },
                            m,
                            cty != c.ty || x != t.ty || x != a.ty || y != x || y != b.ty,
                        ),
                    )
                }
            },
        },
        TreeKind::Loop(_, _) => set_node(t, m, complete_ty(t.ty, Ty::Unit)),
        TreeKind::Function(name, ps, body) => {
            let shape = Ty::Function(Seq::new(ps.len(), |i: int| Ty::Unknown), Box::new(Ty::Unknown));
            if !unifiable(t.ty, shape) {
                Err(Fault::Mismatch)
            } else {
                let fty = merge(t.ty, shape);
                match signature(fty->Function_0, *fty->Function_1, ps, body, m) {
                    Err(f) => Err(f),
                    Ok((slots1, rt, ps1, body1, m1, c)) => Ok(
                        (
                            Tree {
                                kind: TreeKind::Function(name, ps1, body1),
                                ty: Ty::Function(slots1, Box::new(rt)),
                            },
                            m1,
                            fty != t.ty || c,
                        ),
                    ),
                }
            }
        },
        TreeKind::Call(callee, args) => match local_seq(args, m, args.len()) {
            Err(f) => Err(f),
            Ok((args1, m1, c)) => if !m1.contains_key(callee) {
                Err(Fault::Undefined)
            } else {
                match m1[callee] {
                    Ty::Function(params, ret) => if params.len() != args1.len() {
                        Err(Fault::Arity)
                    } else if exists|i: int| 0 <= i < args1.len() && args1[i].ty != params[i] {
                        Err(Fault::Mismatch)
                    } else {
                        Ok(
                            (
                                Tree { kind: TreeKind::Call(callee, args1), ty: *ret },
                                m1,
                                c || *ret != t.ty,
                            ),
                        )
                    },
                    _ => Err(Fault::Mismatch),
                }
            },
        },
        TreeKind::Block(v) => match local_seq(v, m, v.len()) {
            Err(f) => Err(f),
            Ok((v1, m1, c)) => {
                let node = match last_ty(v1) {
                    Some(last) => push_ty(t.ty, last),
                    None => complete_ty(t.ty, Ty::Unit),
                };
                match node {
                    None => Err(Fault::Mismatch),
                    Some(ty) => Ok(
                        (Tree { kind: TreeKind::Block(v1), ty }, m1, c || ty != t.ty),
                    ),
                }
            },
        },
    }
}

/// The rest of the rule for a function whose type is `Function(slots, ret)`: sync the
/// slots with the declared parameters, run local determination on the body, then sync
/// the return slot with the body's last expression (or make it `Unit` when the body is
/// empty).
pub open spec fn signature(
    slots: Seq<Ty>,
    ret: Ty,
    ps: Seq<(Seq<char>, Ty)>,
    body: Seq<Tree>,
    m: Env,
) -> Result<(Seq<Ty>, Ty, Seq<(Seq<char>, Ty)>, Seq<Tree>, Env, bool), Fault>
    decreases body, body.len() + 1,
{
    match sync_params(slots, ps, ps.len()) {
        None => Err(Fault::Mismatch),
        Some((slots1, ps1, c1)) => match local_seq(body, m, body.len()) {
            Err(f) => Err(f),
            Ok((body1, m1, c2)) => {
                let ret1 = match last_ty(body1) {
                    Some(last) => push_ty(ret, last),
                    None => complete_ty(ret, Ty::Unit),
                };
                match ret1 {
                    None => Err(Fault::Mismatch),
                    Some(rt) => {
                        let body2 = if body1.len() > 0 {
                            body1.update(body1.len() - 1, retyped(body1.last(), rt))
                        } else {
                            body1
                        };
                        let c3 = rt != ret || (body1.len() > 0 && rt != body1.last().ty);
                        Ok((slots1, rt, ps1, body2, m1, c1 || c2 || c3))
                    },
                }
            },
        },
    }
}

/// Whether an executable step's result `r`, with the tree `t` and environment `m` it
/// left, is the outcome `s`: on success exactly, on failure the kind of error.
pub open spec fn agrees(r: Result<bool, InferError>, t: Tree, m: Env, s: Step) -> bool {
    match s {
        Ok((t1, m1, c)) => r == Ok::<bool, InferError>(c) && t == t1 && m == m1,
        Err(f) => r is Err && fault_of(r->Err_0) == f,
    }
}

/// `agrees`, for a step on a sequence of trees.
pub open spec fn agrees_seq(r: Result<bool, InferError>, ts: Seq<Tree>, m: Env, s: Steps) -> bool {
    match s {
        Ok((ts1, m1, c)) => r == Ok::<bool, InferError>(c) && ts == ts1 && m == m1,
        Err(f) => r is Err && fault_of(r->Err_0) == f,
    }
}

/// Local determination on the first `n` trees of `ts`, in order, threading the
/// environment; the rest stay as they are.
pub open spec fn local_seq(ts: Seq<Tree>, m: Env, n: nat) -> Steps
    decreases ts, n,
{
    if n == 0 || n > ts.len() {
        if n == 0 {
            Ok((ts, m, false))
        } else {
            Err(Fault::Mismatch)
        }
    } else {
        match local_seq(ts, m, (n - 1) as nat) {
            Err(f) => Err(f),
            Ok((ts1, m1, c1)) => match local(ts[n - 1], m1) {
                Err(f) => Err(f),
                Ok((t2, m2, c2)) => Ok((ts1.update(n - 1, t2), m2, c1 || c2)),
            },
        }
    }
}

/// Once a prefix of the sequence fails, every longer prefix fails with the same error.
pub proof fn lemma_local_seq_fails(ts: Seq<Tree>, m: Env, k: nat, n: nat)
    requires
        k <= n <= ts.len(),
        local_seq(ts, m, k) is Err,
    ensures
        local_seq(ts, m, n) == local_seq(ts, m, k),
    decreases n - k,
{
    if k < n {
        lemma_local_seq_fails(ts, m, k, (n - 1) as nat);
    }
}

/// Once the syncing of a prefix of the parameters fails, syncing any longer prefix
/// fails too.
pub proof fn lemma_sync_params_fails(slots: Seq<Ty>, ps: Seq<(Seq<char>, Ty)>, k: nat, n: nat)
    requires
        k <= n,
        sync_params(slots, ps, k) is None,
    ensures
        sync_params(slots, ps, n) is None,
    decreases n - k,
{
    if k < n {
        lemma_sync_params_fails(slots, ps, k, (n - 1) as nat);
    }
}

/// `m` with the bindings of `ps` made one after another.
pub open spec fn bind_all(m: Env, ps: Seq<(Seq<char>, Ty)>) -> Env
    decreases ps.len(),
{
    if ps.len() == 0 {
        m
    } else {
        bind_all(m, ps.drop_last()).insert(ps.last().0, ps.last().1)
    }
}

/// What each binding of `ps`, made one after another on `m`, shadows.
pub open spec fn shadowed_by(m: Env, ps: Seq<(Seq<char>, Ty)>) -> Seq<
    (Seq<char>, Option<Ty>),
>
    decreases ps.len(),
{
    if ps.len() == 0 {
        Seq::empty()
    } else {
        let before = bind_all(m, ps.drop_last());
        let k = ps.last().0;
        shadowed_by(m, ps.drop_last()).push(
            (
                k,
                if before.contains_key(k) {
                    Some(before[k])
                } else {
                    None
                },
            ),
        )
    }
}

/// `m` with the records of `saved` undone, the latest first: a name gets back its
/// earlier type, or is removed when it had none.
pub open spec fn undo(m: Env, saved: Seq<(Seq<char>, Option<Ty>)>) -> Map<
    Seq<char>,
    Ty,
>
    decreases saved.len(),
{
    if saved.len() == 0 {
        m
    } else {
        let k = saved.last().0;
        let back = match saved.last().1 {
            Some(t) => m.insert(k, t),
            None => m.remove(k),
        };
        undo(back, saved.drop_last())
    }
}

/// Undoing the records of a run of parameter bindings gives back the environment as
/// it was before them: every shadowed binding is restored, and every name that was
/// unbound is unbound again.
pub proof fn law_restore_undoes_bindings(m: Env, ps: Seq<(Seq<char>, Ty)>)
    ensures
        undo(bind_all(m, ps), shadowed_by(m, ps)) == m,
    decreases ps.len(),
{
    if ps.len() > 0 {
        let rest = ps.drop_last();
        let before = bind_all(m, rest);
        let k = ps.last().0;
        let after = bind_all(m, ps);
        let records = shadowed_by(m, ps);
        assert(records.drop_last() == shadowed_by(m, rest));
        let back = match records.last().1 {
            Some(t) => after.insert(k, t),
            None => after.remove(k),
        };
        assert(back =~= before);
        law_restore_undoes_bindings(m, rest);
    }
}

/// One upward pass over a node (spec §4.3): a function's parameters are bound while its
/// children are visited, the bindings they shadowed are restored, and then local
/// determination runs on the node.
pub open spec fn up(t: Tree, m: Env) -> Step
    decreases t, 2nat,
{
    let (m1, rec1) = match t.kind {
        TreeKind::Function(_, ps, _) => (bind_all(m, ps), shadowed_by(m, ps)),
        _ => (m, Seq::empty()),
    };
    match descend(t, m1) {
        Err(f) => Err(f),
        Ok((t1, m2, c1, rec2)) => match local(t1, undo(m2, rec1 + rec2)) {
            Err(f) => Err(f),
            Ok((t2, m3, c2)) => Ok((t2, m3, c1 || c2)),
        },
    }
}

/// The structural part of a pass: the children, in order, with what each kind adds.
/// Besides the outcome it gives the records of the bindings a function's body shadows.
pub open spec fn descend(t: Tree, m: Env) -> Result<
    (Tree, Env, bool, Seq<(Seq<char>, Option<Ty>)>),
    Fault,
>
    decreases t, 1nat,
{
    let none = Seq::<(Seq<char>, Option<Ty>)>::empty();
    match t.kind {
        TreeKind::Identifier(_) | TreeKind::Literal(_) | TreeKind::Loop(_, _) => Ok((t, m, false, none)),
        TreeKind::Unary(op, c) => match up(*c, m) {
            Err(f) => Err(f),
            Ok((c1, m1, ch)) => Ok((Tree { kind: TreeKind::Unary(op, Box::new(c1)), ty: t.ty }, m1, ch, none)),
        },
        TreeKind::Binary(op, l, r) => match up(*l, m) {
            Err(f) => Err(f),
            Ok((l1, m1, c1)) => match up(*r, m1) {
                Err(f) => Err(f),
                Ok((r1, m2, c2)) => Ok(
                    (
                        Tree { kind: TreeKind::Binary(op, Box::new(l1), Box::new(r1)), ty: t.ty },
                        m2,
                        c1 || c2,
                        none,
                    ),
                ),
            },
        },
        TreeKind::Return(v) => match up(*v, m) {
            Err(f) => Err(f),
            Ok((v1, m1, c)) => Ok((Tree { kind: TreeKind::Return(Box::new(v1)), ty: t.ty }, m1, c, none)),
        },
        TreeKind::Assignment(id, v) => match up(*v, m) {
            Err(f) => Err(f),
            Ok((v1, m1, c)) => {
                let m2 = if m1.contains_key(id) {
                    m1
                } else {
                    m1.insert(id, v1.ty)
                };
                if unifiable(t.ty, v1.ty) {
                    let x = merge(t.ty, v1.ty);
                    Ok(
                        (
                            Tree { kind: TreeKind::Assignment(id, Box::new(retyped(v1, x))), ty: x },
                            m2,
                            c || x != t.ty || x != v1.ty,
                            none,
                        ),
                    )
                } else {
                    Err(Fault::Mismatch)
                }
            },
        },
        TreeKind::Conditional(a, b, d) => match up(*a, m) {
            Err(f) => Err(f),
            Ok((a1, m1, c1)) => match up(*b, m1) {
                Err(f) => Err(f),
                Ok((b1, m2, c2)) => match up(*d, m2) {
                    Err(f) => Err(f),
                    Ok((d1, m3, c3)) => Ok(
                        (
                            Tree {
                                kind: TreeKind::Conditional(Box::new(a1), Box::new(b1), Box::new(d1)),
                                ty: t.ty,
                            },
                            m3,
                            c1 || c2 || c3,
                            none,
                        ),
                    ),
                },
            },
        },
        TreeKind::Function(name, ps, body) => {
            let m1 = m.insert(name, t.ty);
            let m2 = bind_all(m1, ps);
            match up_seq(body, m2, body.len()) {
                Err(f) => Err(f),
                Ok((body1, m3, c)) => Ok(
                    (
                        Tree { kind: TreeKind::Function(name, ps, body1), ty: t.ty },
                        m3,
                        c,
                        shadowed_by(m1, ps),
                    ),
                ),
            }
        },
        TreeKind::Block(v) => match up_seq(v, m, v.len()) {
            Err(f) => Err(f),
            Ok((v1, m1, c)) => Ok((Tree { kind: TreeKind::Block(v1), ty: t.ty }, m1, c, none)),
        },
        TreeKind::Call(callee, args) => match up_seq(args, m, args.len()) {
            Err(f) => Err(f),
            Ok((args1, m1, c)) => if !m1.contains_key(callee) {
                Err(Fault::Undefined)
            } else if !unifiable(t.ty, m1[callee]) {
                Err(Fault::Mismatch)
            } else {
                let x = merge(t.ty, m1[callee]);
                Ok((Tree { kind: TreeKind::Call(callee, args1), ty: x }, m1, c || x != t.ty, none))
            },
        },
    }
}

/// One upward pass over each of the first `n` trees of `ts`, in order.
pub open spec fn up_seq(ts: Seq<Tree>, m: Env, n: nat) -> Steps
    decreases ts, n,
{
    if n == 0 || n > ts.len() {
        if n == 0 {
            Ok((ts, m, false))
        } else {
            Err(Fault::Mismatch)
        }
    } else {
        match up_seq(ts, m, (n - 1) as nat) {
            Err(f) => Err(f),
            Ok((ts1, m1, c1)) => match up(ts[n - 1], m1) {
                Err(f) => Err(f),
                Ok((t2, m2, c2)) => Ok((ts1.update(n - 1, t2), m2, c1 || c2)),
            },
        }
    }
}

/// Once a prefix of the sequence fails its pass, every longer prefix fails the same way.
pub proof fn lemma_up_seq_fails(ts: Seq<Tree>, m: Env, k: nat, n: nat)
    requires
        k <= n <= ts.len(),
        up_seq(ts, m, k) is Err,
    ensures
        up_seq(ts, m, n) == up_seq(ts, m, k),
    decreases n - k,
{
    if k < n {
        lemma_up_seq_fails(ts, m, k, (n - 1) as nat);
    }
}

/// The fixpoint driver (spec §4.4): at most `n` passes. A pass that changes nothing ends
/// the run, with the tree when it is resolved and `Unresolved` otherwise; a changing pass
/// that leaves the environment as the previous pass did ends it with `Looping`; `n`
/// changing passes end it with `Ceiling`. `prev` is the environment after the previous
/// pass, if there was one.
pub open spec fn drive(t: Tree, m: Env, n: nat, prev: Option<Env>) -> Result<(Tree, Env), Fault>
    decreases n,
{
    if n == 0 {
        Err(Fault::Ceiling)
    } else {
        match up(t, m) {
            Err(f) => Err(f),
            Ok((t1, m1, c)) => if !c {
                if resolved_tree(t1) {
                    Ok((t1, m1))
                } else {
                    Err(Fault::Unresolved)
                }
            } else if prev == Some(m1) {
                Err(Fault::Looping)
            } else {
                drive(t1, m1, (n - 1) as nat, Some(m1))
            },
        }
    }
}

/// The global environment of a program: each top-level function among the first `n`
/// trees bound to its type before inference.
pub open spec fn seed(ts: Seq<Tree>, n: nat) -> Env
    decreases n,
{
    if n == 0 || n > ts.len() {
        Map::empty()
    } else {
        match ts[n - 1].kind {
            TreeKind::Function(name, _, _) => seed(ts, (n - 1) as nat).insert(name, ts[n - 1].ty),
            _ => seed(ts, (n - 1) as nat),
        }
    }
}

/// The program driver (spec §4.4): each of the first `n` trees, in order, driven to its
/// fixpoint on its own copy of the global environment `g`; the first failure ends the run.
pub open spec fn run_all(ts: Seq<Tree>, g: Env, n: nat) -> Result<Seq<Tree>, Fault>
    decreases n,
{
    if n == 0 || n > ts.len() {
        Ok(ts)
    } else {
        match run_all(ts, g, (n - 1) as nat) {
            Err(f) => Err(f),
            Ok(ts1) => match drive(ts[n - 1], g, MAX_ITERATIONS as nat, None) {
                Err(f) => Err(f),
                Ok((t, _)) => Ok(ts1.update(n - 1, t)),
            },
        }
    }
}

/// Once a prefix of the program fails, every longer prefix fails the same way.
pub proof fn lemma_run_all_fails(ts: Seq<Tree>, g: Env, k: nat, n: nat)
    requires
        k <= n <= ts.len(),
        run_all(ts, g, k) is Err,
    ensures
        run_all(ts, g, n) == run_all(ts, g, k),
    decreases n - k,
{
    if k < n {
        lemma_run_all_fails(ts, g, k, (n - 1) as nat);
    }
}

} // verus!
