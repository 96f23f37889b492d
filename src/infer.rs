//! Type inference: local determination, upward propagation, and the fixpoint drivers.
use vstd::prelude::*;

use crate::ast::{
    lemma_resolved_tree, param_views, trees, Tree, TreeKind, fully_typed, BinaryOp, Call, Expr, ExprKind, Function, Identifier, LiteralKind, Parameter,
};
use crate::env::TypeEnv;
use crate::error::InferError;
use crate::rules::{
    drive, lemma_run_all_fails, run_all, seed, bind_all, descend, lemma_up_seq_fails, shadowed_by, undo, up, up_seq,
    agrees, agrees_seq, fault_of, lemma_local_seq_fails, lemma_sync_params_fails, retyped, sync_params, local, local_seq, signature, Env, Fault,
};
use crate::types::{
    lemma_merge_into_refinement, lemma_merge_refines, lemma_refines_transitive, merge, unifiable,
    ScalarKind, Ty, Type,
};

verus! {

broadcast use {crate::ast::lemma_tree_ty, crate::ast::lemma_tree_kind};

/// The most passes the fixpoint driver makes over one top-level expression.
pub const MAX_ITERATIONS: usize = 1024;

/// A vector of `n` unknown types.
fn unknowns(n: usize) -> (r: Vec<Type>)
    ensures
        r@.len() == n,
        forall|i: int| 0 <= i < n ==> (#[trigger] r@[i])@ == Ty::Unknown,
{
    let mut v: Vec<Type> = Vec::new();
    let mut i: usize = 0;
    while i < n
        invariant
            i <= n,
            v@.len() == i,
            forall|j: int| 0 <= j < i ==> (#[trigger] v@[j])@ == Ty::Unknown,
        decreases n - i,
    {
        v.push(Type::Unknown);
        i += 1;
    }
    v
}

/// The model of each type of `v`.
pub open spec fn types_view(v: Seq<Type>) -> Seq<Ty> {
    Seq::new(v.len(), |i: int| v[i]@)
}

/// The model of a function node whose type is `ty`.
pub open spec fn fn_tree(ty: Type, f: Function) -> Tree {
    Tree {
        kind: TreeKind::Function(f.ident@, param_views(f.params@), trees((*f.body)@)),
        ty: ty@,
    }
}

/// The model of a call node whose type is `ty`.
pub open spec fn call_tree(ty: Type, c: Call) -> Tree {
    Tree { kind: TreeKind::Call(c.ident@, trees(c.args@)), ty: ty@ }
}

/// The errors that a single propagation step can report; the others come from the
/// fixpoint driver alone.
pub open spec fn step_error(err: InferError) -> bool {
    err is TypeMismatch || err is UndefinedIdentifier || err is ArityMismatch
}

/// Refines the type of `e` alone from the types its children already carry.
pub fn infer_locally(e: &mut Expr, env: &mut TypeEnv) -> (r: Result<bool, InferError>)
    requires
        old(env).wf(),
    ensures
        r is Err ==> step_error(r->Err_0),
        final(env).wf(),
        agrees(r, final(e).tree(), final(env)@, local(old(e).tree(), old(env)@)),
    decreases *old(e), 0nat,
{
    let ghost t0 = old(e).tree();
    match &mut e.kind {
        ExprKind::Identifier(ident) => {
            assert(t0.kind == TreeKind::Identifier(ident@));
            match env.get(ident) {
                Some(t) => e.ty.push(t),
                None => Err(InferError::UndefinedIdentifier { name: ident.name.clone() }),
            }
        },
        ExprKind::Literal(l) => {
            assert(t0.kind == TreeKind::Literal(*l));
            match l {
                LiteralKind::Int(_) => e.ty.push_complete(Type::Scalar(ScalarKind::Int)),
                LiteralKind::Bool(_) => e.ty.push_complete(Type::Scalar(ScalarKind::Bool)),
            }
        },
        ExprKind::UnaryExpr(u) => {
            assert(t0.kind == TreeKind::Unary(u.op, Box::new(u.child.tree())));
            match &u.child.ty {
            Type::Scalar(k) => {
                if k.is_numeric() {
                    e.ty.push(&u.child.ty)
                } else {
                    Err(
                        InferError::TypeMismatch {
                            expected: Type::Scalar(ScalarKind::Int),
                            found: u.child.ty.clone(),
                        },
                    )
                }
            },
            Type::Unknown => Ok(false),
            _ => Err(
                InferError::TypeMismatch {
                    expected: Type::Scalar(ScalarKind::Int),
                    found: u.child.ty.clone(),
                },
            ),
            }
        },
        ExprKind::BinaryExpr(b) => {
            assert(t0.kind == TreeKind::Binary(b.op, Box::new(b.lhs.tree()), Box::new(b.rhs.tree())));
            assert(merge(Ty::Unknown, b.lhs.ty@) == b.lhs.ty@);
            let mut elem_type = Type::Unknown;
            elem_type.push(&b.lhs.ty)?;
            elem_type.push(&b.rhs.ty)?;
            let ghost joined = elem_type@;
            proof {
                lemma_merge_refines(b.lhs.ty@, b.rhs.ty@);
            }
            let comparison = b.op.is_comparison();
            if !comparison {
                elem_type.push(&e.ty)?;
                proof {
                    lemma_merge_refines(joined, e.ty@);
                    lemma_refines_transitive(elem_type@, joined, b.lhs.ty@);
                    lemma_refines_transitive(elem_type@, joined, b.rhs.ty@);
                    lemma_merge_into_refinement(e.ty@, elem_type@);
                }
            }
            proof {
                lemma_merge_into_refinement(b.lhs.ty@, elem_type@);
                lemma_merge_into_refinement(b.rhs.ty@, elem_type@);
            }
            let into_lhs = b.lhs.ty.push(&elem_type)?;
            let into_rhs = b.rhs.ty.push(&elem_type)?;
            let into_node = if comparison {
                e.ty.push_complete(Type::Scalar(ScalarKind::Bool))?
            } else {
                e.ty.push(&elem_type)?
            };
            assert(b.lhs.tree() == retyped(*t0.kind->Binary_1, b.lhs.ty@));
            assert(b.rhs.tree() == retyped(*t0.kind->Binary_2, b.rhs.ty@));
            Ok(into_lhs || into_rhs || into_node)
        },
        ExprKind::Return(ret) => {
            assert(t0.kind == TreeKind::Return(Box::new(ret.value.tree())));
            let ghost v0 = ret.value.tree();
            let r = e.ty.sync(&mut ret.value.ty);
            assert(r is Ok ==> ret.value.tree() == retyped(v0, ret.value.ty@));
            r
        },
        ExprKind::Assignment(a) => {
            assert(t0.kind == TreeKind::Assignment(a.ident@, Box::new(a.value.tree())));
            let ghost m0 = env@;
            let ghost vt0 = a.value.ty@;
            proof {
                if m0.contains_key(a.ident@) && unifiable(m0[a.ident@], vt0) && merge(m0[a.ident@], vt0)
                    == m0[a.ident@] {
                    assert(m0.insert(a.ident@, m0[a.ident@]) =~= m0);
                }
            }
            let bound = if env.contains_key(&a.ident) {
                env.sync_binding(&a.ident, &mut a.value.ty)?
            } else {
                env.insert(a.ident.duplicate(), a.value.ty.clone());
                true
            };
            let ghost v0 = t0.kind->Assignment_1;
            let node = e.ty.sync(&mut a.value.ty)?;
            assert(a.value.tree() == retyped(*v0, a.value.ty@));
            Ok(bound || node)
        },
        ExprKind::Conditional(c) => {
            assert(t0.kind == TreeKind::Conditional(
                Box::new(c.cond.tree()),
                Box::new(c.on_true.tree()),
                Box::new(c.on_false.tree()),
            ));
            let cond = c.cond.ty.push_complete(Type::Scalar(ScalarKind::Bool))?;
            let on_true = e.ty.sync(&mut c.on_true.ty)?;
            let on_false = e.ty.sync(&mut c.on_false.ty)?;
            assert(c.cond.tree() == retyped(*t0.kind->Conditional_0, c.cond.ty@));
            assert(c.on_true.tree() == retyped(*t0.kind->Conditional_1, c.on_true.ty@));
            assert(c.on_false.tree() == retyped(*t0.kind->Conditional_2, c.on_false.ty@));
            Ok(cond || on_true || on_false)
        },
        ExprKind::Loop(_) => {
            assert(t0.kind is Loop);
            e.ty.push_complete(Type::Unit)
        },
        ExprKind::Function(f) => {
            assert(t0 == fn_tree(e.ty, *f));
            infer_function(&mut e.ty, f, env)
        },
        ExprKind::Call(c) => {
            assert(t0 == call_tree(e.ty, *c));
            infer_call(&mut e.ty, c, env)
        },
        ExprKind::Block(b) => {
            assert(t0.kind == TreeKind::Block(trees(b.exprs@)));
            let changed = infer_each_locally(&mut b.exprs, env)?;
            let n = b.exprs.len();
            assert(n > 0 ==> trees(b.exprs@)[n - 1] == b.exprs@[n - 1].tree());
            let node = if n > 0 {
                e.ty.push(&b.exprs[n - 1].ty)?
            } else {
                e.ty.push_complete(Type::Unit)?
            };
            Ok(changed || node)
        },
    }
}

/// Runs local determination on each expression of `exprs`, in order.
fn infer_each_locally(exprs: &mut Vec<Expr>, env: &mut TypeEnv) -> (r: Result<bool, InferError>)
    requires
        old(env).wf(),
    ensures
        r is Err ==> step_error(r->Err_0),
        final(env).wf(),
        final(exprs)@.len() == old(exprs)@.len(),
        agrees_seq(
            r,
            trees(final(exprs)@),
            final(env)@,
            local_seq(trees(old(exprs)@), old(env)@, old(exprs)@.len()),
        ),
    decreases *old(exprs), 0nat,
{
    let ghost ots = trees(old(exprs)@);
    let ghost m0 = old(env)@;
    let mut changed = false;
    let mut i: usize = 0;
    while i < exprs.len()
        invariant
            env.wf(),
            i <= exprs@.len(),
            exprs@.len() == old(exprs)@.len(),
            ots == trees(old(exprs)@),
            m0 == old(env)@,
            forall|j: int| i <= j < exprs@.len() ==> exprs@[j] == old(exprs)@[j],
            local_seq(ots, m0, i as nat) == Ok::<(Seq<Tree>, Env, bool), Fault>(
                (trees(exprs@), env@, changed),
            ),
        decreases exprs@.len() - i,
    {
        proof {
            assert(decreases_to!(*old(exprs) => old(exprs)@[i as int]));
        }
        let ghost prev = exprs@;
        let ghost before = env@;
        assert(ots[i as int] == prev[i as int].tree());
        let c = match infer_locally(&mut exprs[i], env) {
            Ok(c) => c,
            Err(err) => {
                proof {
                    lemma_local_seq_fails(ots, m0, (i + 1) as nat, ots.len());
                }
                return Err(err);
            },
        };
        proof {
            assert(exprs@ =~= prev.update(i as int, exprs@[i as int]));
            assert(trees(exprs@) =~= trees(prev).update(i as int, exprs@[i as int].tree()));
        }
        changed = changed || c;
        i += 1;
    }
    Ok(changed)
}

/// Local determination for a function node whose type is `ty`.
fn infer_function(ty: &mut Type, f: &mut Function, env: &mut TypeEnv) -> (r: Result<bool, InferError>)
    requires
        old(env).wf(),
    ensures
        agrees(r, fn_tree(*final(ty), *final(f)), final(env)@, local(fn_tree(*old(ty), *old(f)), old(env)@)),
        r is Err ==> step_error(r->Err_0),
        final(env).wf(),
        r is Ok ==> {
            &&& final(f).params@.len() == old(f).params@.len()
            &&& final(ty)@ is Function
            &&& final(ty)@->Function_0.len() == old(f).params@.len()
            &&& forall|i: int|
                0 <= i < old(f).params@.len() ==> final(ty)@->Function_0[i]
                    == (#[trigger] final(f).params@[i]).ty@
            &&& old(f).body@.len() == 0 ==> *final(ty)@->Function_1 == Ty::Unit
            &&& old(f).body@.len() > 0 ==> final(f).body@.len() == old(f).body@.len()
                && *final(ty)@->Function_1 == final(f).body@[old(f).body@.len() - 1].ty@
        },
    decreases *old(f), 0nat,
{
    let n = f.params.len();
    let shape = Type::Function(unknowns(n), Box::new(Type::Unknown));
    assert(shape@->Function_0 =~= Seq::new(param_views(f.params@).len(), |i: int| Ty::Unknown));
    assert(Type::Unknown.model() == Ty::Unknown);
    assert(*shape@->Function_1 == Ty::Unknown);
    assert(shape@ == Ty::Function(
        Seq::new(param_views(f.params@).len(), |i: int| Ty::Unknown),
        Box::new(Ty::Unknown),
    ));
    let changed = ty.push(&shape)?;
    assert(shape@->Function_0.len() == n);
    assert(ty@ is Function && ty@->Function_0.len() == n);
    let ghost fty = ty@;
    match ty {
        Type::Function(slots, ret) => {
            assert(slots@.len() == n);
            assert(types_view(slots@) =~= fty->Function_0);
            let mut body: Vec<Expr> = Vec::new();
            std::mem::swap(&mut body, &mut *f.body);
            assert(decreases_to!(*old(f) => body));
            assert(body == *old(f).body && f.params == old(f).params && f.ident == old(f).ident);
            let r = infer_signature(slots, ret, &mut f.params, &mut body, env);
            std::mem::swap(&mut body, &mut *f.body);
            proof {
                if r is Ok {
                    assert(Type::Function(*slots, *ret)@->Function_0 =~= types_view(slots@));
                }
            }
            match r {
                Ok(c) => Ok(changed || c),
                Err(err) => Err(err),
            }
        },
        _ => {
            assert(false);
            Ok(changed)
        },
    }
}

/// Syncs a function type's parameter slots with the declared parameters, runs local
/// determination on the body, and syncs the return slot with the body's last expression.
fn infer_signature(
    slots: &mut Vec<Type>,
    ret: &mut Box<Type>,
    params: &mut Vec<Parameter>,
    body: &mut Vec<Expr>,
    env: &mut TypeEnv,
) -> (r: Result<bool, InferError>)
    requires
        old(env).wf(),
        old(slots)@.len() == old(params)@.len(),
    ensures
        match signature(
            types_view(old(slots)@),
            (**old(ret))@,
            param_views(old(params)@),
            trees(old(body)@),
            old(env)@,
        ) {
            Ok((s1, rt, p1, b1, m1, c)) => r == Ok::<bool, InferError>(c) && types_view(final(slots)@)
                == s1 && (**final(ret))@ == rt && param_views(final(params)@) == p1 && trees(
                final(body)@,
            ) == b1 && final(env)@ == m1,
            Err(f) => r is Err && fault_of(r->Err_0) == f,
        },
        r is Err ==> step_error(r->Err_0),
        final(env).wf(),
        final(slots)@.len() == old(slots)@.len(),
        r is Ok ==> {
            &&& final(params)@.len() == old(params)@.len()
            &&& forall|i: int|
                0 <= i < old(params)@.len() ==> (#[trigger] final(slots)@[i])@
                    == final(params)@[i].ty@
            &&& old(body)@.len() == 0 ==> (*final(ret))@ == Ty::Unit
            &&& old(body)@.len() > 0 ==> final(body)@.len() == old(body)@.len()
                && (*final(ret))@ == final(body)@[old(body)@.len() - 1].ty@
        },
    decreases *old(body), 1nat,
{
    let n = params.len();
    let ghost s0 = types_view(old(slots)@);
    let ghost p0 = param_views(old(params)@);
    let mut changed = false;
    let mut i: usize = 0;
    while i < n
        invariant
            env.wf(),
            n == params@.len(),
            slots@.len() == n,
            slots@.len() == old(slots)@.len(),
            forall|j: int| 0 <= j < i ==> (#[trigger] slots@[j])@ == params@[j].ty@,
            i <= n,
            s0 == types_view(old(slots)@),
            p0 == param_views(old(params)@),
            n == old(params)@.len(),
            *env == *old(env),
            sync_params(s0, p0, i as nat) == Some((types_view(slots@), param_views(params@), changed)),
        decreases n - i,
    {
        let ghost ps = slots@;
        let ghost pp = params@;
        let c = match slots[i].sync(&mut params[i].ty) {
            Ok(c) => c,
            Err(err) => {
                proof {
                    lemma_sync_params_fails(s0, p0, (i + 1) as nat, n as nat);
                }
                return Err(err);
            },
        };
        proof {
            assert(slots@ =~= ps.update(i as int, slots@[i as int]));
            assert(types_view(slots@) =~= types_view(ps).update(i as int, slots@[i as int]@));
            assert(param_views(params@) =~= param_views(pp).update(
                i as int,
                (pp[i as int].ident@, params@[i as int].ty@),
            ));
        }
        changed = changed || c;
        i += 1;
    }
    let ghost b0 = trees(old(body)@);
    let in_body = infer_each_locally(body, env)?;
    let m = body.len();
    assert(trees(body@).len() == m);
    assert(m > 0 ==> trees(body@)[m - 1] == body@[m - 1].tree());
    let ghost before = body@;
    let result = if m > 0 {
        ret.sync(&mut body[m - 1].ty)?
    } else {
        ret.push_complete(Type::Unit)?
    };
    proof {
        if m > 0 {
            assert(body@ =~= before.update(m - 1, body@[m - 1]));
            assert(trees(body@) =~= trees(before).update(
                m - 1,
                retyped(trees(before).last(), body@[m - 1].ty@),
            ));
        } else {
            assert(body@ =~= before);
        }
    }
    Ok(changed || in_body || result)
}

/// Local determination for a call node whose type is `ty`.
fn infer_call(ty: &mut Type, c: &mut Call, env: &mut TypeEnv) -> (r: Result<bool, InferError>)
    requires
        old(env).wf(),
    ensures
        agrees(r, call_tree(*final(ty), *final(c)), final(env)@, local(call_tree(*old(ty), *old(c)), old(env)@)),
        r is Err ==> step_error(r->Err_0),
        final(env).wf(),
        final(c).ident == old(c).ident,
        r is Ok ==> {
            &&& final(env)@.contains_key(old(c).ident@)
            &&& final(env)@[old(c).ident@] is Function
            &&& final(env)@[old(c).ident@]->Function_0.len() == old(c).args@.len()
            &&& final(c).args@.len() == old(c).args@.len()
            &&& forall|i: int|
                0 <= i < old(c).args@.len() ==> (#[trigger] final(c).args@[i]).ty@
                    == final(env)@[old(c).ident@]->Function_0[i]
            &&& final(ty)@ == *final(env)@[old(c).ident@]->Function_1
        },
    decreases *old(c), 0nat,
{
    let ghost t0 = call_tree(*ty, *c);
    let args = match infer_each_locally(&mut c.args, env) {
        Ok(changed) => changed,
        Err(err) => return Err(err),
    };
    let ghost cargs = c.args@;
    let ghost ty0 = *ty;
    assert(trees(c.args@).len() == c.args@.len());
    match env.get(&c.ident) {
        None => Err(InferError::UndefinedIdentifier { name: c.ident.name.clone() }),
        Some(Type::Function(params, ret)) => {
            if params.len() != c.args.len() {
                return Err(
                    InferError::ArityMismatch {
                        name: c.ident.name.clone(),
                        params: params.len(),
                        args: c.args.len(),
                    },
                );
            }
            let mut i: usize = 0;
            assert(env@[c.ident@]->Function_0.len() == params@.len());
            while i < params.len()
                invariant
                    env.wf(),
                    params@.len() == c.args@.len(),
                    i <= params@.len(),
                    env@.contains_key(c.ident@),
                    env@[c.ident@] == Type::Function(*params, *ret)@,
                    c.ident == old(c).ident,
                    c.args@ == cargs,
                    *ty == ty0,
                    ty0 == *old(ty),
                    local_seq(trees(old(c).args@), old(env)@, old(c).args@.len()) == Ok::<
                        (Seq<Tree>, Env, bool),
                        Fault,
                    >((trees(cargs), env@, args)),
                    forall|j: int| 0 <= j < i ==> (#[trigger] c.args@[j]).ty@ == params@[j]@,
                decreases params@.len() - i,
            {
                if !c.args[i].ty.same_as(&params[i]) {
                    assert(trees(c.args@)[i as int] == c.args@[i as int].tree());
                    assert(trees(c.args@)[i as int].ty != env@[c.ident@]->Function_0[i as int]);
                    return Err(
                        InferError::TypeMismatch {
                            expected: params[i].clone(),
                            found: c.args[i].ty.clone(),
                        },
                    );
                }
                i += 1;
            }
            assert forall|j: int| 0 <= j < c.args@.len() implies (#[trigger] c.args@[j]).ty@
                == env@[c.ident@]->Function_0[j] by {
                assert(c.args@[j].ty@ == params@[j]@);
            }
            assert(forall|j: int| 0 <= j < c.args@.len() ==> trees(c.args@)[j] == c.args@[j].tree());
            let result = (**ret).clone();
            let node = !ty.same_as(&result);
            *ty = result;
            Ok(args || node)
        },
        Some(other) => Err(
            InferError::TypeMismatch {
                expected: Type::Function(unknowns(c.args.len()), Box::new(Type::Unknown)),
                found: other.clone(),
            },
        ),
    }
}

/// A binding shadowed while descending into a function: the name, and what it was bound to.
type Shadowed = (Identifier, Option<Type>);

/// A parameter as the environment sees it: its name and its type.
pub open spec fn param_view(p: Parameter) -> (Seq<char>, Ty) {
    (p.ident@, p.ty@)
}

/// A shadowing record as the environment sees it: the name and its earlier type, if any.
pub open spec fn shadowed_view(s: Shadowed) -> (Seq<char>, Option<Ty>) {
    (
        s.0@,
        match s.1 {
            Some(t) => Some(t@),
            None => None,
        },
    )
}

/// The parameters of `v` as the environment sees them.
pub open spec fn params_view(v: Seq<Parameter>) -> Seq<(Seq<char>, Ty)> {
    v.map_values(|p: Parameter| param_view(p))
}

/// The records of `v` as the environment sees them.
pub open spec fn records_view(v: Seq<Shadowed>) -> Seq<(Seq<char>, Option<Ty>)> {
    v.map_values(|s: Shadowed| shadowed_view(s))
}

/// Binds each parameter to its declared type, recording what each binding shadowed.
fn bind_params(params: &Vec<Parameter>, env: &mut TypeEnv, saved: &mut Vec<Shadowed>)
    requires
        old(env).wf(),
    ensures
        final(env).wf(),
        final(saved)@.len() == old(saved)@.len() + params@.len(),
        final(env)@ == bind_all(old(env)@, params_view(params@)),
        records_view(final(saved)@) == records_view(old(saved)@) + shadowed_by(old(env)@, params_view(params@)),
{
    let ghost ps = params_view(params@);
    let mut i: usize = 0;
    while i < params.len()
        invariant
            env.wf(),
            i <= params@.len(),
            ps == params_view(params@),
            saved@.len() == old(saved)@.len() + i,
            env@ == bind_all(old(env)@, ps.take(i as int)),
            records_view(saved@) == records_view(old(saved)@) + shadowed_by(old(env)@, ps.take(i as int)),
        decreases params@.len() - i,
    {
        let p = &params[i];
        let ghost before = env@;
        let ghost prev_saved = saved@;
        let previous = env.insert(p.ident.duplicate(), p.ty.clone());
        saved.push((p.ident.duplicate(), previous));
        proof {
            let next = ps.take(i + 1);
            assert(next.drop_last() =~= ps.take(i as int));
            assert(next.last() == param_view(params@[i as int]));
            let k = next.last().0;
            let rec = shadowed_view(saved@[saved@.len() - 1]);
            assert(rec == (k, if before.contains_key(k) { Some(before[k]) } else { None }));
            assert(shadowed_by(old(env)@, next) == shadowed_by(old(env)@, ps.take(i as int)).push(
                rec,
            ));
            assert(saved@ == prev_saved.push(saved@[saved@.len() - 1]));
            assert(records_view(saved@) =~= records_view(prev_saved).push(rec));
            assert(records_view(saved@) =~= records_view(old(saved)@) + shadowed_by(old(env)@, next));
        }
        i += 1;
    }
    proof {
        assert(ps.take(params@.len() as int) =~= ps);
    }
}

/// Undoes recorded bindings, the latest first: each name gets back what it was bound
/// to, or is removed if it was unbound.
fn restore(env: &mut TypeEnv, saved: &mut Vec<Shadowed>)
    requires
        old(env).wf(),
    ensures
        final(env).wf(),
        final(saved)@.len() == 0,
        final(env)@ == undo(old(env)@, records_view(old(saved)@)),
{
    while saved.len() > 0
        invariant
            env.wf(),
            undo(env@, records_view(saved@)) == undo(
                old(env)@,
                records_view(old(saved)@),
            ),
        decreases saved@.len(),
    {
        let ghost before = records_view(saved@);
        let ghost prev_saved = saved@;
        let (name, previous) = saved.pop().unwrap();
        match previous {
            Some(t) => {
                env.insert(name, t);
            },
            None => {
                env.remove(&name);
            },
        }
        proof {
            assert(saved@ =~= prev_saved.drop_last());
            assert(records_view(saved@) =~= before.drop_last());
        }
    }
    proof {
        assert(records_view(saved@) =~= Seq::<(Seq<char>, Option<Ty>)>::empty());
    }
}

/// Upward propagation over each expression of `exprs`, in order.
fn infer_each_up(exprs: &mut Vec<Expr>, env: &mut TypeEnv) -> (r: Result<bool, InferError>)
    requires
        old(env).wf(),
    ensures
        r is Err ==> step_error(r->Err_0),
        final(env).wf(),
        final(exprs)@.len() == old(exprs)@.len(),
        agrees_seq(
            r,
            trees(final(exprs)@),
            final(env)@,
            up_seq(trees(old(exprs)@), old(env)@, old(exprs)@.len()),
        ),
    decreases *old(exprs), 0nat,
{
    let ghost ots = trees(old(exprs)@);
    let ghost m0 = old(env)@;
    let mut changed = false;
    let mut i: usize = 0;
    while i < exprs.len()
        invariant
            env.wf(),
            i <= exprs@.len(),
            exprs@.len() == old(exprs)@.len(),
            ots == trees(old(exprs)@),
            m0 == old(env)@,
            forall|j: int| i <= j < exprs@.len() ==> exprs@[j] == old(exprs)@[j],
            up_seq(ots, m0, i as nat) == Ok::<(Seq<Tree>, Env, bool), Fault>(
                (trees(exprs@), env@, changed),
            ),
        decreases exprs@.len() - i,
    {
        proof {
            assert(decreases_to!(*old(exprs) => old(exprs)@[i as int]));
        }
        let ghost prev = exprs@;
        assert(ots[i as int] == prev[i as int].tree());
        let c = match infer_up(&mut exprs[i], env) {
            Ok(c) => c,
            Err(err) => {
                proof {
                    lemma_up_seq_fails(ots, m0, (i + 1) as nat, ots.len());
                }
                return Err(err);
            },
        };
        proof {
            assert(exprs@ =~= prev.update(i as int, exprs@[i as int]));
            assert(trees(exprs@) =~= trees(prev).update(i as int, exprs@[i as int].tree()));
        }
        changed = changed || c;
        i += 1;
    }
    Ok(changed)
}

/// The structural part of upward propagation: recurses into the children of `e`.
#[verifier::rlimit(100)]
fn propagate_children(e: &mut Expr, env: &mut TypeEnv, saved: &mut Vec<Shadowed>) -> (r: Result<
    bool,
    InferError,
>)
    requires
        old(env).wf(),
    ensures
        r is Err ==> step_error(r->Err_0),
        final(env).wf(),
        match descend(old(e).tree(), old(env)@) {
            Ok((t1, m1, c, rec)) => r == Ok::<bool, InferError>(c) && final(e).tree() == t1
                && final(env)@ == m1 && records_view(final(saved)@) == records_view(old(saved)@)
                + rec,
            Err(f) => r is Err && fault_of(r->Err_0) == f,
        },
    decreases *old(e), 1nat,
{
    let ghost t0 = old(e).tree();
    assert(records_view(old(saved)@) + Seq::<(Seq<char>, Option<Ty>)>::empty() =~= records_view(
        old(saved)@,
    ));
    match &mut e.kind {
        ExprKind::Identifier(_) | ExprKind::Literal(_) | ExprKind::Loop(_) => Ok(false),
        ExprKind::UnaryExpr(u) => {
            assert(t0.kind == TreeKind::Unary(u.op, Box::new(u.child.tree())));
            infer_up(&mut u.child, env)
        },
        ExprKind::BinaryExpr(b) => {
            assert(t0.kind == TreeKind::Binary(b.op, Box::new(b.lhs.tree()), Box::new(b.rhs.tree())));
            let lhs = infer_up(&mut b.lhs, env)?;
            let rhs = infer_up(&mut b.rhs, env)?;
            Ok(lhs || rhs)
        },
        ExprKind::Return(ret) => {
            assert(t0.kind == TreeKind::Return(Box::new(ret.value.tree())));
            infer_up(&mut ret.value, env)
        },
        ExprKind::Assignment(a) => {
            assert(t0.kind == TreeKind::Assignment(a.ident@, Box::new(a.value.tree())));
            let value = infer_up(&mut a.value, env)?;
            let ghost v1 = a.value.tree();
            if !env.contains_key(&a.ident) {
                env.insert(a.ident.duplicate(), a.value.ty.clone());
            }
            let node = e.ty.sync(&mut a.value.ty)?;
            assert(a.value.tree() == retyped(v1, a.value.ty@));
            Ok(value || node)
        },
        ExprKind::Function(f) => {
            assert(t0 == fn_tree(e.ty, *f));
            assert(params_view(f.params@) =~= param_views(f.params@));
            env.insert(f.ident.duplicate(), e.ty.clone());
            bind_params(&f.params, env, saved);
            let mut body: Vec<Expr> = Vec::new();
            std::mem::swap(&mut body, &mut *f.body);
            assert(decreases_to!(*old(e) => body));
            let r = infer_each_up(&mut body, env);
            std::mem::swap(&mut body, &mut *f.body);
            r
        },
        ExprKind::Block(b) => {
            assert(t0.kind == TreeKind::Block(trees(b.exprs@)));
            infer_each_up(&mut b.exprs, env)
        },
        ExprKind::Conditional(c) => {
            assert(t0.kind == TreeKind::Conditional(
                Box::new(c.cond.tree()),
                Box::new(c.on_true.tree()),
                Box::new(c.on_false.tree()),
            ));
            let cond = infer_up(&mut c.cond, env)?;
            let on_true = infer_up(&mut c.on_true, env)?;
            let on_false = infer_up(&mut c.on_false, env)?;
            Ok(cond || on_true || on_false)
        },
        ExprKind::Call(c) => {
            assert(t0 == call_tree(e.ty, *c));
            let args = infer_each_up(&mut c.args, env)?;
            match env.get(&c.ident) {
                Some(t) => {
                    let node = e.ty.push(t)?;
                    Ok(args || node)
                },
                None => Err(InferError::UndefinedIdentifier { name: c.ident.name.clone() }),
            }
        },
    }
}

/// One pass of upward propagation over `e`, children first.
///
/// The parameters of a function are bound while its children are visited, and the
/// bindings they shadowed are restored before local determination runs on `e` itself.
pub fn infer_up(e: &mut Expr, env: &mut TypeEnv) -> (r: Result<bool, InferError>)
    requires
        old(env).wf(),
    ensures
        r is Err ==> step_error(r->Err_0),
        final(env).wf(),
        agrees(r, final(e).tree(), final(env)@, up(old(e).tree(), old(env)@)),
    decreases *old(e), 2nat,
{
    let ghost t0 = old(e).tree();
    let mut saved: Vec<Shadowed> = Vec::new();
    assert(records_view(saved@) =~= Seq::<(Seq<char>, Option<Ty>)>::empty());
    match &e.kind {
        ExprKind::Function(f) => {
            assert(t0 == fn_tree(e.ty, *f));
            assert(params_view(f.params@) =~= param_views(f.params@));
            bind_params(&f.params, env, &mut saved);
            assert(records_view(saved@) =~= shadowed_by(old(env)@, param_views(f.params@)));
        },
        _ => {},
    }
    let children = propagate_children(e, env, &mut saved);
    restore(env, &mut saved);
    let children = children?;
    let node = infer_locally(e, env)?;
    Ok(children || node)
}

/// Repeats upward propagation over `e` until nothing changes.
///
/// Succeeds when a pass changes nothing and every node of `e` is resolved. Fails when a
/// pass changes nothing but an `Unknown` remains, when the environment after a pass is
/// the same as after the pass before it though the tree still changed, and when
/// `MAX_ITERATIONS` passes do not reach a stable state.
pub fn infer_types_with_env(e: &mut Expr, env: &mut TypeEnv) -> (r: Result<(), InferError>)
    requires
        old(env).wf(),
    ensures
        final(env).wf(),
        r is Ok ==> fully_typed(*final(e)),
        match drive(old(e).tree(), old(env)@, MAX_ITERATIONS as nat, None) {
            Ok((t1, m1)) => r is Ok && final(e).tree() == t1 && final(env)@ == m1,
            Err(f) => r is Err && fault_of(r->Err_0) == f,
        },
{
    let ghost goal = drive(old(e).tree(), old(env)@, MAX_ITERATIONS as nat, None);
    let mut previous: Option<TypeEnv> = None;
    let mut i: usize = 0;
    while i < MAX_ITERATIONS
        invariant
            env.wf(),
            i <= MAX_ITERATIONS,
            previous is Some ==> previous->0.wf(),
            goal == drive(old(e).tree(), old(env)@, MAX_ITERATIONS as nat, None),
            goal == drive(
                e.tree(),
                env@,
                (MAX_ITERATIONS - i) as nat,
                match previous {
                    Some(p) => Some(p@),
                    None => None,
                },
            ),
        decreases MAX_ITERATIONS - i,
    {
        let changed = infer_up(e, env)?;
        if !changed {
            proof {
                lemma_resolved_tree(*e);
            }
            if e.partially_typed() {
                return Err(InferError::CouldNotInfer);
            } else {
                return Ok(());
            }
        }
        match &previous {
            Some(p) => {
                if p.same_bindings(env) {
                    return Err(InferError::InferenceLoop);
                }
            },
            None => {},
        }
        previous = Some(env.snapshot());
        i += 1;
    }
    Err(InferError::NoConvergence)
}

/// Infers the types of a program, given as its top-level expressions, in place.
///
/// Every top-level function is bound to its declared type first, so that functions
/// can refer to each other in any order. Each expression is then inferred on its own
/// copy of those bindings; the first error ends the run.
pub fn infer_types(program: Vec<Expr>) -> (r: Result<Vec<Expr>, InferError>)
    ensures
        r is Ok ==> r->Ok_0@.len() == program@.len(),
        r is Ok ==> forall|i: int| 0 <= i < program@.len() ==> fully_typed(#[trigger] r->Ok_0@[i]),
        match run_all(trees(program@), seed(trees(program@), program@.len()), program@.len()) {
            Ok(ts) => r is Ok && trees(r->Ok_0@) == ts,
            Err(f) => r is Err && fault_of(r->Err_0) == f,
        },
{
    let mut exprs = program;
    let ghost ts0 = trees(exprs@);
    let mut global = TypeEnv::new();
    let mut i: usize = 0;
    while i < exprs.len()
        invariant
            global.wf(),
            i <= exprs@.len(),
            ts0 == trees(exprs@),
            ts0 == trees(program@),
            exprs@.len() == program@.len(),
            global@ == seed(ts0, i as nat),
        decreases exprs@.len() - i,
    {
        assert(ts0[i as int] == exprs@[i as int].tree());
        match &exprs[i].kind {
            ExprKind::Function(f) => {
                assert(ts0[i as int].kind == TreeKind::Function(
                    f.ident@,
                    param_views(f.params@),
                    trees((*f.body)@),
                ));
                global.insert(f.ident.duplicate(), exprs[i].ty.clone());
            },
            _ => {
                assert(!(ts0[i as int].kind is Function));
            },
        }
        i += 1;
    }
    let ghost n = exprs@.len();
    let ghost g = global@;
    let mut i: usize = 0;
    while i < exprs.len()
        invariant
            global.wf(),
            global@ == g,
            g == seed(ts0, n),
            ts0 == trees(program@),
            n == program@.len(),
            i <= exprs@.len(),
            exprs@.len() == n,
            ts0.len() == n,
            forall|j: int| 0 <= j < i ==> fully_typed(#[trigger] exprs@[j]),
            forall|j: int| i <= j < n ==> exprs@[j].tree() == ts0[j],
            run_all(ts0, g, i as nat) == Ok::<Seq<Tree>, Fault>(trees(exprs@)),
        decreases exprs@.len() - i,
    {
        let mut local = global.snapshot();
        let ghost prev = exprs@;
        match infer_types_with_env(&mut exprs[i], &mut local) {
            Ok(()) => {},
            Err(err) => {
                proof {
                    assert(prev[i as int].tree() == ts0[i as int]);
                    assert(drive(ts0[i as int], g, MAX_ITERATIONS as nat, None) is Err);
                    assert(drive(ts0[i as int], g, MAX_ITERATIONS as nat, None) == Err::<(Tree, Env), Fault>(
                        fault_of(err),
                    ));
                    assert(run_all(ts0, g, (i + 1) as nat) == Err::<Seq<Tree>, Fault>(fault_of(err)));
                    lemma_run_all_fails(ts0, g, (i + 1) as nat, n);
                    assert(run_all(ts0, g, n) == Err::<Seq<Tree>, Fault>(fault_of(err)));
                }
                return Err(err);
            },
        }
        proof {
            assert(exprs@ =~= prev.update(i as int, exprs@[i as int]));
            assert(trees(exprs@) =~= trees(prev).update(i as int, exprs@[i as int].tree()));
        }
        i += 1;
    }
    Ok(exprs)
}

impl Expr {
    /// Infers the types of this expression in place, starting from an empty environment.
    pub fn infer_types(&mut self) -> (r: Result<(), InferError>)
        ensures
            r is Ok ==> fully_typed(*final(self)),
            match drive(old(self).tree(), Map::empty(), MAX_ITERATIONS as nat, None) {
                Ok((t1, _)) => r is Ok && final(self).tree() == t1,
                Err(f) => r is Err && fault_of(r->Err_0) == f,
            },
    {
        let mut env = TypeEnv::new();
        infer_types_with_env(self, &mut env)
    }

    /// Runs local determination once on this expression alone; an identifier is looked
    /// up among bindings that hold just itself, with its own type.
    pub fn infer_local(&mut self) -> (r: Result<(), InferError>)
        ensures
            match local(old(self).tree(), local_env(*old(self))) {
                Ok((t1, _, _)) => r is Ok && final(self).tree() == t1,
                Err(f) => r is Err && fault_of(r->Err_0) == f,
            },
    {
        let mut env = TypeEnv::new();
        match &self.kind {
            ExprKind::Identifier(ident) => {
                env.insert(ident.duplicate(), self.ty.clone());
            },
            _ => {},
        }
        match infer_locally(self, &mut env) {
            Ok(_) => Ok(()),
            Err(err) => Err(err),
        }
    }
}

/// The environment in which `Expr::infer_local` runs: an identifier bound to its own
/// type, and nothing else.
pub open spec fn local_env(e: Expr) -> Env {
    match e.kind {
        ExprKind::Identifier(id) => Map::empty().insert(id@, e.ty@),
        _ => Map::empty(),
    }
}

} // verus!
