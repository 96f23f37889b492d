//! The type model of the language and its unification primitives.
use vstd::prelude::*;

use crate::error::InferError;

verus! {

/// The kinds of scalar values.
#[derive(Clone, Copy, Debug, PartialEq, Eq, Hash, Structural)]
pub enum ScalarKind {
    Int,
    Bool,
}

impl ScalarKind {
    pub fn is_numeric(&self) -> (r: bool)
        ensures
            r == (*self == ScalarKind::Int),
    {
        match self {
            ScalarKind::Int => true,
            _ => false,
        }
    }
}

/// A type annotation: possibly unresolved (`Unknown`), possibly partially resolved.
#[derive(Debug, Hash)]
pub enum Type {
    Scalar(ScalarKind),
    Function(Vec<Type>, Box<Type>),
    Unit,
    Unknown,
}

/// The mathematical value of a `Type`: the same tree, with sequences in place of vectors.
pub enum Ty {
    Scalar(ScalarKind),
    Function(Seq<Ty>, Box<Ty>),
    Unit,
    Unknown,
}

impl Type {
    pub open spec fn model(&self) -> Ty
        decreases self,
    {
        match self {
            Type::Scalar(k) => Ty::Scalar(*k),
            Type::Function(ps, r) => Ty::Function(
                Seq::new(
                    ps@.len(),
                    |i: int|
                        if 0 <= i < ps@.len() {
                            ps@[i].model()
                        } else {
                            Ty::Unknown
                        },
                ),
                Box::new(r.model()),
            ),
            Type::Unit => Ty::Unit,
            Type::Unknown => Ty::Unknown,
        }
    }
}

impl View for Type {
    type V = Ty;

    open spec fn view(&self) -> Ty {
        self.model()
    }
}

/// Whether `a` and `b` have no conflicting information: where both are known,
/// they have the same shape, the same scalar kinds and the same arities.
pub open spec fn unifiable(a: Ty, b: Ty) -> bool
    decreases a,
{
    match b {
        Ty::Unknown => true,
        _ => match a {
            Ty::Unknown => true,
            Ty::Scalar(x) => b == Ty::Scalar(x),
            Ty::Unit => b == Ty::Unit,
            Ty::Function(ps, r) => match b {
                Ty::Function(qs, s) => {
                    &&& ps.len() == qs.len()
                    &&& forall|i: int| 0 <= i < ps.len() ==> unifiable(#[trigger] ps[i], qs[i])
                    &&& unifiable(*r, *s)
                },
                _ => false,
            },
        },
    }
}

/// `a` with every `Unknown` of it filled in from the same position of `b`.
pub open spec fn merge(a: Ty, b: Ty) -> Ty
    decreases a,
{
    match b {
        Ty::Unknown => a,
        _ => match a {
            Ty::Unknown => b,
            Ty::Function(ps, r) => match b {
                Ty::Function(qs, s) => if ps.len() == qs.len() {
                    Ty::Function(
                        Seq::new(
                            ps.len(),
                            |i: int|
                                if 0 <= i < ps.len() {
                                    merge(ps[i], qs[i])
                                } else {
                                    Ty::Unknown
                                },
                        ),
                        Box::new(merge(*r, *s)),
                    )
                } else {
                    a
                },
                _ => a,
            },
            _ => a,
        },
    }
}

/// `m` holds at least the information of `a`: it agrees with `a` wherever `a` is known.
pub open spec fn refines(m: Ty, a: Ty) -> bool
    decreases a,
{
    match a {
        Ty::Unknown => true,
        Ty::Function(ps, r) => match m {
            Ty::Function(qs, s) => {
                &&& ps.len() == qs.len()
                &&& forall|i: int| 0 <= i < ps.len() ==> refines(qs[i], #[trigger] ps[i])
                &&& refines(*s, *r)
            },
            _ => false,
        },
        _ => m == a,
    }
}

/// No `Unknown` occurs anywhere in `t`.
pub open spec fn resolved(t: Ty) -> bool
    decreases t,
{
    match t {
        Ty::Unknown => false,
        Ty::Function(ps, r) => (forall|i: int| 0 <= i < ps.len() ==> resolved(#[trigger] ps[i]))
            && resolved(*r),
        _ => true,
    }
}

impl Clone for Type {
    fn clone(&self) -> (r: Self)
        ensures
            r@ == self@,
        decreases self,
    {
        match self {
            Type::Scalar(k) => Type::Scalar(*k),
            Type::Function(ps, ret) => {
                let mut qs: Vec<Type> = Vec::new();
                let mut i: usize = 0;
                while i < ps.len()
                    invariant
                        *self == Type::Function(*ps, *ret),
                        i <= ps@.len(),
                        qs@.len() == i,
                        forall|j: int| 0 <= j < i ==> (#[trigger] qs@[j])@ == ps@[j]@,
                    decreases ps@.len() - i,
                {
                    proof {
                        assert(decreases_to!(*self => self->Function_0));
                        assert(decreases_to!(*ps => ps@));
                        assert(decreases_to!(ps@ => ps@[i as int]));
                    }
                    qs.push(ps[i].clone());
                    i += 1;
                }
                let r = Type::Function(qs, Box::new((**ret).clone()));
                assert(r@ == self@) by {
                    assert(r@->Function_0 =~= self@->Function_0);
                }
                r
            },
            Type::Unit => Type::Unit,
            Type::Unknown => Type::Unknown,
        }
    }
}

impl Type {
    /// Structural equality of two types.
    pub fn same_as(&self, other: &Type) -> (r: bool)
        ensures
            r == (self@ == other@),
        decreases self,
    {
        match self {
            Type::Scalar(a) => match other {
                Type::Scalar(b) => *a == *b,
                _ => false,
            },
            Type::Unit => match other {
                Type::Unit => true,
                _ => false,
            },
            Type::Unknown => match other {
                Type::Unknown => true,
                _ => false,
            },
            Type::Function(ps, ret) => match other {
                Type::Function(qs, s) => {
                    if ps.len() != qs.len() {
                        assert(self@->Function_0.len() != other@->Function_0.len());
                        return false;
                    }
                    let mut i: usize = 0;
                    while i < ps.len()
                        invariant
                            *self == Type::Function(*ps, *ret),
                            *other == Type::Function(*qs, *s),
                            ps@.len() == qs@.len(),
                            i <= ps@.len(),
                            forall|j: int| 0 <= j < i ==> (#[trigger] ps@[j])@ == qs@[j]@,
                        decreases ps@.len() - i,
                    {
                        proof {
                            assert(decreases_to!(*self => self->Function_0));
                            assert(decreases_to!(*ps => ps@));
                            assert(decreases_to!(ps@ => ps@[i as int]));
                        }
                        if !ps[i].same_as(&qs[i]) {
                            assert(self@->Function_0[i as int] != other@->Function_0[i as int]);
                            return false;
                        }
                        i += 1;
                    }
                    assert(self@->Function_0 =~= other@->Function_0);
                    proof {
                        assert(decreases_to!(*self => self->Function_1));
                    }
                    ret.same_as(s)
                },
                _ => false,
            },
        }
    }

    /// Whether the two types can be unified.
    pub fn can_unify(&self, other: &Type) -> (r: bool)
        ensures
            r == unifiable(self@, other@),
        decreases self,
    {
        match other {
            Type::Unknown => return true,
            _ => {},
        }
        match self {
            Type::Unknown => true,
            Type::Scalar(a) => match other {
                Type::Scalar(b) => *a == *b,
                _ => false,
            },
            Type::Unit => match other {
                Type::Unit => true,
                _ => false,
            },
            Type::Function(ps, ret) => match other {
                Type::Function(qs, s) => {
                    if ps.len() != qs.len() {
                        return false;
                    }
                    let mut i: usize = 0;
                    while i < ps.len()
                        invariant
                            *self == Type::Function(*ps, *ret),
                            *other == Type::Function(*qs, *s),
                            ps@.len() == qs@.len(),
                            i <= ps@.len(),
                            forall|j: int|
                                0 <= j < i ==> unifiable(#[trigger] ps@[j]@, qs@[j]@),
                        decreases ps@.len() - i,
                    {
                        proof {
                            assert(decreases_to!(*self => self->Function_0));
                            assert(decreases_to!(*ps => ps@));
                            assert(decreases_to!(ps@ => ps@[i as int]));
                        }
                        if !ps[i].can_unify(&qs[i]) {
                            assert(!unifiable(self@->Function_0[i as int], other@->Function_0[i as int]));
                            return false;
                        }
                        i += 1;
                    }
                    proof {
                        assert(decreases_to!(*self => self->Function_1));
                        assert forall|j: int| 0 <= j < self@->Function_0.len() implies
                            unifiable(#[trigger] self@->Function_0[j], other@->Function_0[j]) by {
                            assert(unifiable(ps@[j]@, qs@[j]@));
                        }
                    }
                    ret.can_unify(s)
                },
                _ => false,
            },
        }
    }

    /// Whether no `Unknown` occurs anywhere in this type.
    pub fn is_resolved(&self) -> (r: bool)
        ensures
            r == resolved(self@),
        decreases self,
    {
        match self {
            Type::Unknown => false,
            Type::Function(ps, ret) => {
                let mut i: usize = 0;
                while i < ps.len()
                    invariant
                        *self == Type::Function(*ps, *ret),
                        i <= ps@.len(),
                        forall|j: int| 0 <= j < i ==> resolved(#[trigger] ps@[j]@),
                    decreases ps@.len() - i,
                {
                    proof {
                        assert(decreases_to!(*self => self->Function_0));
                        assert(decreases_to!(*ps => ps@));
                        assert(decreases_to!(ps@ => ps@[i as int]));
                    }
                    if !ps[i].is_resolved() {
                        assert(!resolved(self@->Function_0[i as int]));
                        return false;
                    }
                    i += 1;
                }
                proof {
                    assert(decreases_to!(*self => self->Function_1));
                    assert forall|j: int| 0 <= j < self@->Function_0.len() implies
                        resolved(#[trigger] self@->Function_0[j]) by {
                        assert(resolved(ps@[j]@));
                    }
                }
                ret.is_resolved()
            },
            _ => true,
        }
    }
}

impl Type {
    /// Fills the `Unknown`s of this type from `other`; the two must be unifiable.
    /// Returns whether this type changed.
    fn merge_in(&mut self, other: &Type) -> (changed: bool)
        requires
            unifiable(old(self)@, other@),
        ensures
            final(self)@ == merge(old(self)@, other@),
            changed == (final(self)@ != old(self)@),
        decreases other,
    {
        match other {
            Type::Unknown => return false,
            _ => {},
        }
        match self {
            Type::Unknown => {
                *self = other.clone();
                return true;
            },
            _ => {},
        }
        match other {
            Type::Function(qs, s) => {
                let mut cur = Type::Unknown;
                std::mem::swap(&mut cur, self);
                match cur {
                    Type::Function(mut ps, mut ret) => {
                        let ghost ops = ps@;
                        let ghost oret = ret;
                        assert(old(self)@->Function_0.len() == ops.len());
                        let mut changed = false;
                        let mut i: usize = 0;
                        while i < ps.len()
                            invariant
                                *other == Type::Function(*qs, *s),
                                old(self)@ is Function,
                                old(self)@->Function_0.len() == ops.len(),
                                forall|j: int| 0 <= j < ops.len() ==> old(self)@->Function_0[j] == (#[trigger] ops[j])@,
                                *old(self)@->Function_1 == oret@,
                                unifiable(old(self)@, other@),
                                ps@.len() == ops.len() == qs@.len(),
                                i <= ps@.len(),
                                forall|j: int|
                                    0 <= j < i ==> (#[trigger] ps@[j])@ == merge(ops[j]@, qs@[j]@),
                                forall|j: int| i <= j < ps@.len() ==> (#[trigger] ps@[j]) == ops[j],
                                changed == exists|j: int| 0 <= j < i && (#[trigger] ps@[j])@ != ops[j]@,
                            decreases ps@.len() - i,
                        {
                            proof {
                                assert(decreases_to!(*other => other->Function_0));
                                assert(decreases_to!(*qs => qs@));
                                assert(decreases_to!(qs@ => qs@[i as int]));
                                assert(unifiable(old(self)@->Function_0[i as int], other@->Function_0[i as int]));
                            }
                            let ghost prev = ps@;
                            let c = ps[i].merge_in(&qs[i]);
                            proof {
                                if c {
                                    assert((ps@[i as int])@ != ops[i as int]@);
                                } else if changed {
                                    let j = choose|j: int| 0 <= j < i && (#[trigger] prev[j])@ != ops[j]@;
                                    assert(ps@[j] == prev[j]);
                                }
                            }
                            changed = changed || c;
                            i += 1;
                        }
                        proof {
                            assert(decreases_to!(*other => other->Function_1));
                        }
                        let c = ret.merge_in(s);
                        let r = Type::Function(ps, ret);
                        proof {
                            let a = old(self)@;
                            let b = other@;
                            assert(r@->Function_0 =~= merge(a, b)->Function_0);
                            if !changed {
                                assert(r@->Function_0 =~= a->Function_0);
                            } else {
                                let j = choose|j: int| 0 <= j < ps@.len() && (#[trigger] ps@[j])@ != ops[j]@;
                                assert(r@->Function_0[j] != a->Function_0[j]);
                            }
                        }
                        *self = r;
                        changed || c
                    },
                    _ => {
                        *self = cur;
                        false
                    },
                }
            },
            _ => false,
        }
    }

    /// Pushes the information of `other` into this type.
    ///
    /// Fails with a type mismatch when the two types conflict; otherwise this type
    /// becomes their merge, and the result says whether it changed.
    pub fn push(&mut self, other: &Type) -> (r: Result<bool, InferError>)
        ensures
            r is Ok <==> unifiable(old(self)@, other@),
            r is Ok ==> final(self)@ == merge(old(self)@, other@),
            r is Ok ==> r->Ok_0 == (final(self)@ != old(self)@),
            r is Ok ==> refines(final(self)@, old(self)@) && refines(final(self)@, other@),
            r is Err ==> final(self)@ == old(self)@ && r->Err_0 is TypeMismatch
                && r->Err_0->expected@ == other@ && r->Err_0->found@ == old(self)@,
    {
        if self.can_unify(other) {
            proof {
                lemma_merge_refines(self@, other@);
            }
            Ok(self.merge_in(other))
        } else {
            Err(InferError::TypeMismatch { expected: other.clone(), found: self.clone() })
        }
    }
}

impl Type {
    /// Syncs this type and `other`: pushes `other` into this type, then this type into `other`.
    ///
    /// On success both end as the merge of the two; the result says whether either changed.
    pub fn sync(&mut self, other: &mut Type) -> (r: Result<bool, InferError>)
        ensures
            r is Ok <==> unifiable(old(self)@, old(other)@),
            r is Ok ==> final(self)@ == merge(old(self)@, old(other)@),
            r is Ok ==> final(other)@ == final(self)@,
            r is Ok ==> r->Ok_0 == (final(self)@ != old(self)@ || final(other)@ != old(other)@),
            r is Err ==> r->Err_0 is TypeMismatch,
    {
        proof {
            lemma_merge_absorbs(self@, other@);
        }
        let into_self = self.push(other)?;
        let into_other = other.push(self)?;
        Ok(into_self || into_other)
    }

    /// Sets this type to `other`, which the context fixes completely.
    ///
    /// Succeeds without change when the two are already equal, assigns when this type
    /// is `Unknown`, and fails with a type mismatch otherwise.
    pub fn push_complete(&mut self, other: Type) -> (r: Result<bool, InferError>)
        ensures
            r is Ok <==> (old(self)@ == other@ || old(self)@ == Ty::Unknown),
            r is Ok ==> final(self)@ == other@,
            r is Ok ==> r->Ok_0 == (old(self)@ != other@),
            r is Err ==> final(self)@ == old(self)@ && r->Err_0 is TypeMismatch
                && r->Err_0->expected@ == other@ && r->Err_0->found@ == old(self)@,
    {
        if self.same_as(&other) {
            return Ok(false);
        }
        match self {
            Type::Unknown => {
                *self = other;
                Ok(true)
            },
            _ => Err(InferError::TypeMismatch { expected: other, found: self.clone() }),
        }
    }
}

/// Every type can be unified with itself, and merging it with itself leaves it as it is.
pub proof fn lemma_merge_self(t: Ty)
    ensures
        unifiable(t, t),
        merge(t, t) == t,
    decreases t,
{
    match t {
        Ty::Function(ps, r) => {
            assert forall|i: int| 0 <= i < ps.len() implies unifiable(#[trigger] ps[i], ps[i])
                && merge(ps[i], ps[i]) == ps[i] by {
                lemma_merge_self(ps[i]);
            }
            lemma_merge_self(*r);
            assert(merge(t, t)->Function_0 =~= ps);
        },
        _ => {},
    }
}

/// Unifiability does not depend on the order of the two types.
pub proof fn lemma_unifiable_symmetric(a: Ty, b: Ty)
    ensures
        unifiable(a, b) == unifiable(b, a),
    decreases a,
{
    match (a, b) {
        (Ty::Function(ps, r), Ty::Function(qs, s)) => {
            if ps.len() == qs.len() {
                assert forall|i: int| 0 <= i < ps.len() implies unifiable(#[trigger] ps[i], qs[i])
                    == unifiable(qs[i], ps[i]) by {
                    lemma_unifiable_symmetric(ps[i], qs[i]);
                }
                lemma_unifiable_symmetric(*r, *s);
            }
        },
        _ => {},
    }
}

/// After `a` takes in `b`, `b` can take in the result, and doing so yields that same result.
pub proof fn lemma_merge_absorbs(a: Ty, b: Ty)
    ensures
        unifiable(a, b) ==> unifiable(b, merge(a, b)),
        unifiable(a, b) ==> merge(b, merge(a, b)) == merge(a, b),
    decreases a,
{
    if unifiable(a, b) {
        match b {
            Ty::Unknown => {},
            _ => match a {
                Ty::Unknown => lemma_merge_self(b),
                Ty::Function(ps, r) => match b {
                    Ty::Function(qs, s) => {
                        let m = merge(a, b);
                        let ms = m->Function_0;
                        assert forall|i: int| 0 <= i < qs.len() implies unifiable(#[trigger] qs[i], ms[i])
                            && merge(qs[i], ms[i]) == ms[i] by {
                            lemma_merge_absorbs(ps[i], qs[i]);
                        }
                        lemma_merge_absorbs(*r, *s);
                        assert(merge(b, m)->Function_0 =~= ms);
                    },
                    _ => {},
                },
                _ => {},
            },
        }
    }
}

/// Pushing `Unknown` into any type succeeds and changes nothing.
pub proof fn law_push_unknown_is_noop(t: Type)
    ensures
        unifiable(t@, Ty::Unknown),
        merge(t@, Ty::Unknown) == t@,
{
}

/// Pushing a resolved type into `Unknown` makes the receiver that type, which is a change;
/// pushing the same type again succeeds and changes nothing.
pub proof fn law_push_resolved_into_unknown(t: Type)
    requires
        resolved(t@),
    ensures
        unifiable(Ty::Unknown, t@),
        merge(Ty::Unknown, t@) == t@,
        t@ != Ty::Unknown,
        unifiable(t@, t@),
        merge(t@, t@) == t@,
{
    lemma_merge_self(t@);
}

/// Syncing two unifiable types leaves both equal to their merge, in either order of the
/// two; two types that are not unifiable fail in either order.
pub proof fn law_sync_equalizes(a: Type, b: Type)
    ensures
        unifiable(a@, b@) == unifiable(b@, a@),
        unifiable(a@, b@) ==> unifiable(b@, merge(a@, b@)),
        unifiable(a@, b@) ==> merge(b@, merge(a@, b@)) == merge(a@, b@),
        unifiable(a@, b@) ==> merge(a@, b@) == merge(b@, a@),
{
    lemma_unifiable_symmetric(a@, b@);
    lemma_merge_absorbs(a@, b@);
    lemma_merge_commutes(a@, b@);
}

/// The merge of two unifiable types refines both of them.
pub proof fn lemma_merge_refines(a: Ty, b: Ty)
    requires
        unifiable(a, b),
    ensures
        refines(merge(a, b), a),
        refines(merge(a, b), b),
    decreases a,
{
    match b {
        Ty::Unknown => lemma_refines_self(a),
        _ => match a {
            Ty::Unknown => lemma_refines_self(b),
            Ty::Function(ps, r) => match b {
                Ty::Function(qs, s) => {
                    let ms = merge(a, b)->Function_0;
                    assert forall|i: int| 0 <= i < ps.len() implies refines(ms[i], #[trigger] ps[i])
                        && refines(ms[i], qs[i]) by {
                        lemma_merge_refines(ps[i], qs[i]);
                    }
                    lemma_merge_refines(*r, *s);
                },
                _ => {},
            },
            _ => {},
        },
    }
}

/// Every type refines itself.
pub proof fn lemma_refines_self(a: Ty)
    ensures
        refines(a, a),
    decreases a,
{
    match a {
        Ty::Function(ps, r) => {
            assert forall|i: int| 0 <= i < ps.len() implies refines(ps[i], #[trigger] ps[i]) by {
                lemma_refines_self(ps[i]);
            }
            lemma_refines_self(*r);
        },
        _ => {},
    }
}

/// Refinement is transitive.
pub proof fn lemma_refines_transitive(c: Ty, b: Ty, a: Ty)
    requires
        refines(c, b),
        refines(b, a),
    ensures
        refines(c, a),
    decreases a,
{
    match a {
        Ty::Function(ps, r) => {
            let qs = b->Function_0;
            let ts = c->Function_0;
            assert forall|i: int| 0 <= i < ps.len() implies refines(ts[i], #[trigger] ps[i]) by {
                lemma_refines_transitive(ts[i], qs[i], ps[i]);
            }
            lemma_refines_transitive(*c->Function_1, *b->Function_1, *r);
        },
        _ => {},
    }
}

/// A type that refines `a` can be pushed into `a`, and `a` becomes exactly that type.
pub proof fn lemma_merge_into_refinement(a: Ty, m: Ty)
    requires
        refines(m, a),
    ensures
        unifiable(a, m),
        merge(a, m) == m,
    decreases a,
{
    match a {
        Ty::Unknown => {},
        Ty::Function(ps, r) => {
            let qs = m->Function_0;
            assert forall|i: int| 0 <= i < ps.len() implies unifiable(#[trigger] ps[i], qs[i])
                && merge(ps[i], qs[i]) == qs[i] by {
                lemma_merge_into_refinement(ps[i], qs[i]);
            }
            lemma_merge_into_refinement(*r, *m->Function_1);
            assert(merge(a, m)->Function_0 =~= qs);
        },
        _ => {},
    }
}

/// Two unifiable types merge to the same type in either order.
pub proof fn lemma_merge_commutes(a: Ty, b: Ty)
    ensures
        unifiable(a, b) ==> merge(a, b) == merge(b, a),
    decreases a,
{
    if unifiable(a, b) {
        match (a, b) {
            (Ty::Function(ps, r), Ty::Function(qs, s)) => {
                assert forall|i: int| 0 <= i < ps.len() implies merge(#[trigger] ps[i], qs[i]) == merge(
                    qs[i],
                    ps[i],
                ) by {
                    lemma_merge_commutes(ps[i], qs[i]);
                }
                lemma_merge_commutes(*r, *s);
                assert(merge(a, b)->Function_0 =~= merge(b, a)->Function_0);
            },
            _ => {},
        }
    }
}

impl Type {
    /// How the type is written: `int`, `bool`, `unit`, `unknown`, or `(p, ...) -> r`.
    pub fn text(&self) -> (r: String)
        decreases self,
    {
        match self {
            Type::Scalar(ScalarKind::Int) => "int".to_owned(),
            Type::Scalar(ScalarKind::Bool) => "bool".to_owned(),
            Type::Unit => "unit".to_owned(),
            Type::Unknown => "unknown".to_owned(),
            Type::Function(ps, ret) => {
                let mut out = "(".to_owned();
                let mut i: usize = 0;
                while i < ps.len()
                    invariant
                        *self == Type::Function(*ps, *ret),
                        i <= ps@.len(),
                    decreases ps@.len() - i,
                {
                    proof {
                        assert(decreases_to!(*self => self->Function_0));
                        assert(decreases_to!(*ps => ps@));
                        assert(decreases_to!(ps@ => ps@[i as int]));
                    }
                    if i > 0 {
                        out.append(", ");
                    }
                    out.append(ps[i].text().as_str());
                    i += 1;
                }
                out.append(") -> ");
                proof {
                    assert(decreases_to!(*self => self->Function_1));
                }
                out.append(ret.text().as_str());
                out
            },
        }
    }
}

impl PartialEq for Type {
    fn eq(&self, other: &Type) -> (r: bool) {
        self.same_as(other)
    }
}

impl vstd::std_specs::cmp::PartialEqSpecImpl for Type {
    open spec fn obeys_eq_spec() -> bool {
        true
    }

    open spec fn eq_spec(&self, other: &Type) -> bool {
        self@ == other@
    }
}

impl Eq for Type {

}

} // verus!
