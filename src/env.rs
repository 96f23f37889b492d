//! The typing environment: a finite mapping from names to types.
use vstd::prelude::*;

use crate::ast::Identifier;
use crate::error::InferError;
use crate::types::{merge, unifiable, Ty, Type};

verus! {

/// A mapping from names to their currently known types.
///
/// The bindings are held in a vector with one entry per name; the ghost map is
/// what the bindings mean.
pub struct TypeEnv {
    entries: Vec<(Identifier, Type)>,
    bound: Ghost<Map<Seq<char>, Ty>>,
}

impl View for TypeEnv {
    type V = Map<Seq<char>, Ty>;

    closed spec fn view(&self) -> Map<Seq<char>, Ty> {
        self.bound@
    }
}

impl TypeEnv {
    /// The entries name each bound key exactly once, with its type.
    pub closed spec fn wf(&self) -> bool {
        &&& forall|i: int, j: int|
            0 <= i < self.entries@.len() && 0 <= j < self.entries@.len() && i != j
                ==> (#[trigger] self.entries@[i]).0@ != (#[trigger] self.entries@[j]).0@
        &&& forall|i: int|
            0 <= i < self.entries@.len() ==> self.bound@.contains_key(
                (#[trigger] self.entries@[i]).0@,
            ) && self.bound@[self.entries@[i].0@] == self.entries@[i].1@
        &&& forall|k: Seq<char>|
            self.bound@.contains_key(k) ==> exists|i: int|
                0 <= i < self.entries@.len() && (#[trigger] self.entries@[i]).0@ == k
    }

    /// An environment with no bindings.
    pub fn new() -> (r: TypeEnv)
        ensures
            r.wf(),
            r@ == Map::<Seq<char>, Ty>::empty(),
    {
        TypeEnv { entries: Vec::new(), bound: Ghost(Map::empty()) }
    }

    /// The position of the entry for `name`, if there is one.
    fn position(&self, name: &Identifier) -> (r: Option<usize>)
        requires
            self.wf(),
        ensures
            r is None <==> !self@.contains_key(name@),
            r is Some ==> r->0 < self.entries@.len() && self.entries@[r->0 as int].0@ == name@,
    {
        let mut i: usize = 0;
        while i < self.entries.len()
            invariant
                self.wf(),
                i <= self.entries@.len(),
                forall|j: int| 0 <= j < i ==> (#[trigger] self.entries@[j]).0@ != name@,
            decreases self.entries@.len() - i,
        {
            if self.entries[i].0.name == name.name {
                return Some(i);
            }
            i += 1;
        }
        None
    }

    /// Whether `name` is bound.
    pub fn contains_key(&self, name: &Identifier) -> (r: bool)
        requires
            self.wf(),
        ensures
            r == self@.contains_key(name@),
    {
        self.position(name).is_some()
    }

    /// The type bound to `name`, if any.
    pub fn get(&self, name: &Identifier) -> (r: Option<&Type>)
        requires
            self.wf(),
        ensures
            r is None <==> !self@.contains_key(name@),
            r is Some ==> r->0@ == self@[name@],
    {
        match self.position(name) {
            Some(i) => Some(&self.entries[i].1),
            None => None,
        }
    }

    /// Binds `name` to `ty`, returning the type it was bound to before, if any.
    pub fn insert(&mut self, name: Identifier, ty: Type) -> (r: Option<Type>)
        requires
            old(self).wf(),
        ensures
            final(self).wf(),
            final(self)@ == old(self)@.insert(name@, ty@),
            r is None <==> !old(self)@.contains_key(name@),
            r is Some ==> r->0@ == old(self)@[name@],
    {
        let ghost key = name@;
        let ghost tym = ty@;
        match self.position(&name) {
            Some(i) => {
                let mut entry = (name, ty);
                std::mem::swap(&mut entry, &mut self.entries[i]);
                self.bound = Ghost(self.bound@.insert(key, tym));
                assert forall|k: Seq<char>| self.bound@.contains_key(k) implies exists|j: int|
                    0 <= j < self.entries@.len() && (#[trigger] self.entries@[j]).0@ == k by {
                    if k != key {
                        let j = choose|j: int|
                            0 <= j < old(self).entries@.len() && (#[trigger] old(self).entries@[j]).0@ == k;
                        assert(self.entries@[j] == old(self).entries@[j]);
                    } else {
                        assert(self.entries@[i as int].0@ == k);
                    }
                }
                Some(entry.1)
            },
            None => {
                self.entries.push((name, ty));
                self.bound = Ghost(self.bound@.insert(key, tym));
                assert forall|k: Seq<char>| self.bound@.contains_key(k) implies exists|j: int|
                    0 <= j < self.entries@.len() && (#[trigger] self.entries@[j]).0@ == k by {
                    if k != key {
                        let j = choose|j: int|
                            0 <= j < old(self).entries@.len() && (#[trigger] old(self).entries@[j]).0@ == k;
                        assert(self.entries@[j] == old(self).entries@[j]);
                    } else {
                        assert(self.entries@[self.entries@.len() - 1].0@ == k);
                    }
                }
                None
            },
        }
    }

    /// Removes the binding of `name`, if any.
    pub fn remove(&mut self, name: &Identifier)
        requires
            old(self).wf(),
        ensures
            final(self).wf(),
            final(self)@ == old(self)@.remove(name@),
    {
        match self.position(name) {
            Some(i) => {
                let ghost before = self.entries@;
                self.entries.remove(i);
                self.bound = Ghost(self.bound@.remove(name@));
                assert forall|k: Seq<char>| self.bound@.contains_key(k) implies exists|j: int|
                    0 <= j < self.entries@.len() && (#[trigger] self.entries@[j]).0@ == k by {
                    let j = choose|j: int| 0 <= j < before.len() && (#[trigger] before[j]).0@ == k;
                    if j < i {
                        assert(self.entries@[j] == before[j]);
                    } else {
                        assert(self.entries@[j - 1] == before[j]);
                    }
                }
                assert forall|a: int, b: int|
                    0 <= a < self.entries@.len() && 0 <= b < self.entries@.len() && a != b
                        implies (#[trigger] self.entries@[a]).0@ != (#[trigger] self.entries@[b]).0@ by {
                    let a0 = if a < i { a } else { a + 1 };
                    let b0 = if b < i { b } else { b + 1 };
                    assert(self.entries@[a] == before[a0]);
                    assert(self.entries@[b] == before[b0]);
                }
                assert forall|a: int| 0 <= a < self.entries@.len() implies self.bound@.contains_key(
                    (#[trigger] self.entries@[a]).0@,
                ) && self.bound@[self.entries@[a].0@] == self.entries@[a].1@ by {
                    let a0 = if a < i { a } else { a + 1 };
                    assert(self.entries@[a] == before[a0]);
                }
            },
            None => {
                assert(self@.remove(name@) =~= self@);
            },
        }
    }

    /// Syncs the type bound to `name` with `other`; `name` must be bound.
    pub fn sync_binding(&mut self, name: &Identifier, other: &mut Type) -> (r: Result<bool, InferError>)
        requires
            old(self).wf(),
            old(self)@.contains_key(name@),
        ensures
            final(self).wf(),
            r is Ok <==> unifiable(old(self)@[name@], old(other)@),
            r is Ok ==> final(self)@ == old(self)@.insert(name@, merge(old(self)@[name@], old(other)@)),
            r is Ok ==> final(other)@ == merge(old(self)@[name@], old(other)@),
            r is Ok ==> r->Ok_0 == (final(self)@ != old(self)@ || final(other)@ != old(other)@),
            r is Err ==> r->Err_0 is TypeMismatch,
    {
        let i = self.position(name).unwrap();
        let mut bound_ty = Type::Unknown;
        std::mem::swap(&mut bound_ty, &mut self.entries[i].1);
        let r = bound_ty.sync(other);
        let ghost key = self.entries@[i as int].0@;
        let ghost newty = bound_ty@;
        std::mem::swap(&mut bound_ty, &mut self.entries[i].1);
        let ghost before = self.bound@;
        self.bound = Ghost(self.bound@.insert(key, newty));
        assert forall|k: Seq<char>| self.bound@.contains_key(k) implies exists|j: int|
            0 <= j < self.entries@.len() && (#[trigger] self.entries@[j]).0@ == k by {
            let j = choose|j: int|
                0 <= j < old(self).entries@.len() && (#[trigger] old(self).entries@[j]).0@ == k;
            assert(self.entries@[j].0 == old(self).entries@[j].0);
        }
        proof {
            if r is Ok {
                if newty == old(self)@[name@] {
                    assert(self@ =~= old(self)@);
                } else {
                    assert(self@[name@] != old(self)@[name@]);
                }
            }
        }
        r
    }

    /// A copy of this environment, with the same bindings.
    pub fn snapshot(&self) -> (r: TypeEnv)
        requires
            self.wf(),
        ensures
            r.wf(),
            r@ == self@,
    {
        let mut entries: Vec<(Identifier, Type)> = Vec::new();
        let mut i: usize = 0;
        while i < self.entries.len()
            invariant
                i <= self.entries@.len(),
                entries@.len() == i,
                forall|j: int|
                    0 <= j < i ==> (#[trigger] entries@[j]).0@ == self.entries@[j].0@
                        && entries@[j].1@ == self.entries@[j].1@,
            decreases self.entries@.len() - i,
        {
            let e = &self.entries[i];
            entries.push((e.0.duplicate(), e.1.clone()));
            i += 1;
        }
        let r = TypeEnv { entries, bound: Ghost(self.bound@) };
        assert forall|k: Seq<char>| r.bound@.contains_key(k) implies exists|j: int|
            0 <= j < r.entries@.len() && (#[trigger] r.entries@[j]).0@ == k by {
            let j = choose|j: int|
                0 <= j < self.entries@.len() && (#[trigger] self.entries@[j]).0@ == k;
            assert(r.entries@[j].0@ == k);
        }
        r
    }

    /// Whether the two environments bind the same names to the same types.
    pub fn same_bindings(&self, other: &TypeEnv) -> (r: bool)
        requires
            self.wf(),
            other.wf(),
        ensures
            r == (self@ == other@),
    {
        if self.entries.len() != other.entries.len() {
            proof {
                self.lemma_len_is_card();
                other.lemma_len_is_card();
            }
            return false;
        }
        let mut i: usize = 0;
        while i < self.entries.len()
            invariant
                self.wf(),
                other.wf(),
                i <= self.entries@.len(),
                self.entries@.len() == other.entries@.len(),
                forall|j: int|
                    0 <= j < i ==> other@.contains_key((#[trigger] self.entries@[j]).0@)
                        && other@[self.entries@[j].0@] == self.entries@[j].1@,
            decreases self.entries@.len() - i,
        {
            let e = &self.entries[i];
            match other.get(&e.0) {
                Some(t) => {
                    if !t.same_as(&e.1) {
                        return false;
                    }
                },
                None => {
                    return false;
                },
            }
            i += 1;
        }
        proof {
            self.lemma_len_is_card();
            other.lemma_len_is_card();
            assert(self@.dom().subset_of(other@.dom())) by {
                assert forall|k: Seq<char>| self@.contains_key(k) implies other@.contains_key(k) by {
                    let j = choose|j: int|
                        0 <= j < self.entries@.len() && (#[trigger] self.entries@[j]).0@ == k;
                }
            }
            vstd::set_lib::lemma_subset_equality(self@.dom(), other@.dom());
            assert(self@ =~= other@) by {
                assert forall|k: Seq<char>| self@.contains_key(k) implies self@[k] == other@[k] by {
                    let j = choose|j: int|
                        0 <= j < self.entries@.len() && (#[trigger] self.entries@[j]).0@ == k;
                }
            }
        }
        true
    }

    /// The number of entries is the number of bound names.
    proof fn lemma_len_is_card(&self)
        requires
            self.wf(),
        ensures
            self@.dom().finite(),
            self@.dom().len() == self.entries@.len(),
    {
        let keys = self.entries@.map_values(|e: (Identifier, Type)| e.0@);
        assert forall|a: int, b: int| 0 <= a < keys.len() && 0 <= b < keys.len() && a != b
            implies keys[a] != keys[b] by {
            assert(keys[a] == self.entries@[a].0@);
            assert(keys[b] == self.entries@[b].0@);
        }
        assert(keys.no_duplicates());
        assert(keys.to_set() =~= self@.dom()) by {
            assert forall|k: Seq<char>| self@.dom().contains(k) implies keys.to_set().contains(k) by {
                let j = choose|j: int|
                    0 <= j < self.entries@.len() && (#[trigger] self.entries@[j]).0@ == k;
                assert(keys[j] == k);
            }
            assert forall|k: Seq<char>| keys.to_set().contains(k) implies self@.dom().contains(k) by {
                let j = choose|j: int| 0 <= j < keys.len() && keys[j] == k;
                assert(self.entries@[j].0@ == k);
            }
        }
        keys.unique_seq_to_set();
    }
}

} // verus!
