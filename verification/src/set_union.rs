//! Accumulated sets: the merge of two sets is their union.
use crate::accumulator::Accumulator;
use crate::monoid::Monoid;
use crate::semigroup::Semigroup;
use std::collections::HashSet;
use std::hash::Hash;
use vstd::prelude::*;

verus! {

broadcast use vstd::std_specs::hash::group_hash_axioms;

/// A type whose values can be the elements of an accumulated set: two values
/// are equal to `==` exactly when they are the same value, and equal values
/// hash alike.
pub trait SetKey: Copy + Eq + Hash {
    /// A hash set of such keys holds the set of keys that were inserted.
    proof fn lemma_obeys_key_model()
        ensures
            vstd::std_specs::hash::obeys_key_model::<Self>(),
    ;
}

impl SetKey for bool {
    proof fn lemma_obeys_key_model() {
    }
}

impl SetKey for u8 {
    proof fn lemma_obeys_key_model() {
    }
}

impl SetKey for u16 {
    proof fn lemma_obeys_key_model() {
    }
}

impl SetKey for u32 {
    proof fn lemma_obeys_key_model() {
    }
}

impl SetKey for u64 {
    proof fn lemma_obeys_key_model() {
    }
}

impl SetKey for u128 {
    proof fn lemma_obeys_key_model() {
    }
}

impl SetKey for usize {
    proof fn lemma_obeys_key_model() {
    }
}

impl SetKey for i8 {
    proof fn lemma_obeys_key_model() {
    }
}

impl SetKey for i16 {
    proof fn lemma_obeys_key_model() {
    }
}

impl SetKey for i32 {
    proof fn lemma_obeys_key_model() {
    }
}

impl SetKey for i64 {
    proof fn lemma_obeys_key_model() {
    }
}

impl SetKey for i128 {
    proof fn lemma_obeys_key_model() {
    }
}

impl SetKey for isize {
    proof fn lemma_obeys_key_model() {
    }
}

/// Inserts every element of `more` into `acc`.
fn union_into<K: SetKey>(acc: HashSet<K>, more: &HashSet<K>) -> (out: HashSet<K>)
    ensures
        out@ == acc@.union(more@),
{
    proof {
        K::lemma_obeys_key_model();
    }
    let mut out = acc;
    for k in iter: more.iter()
        invariant
            vstd::std_specs::hash::obeys_key_model::<K>(),
            iter.seq().unref().to_set() == more@,
            out@ =~= acc@.union(iter.seq().unref().take(iter.index() as int).to_set()),
            iter.index() == iter.seq().len() ==> out@ == acc@.union(more@),
    {
        proof {
            let keys = iter.seq().unref();
            let i = iter.index() as int;
            assert(keys[i] == *k);
            assert(keys.take(i + 1) =~= keys.take(i).push(keys[i]));
            keys.take(i).lemma_push_to_set_commute(keys[i]);
        }
        out.insert(*k);
        proof {
            let keys = iter.seq().unref();
            assert(keys.take(keys.len() as int) =~= keys);
        }
    }
    out
}

impl<K: SetKey> Semigroup for HashSet<K> {
    type Model = Set<K>;

    open spec fn model(&self) -> Set<K> {
        self@
    }

    open spec fn combine_model(left: Set<K>, right: Set<K>) -> Set<K> {
        left.union(right)
    }

    open spec fn combines_with(&self, rhs: &Self) -> bool {
        true
    }

    fn can_combine(&self, rhs: &Self) -> (ok: bool) {
        true
    }

    fn combine(self, rhs: Self) -> (out: Self) {
        union_into(self, &rhs)
    }

    proof fn lemma_combine_associative(a: Set<K>, b: Set<K>, c: Set<K>) {
        assert(a.union(b).union(c) =~= a.union(b.union(c)));
    }
}

impl<K: SetKey> Monoid for HashSet<K> {
    open spec fn empty_model() -> Set<K> {
        Set::empty()
    }

    fn empty() -> (e: Self) {
        HashSet::new()
    }

    proof fn lemma_empty_is_identity(a: Set<K>) {
        assert(Set::<K>::empty().union(a) =~= a);
        assert(a.union(Set::<K>::empty()) =~= a);
    }

    proof fn lemma_empty_combines(e: Self, a: Self) {
    }
}

/// An accumulated set resolves to itself.
impl<K: SetKey> Accumulator<HashSet<K>> for HashSet<K> {
    open spec fn resolve_spec(self) -> HashSet<K> {
        self
    }

    open spec fn seed_spec(value: HashSet<K>) -> Self {
        value
    }

    fn resolve(self) -> (out: HashSet<K>) {
        self
    }

    fn seed(value: HashSet<K>) -> (out: Self) {
        value
    }

    proof fn lemma_seed_resolves(value: HashSet<K>) {
    }
}

} // verus!
