//! The default value as identity element, for the types that ask for it.
//!
//! Not every type that merges and has a default value has that value as the
//! identity of its merge. A type says so by implementing [`NeutralDefault`],
//! which makes it prove the claim; [`DefaultIdentity`] then wraps it into a
//! [`Monoid`].
use crate::monoid::Monoid;
use crate::semigroup::ExactModel;
use crate::semigroup::Semigroup;
use vstd::prelude::*;
use vstd::std_specs::convert::FromSpecImpl;

verus! {

/// A [`Semigroup`] whose default value is the identity of its merge.
pub trait NeutralDefault: Semigroup + Default {
    /// What the default value stands for.
    spec fn default_model() -> Self::Model;

    /// Every value that `default` returns stands for `default_model()`.
    proof fn lemma_default_model(d: Self)
        requires
            call_ensures(Self::default, (), d),
        ensures
            d.model() == Self::default_model(),
    ;

    /// Merging the default value in, on either side, changes nothing.
    proof fn lemma_default_is_identity(a: Self::Model)
        ensures
            Self::combine_model(Self::default_model(), a) == a,
            Self::combine_model(a, Self::default_model()) == a,
    ;

    /// The default value can be merged with every value, on either side.
    proof fn lemma_default_combines(d: Self, a: Self)
        requires
            d.model() == Self::default_model(),
        ensures
            d.combines_with(&a),
            a.combines_with(&d),
    ;
}

/// An absent value is the identity of the merge of optional values.
impl<T: Semigroup> NeutralDefault for Option<T> {
    open spec fn default_model() -> Option<T::Model> {
        None
    }

    proof fn lemma_default_model(d: Self) {
    }

    proof fn lemma_default_is_identity(a: Option<T::Model>) {
    }

    proof fn lemma_default_combines(d: Self, a: Self) {
    }
}

/// A value that merges as `T` does, with `T`'s default value as identity.
#[derive(Debug, Clone, Copy, PartialEq, Eq, PartialOrd, Ord, Hash)]
pub struct DefaultIdentity<T>(pub T);

impl<T> From<T> for DefaultIdentity<T> {
    fn from(value: T) -> (out: Self) {
        DefaultIdentity(value)
    }
}

impl<T> FromSpecImpl<T> for DefaultIdentity<T> {
    open spec fn obeys_from_spec() -> bool {
        true
    }

    open spec fn from_spec(value: T) -> Self {
        DefaultIdentity(value)
    }
}

impl<T: Semigroup> Semigroup for DefaultIdentity<T> {
    type Model = T::Model;

    open spec fn model(&self) -> T::Model {
        self.0.model()
    }

    open spec fn combine_model(left: T::Model, right: T::Model) -> T::Model {
        T::combine_model(left, right)
    }

    open spec fn combines_with(&self, rhs: &Self) -> bool {
        self.0.combines_with(&rhs.0)
    }

    fn can_combine(&self, rhs: &Self) -> (ok: bool) {
        self.0.can_combine(&rhs.0)
    }

    fn combine(self, rhs: Self) -> (out: Self) {
        DefaultIdentity(self.0.combine(rhs.0))
    }

    proof fn lemma_combine_associative(a: T::Model, b: T::Model, c: T::Model) {
        T::lemma_combine_associative(a, b, c);
    }
}

impl<T: ExactModel> ExactModel for DefaultIdentity<T> {
    proof fn lemma_model_determines(a: Self, b: Self) {
        T::lemma_model_determines(a.0, b.0);
    }
}

impl<T: NeutralDefault> Monoid for DefaultIdentity<T> {
    open spec fn empty_model() -> T::Model {
        T::default_model()
    }

    fn empty() -> (e: Self) {
        let d = T::default();
        proof {
            T::lemma_default_model(d);
        }
        DefaultIdentity(d)
    }

    proof fn lemma_empty_is_identity(a: T::Model) {
        T::lemma_default_is_identity(a);
    }

    proof fn lemma_empty_combines(e: Self, a: Self) {
        T::lemma_default_combines(e.0, a.0);
    }
}

} // verus!
