//! Associative combination.
//!
//! A [`Semigroup`] merges two values of one type into a third. What the merge
//! computes is stated over a mathematical model of the values, so that the
//! law of associativity holds of every triple, also where a machine integer
//! could not hold an intermediate result.
use vstd::prelude::*;

verus! {

/// A type whose values merge associatively.
///
/// The merge need not be commutative: the right operand is the later one, and
/// a policy may prefer it.
pub trait Semigroup: Sized {
    /// The mathematical value that an accumulator stands for.
    type Model;

    /// What `self` stands for.
    spec fn model(&self) -> Self::Model;

    /// The merge of two models, `left` being the earlier one.
    spec fn combine_model(left: Self::Model, right: Self::Model) -> Self::Model;

    /// Whether the type can hold the merge of `self` and `rhs`.
    spec fn combines_with(&self, rhs: &Self) -> bool;

    /// Tests whether the type can hold the merge of `self` and `rhs`.
    fn can_combine(&self, rhs: &Self) -> (ok: bool)
        ensures
            ok == self.combines_with(rhs),
    ;

    /// Merges `rhs` into `self`; `rhs` is the later operand.
    fn combine(self, rhs: Self) -> (out: Self)
        requires
            self.combines_with(&rhs),
        ensures
            out.model() == Self::combine_model(self.model(), rhs.model()),
    ;

    /// Grouping does not matter: `(a . b) . c == a . (b . c)`.
    proof fn lemma_combine_associative(a: Self::Model, b: Self::Model, c: Self::Model)
        ensures
            Self::combine_model(Self::combine_model(a, b), c) == Self::combine_model(
                a,
                Self::combine_model(b, c),
            ),
    ;
}

/// A [`Semigroup`] whose values are determined by what they stand for, so
/// that what is proved of models holds of the values themselves.
pub trait ExactModel: Semigroup {
    /// Two values that stand for the same are the same value.
    proof fn lemma_model_determines(a: Self, b: Self)
        requires
            a.model() == b.model(),
        ensures
            a == b,
    ;
}

/// Associativity, of the values that `combine` returns: with `ab` the merge
/// of `a` and `b`, and `bc` the merge of `b` and `c`, merging `ab` with `c`
/// gives the same value as merging `a` with `bc`.
pub proof fn lemma_regrouping_keeps_value<S: ExactModel>(
    a: S,
    b: S,
    c: S,
    ab: S,
    bc: S,
    left: S,
    right: S,
)
    requires
        ab.model() == S::combine_model(a.model(), b.model()),
        bc.model() == S::combine_model(b.model(), c.model()),
        left.model() == S::combine_model(ab.model(), c.model()),
        right.model() == S::combine_model(a.model(), bc.model()),
    ensures
        left == right,
{
    S::lemma_combine_associative(a.model(), b.model(), c.model());
    S::lemma_model_determines(left, right);
}

/// Two optional values merge by merging what both hold; where only one holds
/// a value, that value is kept.
impl<T: Semigroup> Semigroup for Option<T> {
    type Model = Option<T::Model>;

    open spec fn model(&self) -> Option<T::Model> {
        match *self {
            Some(value) => Some(value.model()),
            None => None,
        }
    }

    open spec fn combine_model(left: Option<T::Model>, right: Option<T::Model>) -> Option<
        T::Model,
    > {
        match (left, right) {
            (Some(l), Some(r)) => Some(T::combine_model(l, r)),
            (Some(l), None) => Some(l),
            (None, r) => r,
        }
    }

    open spec fn combines_with(&self, rhs: &Self) -> bool {
        match (*self, *rhs) {
            (Some(l), Some(r)) => l.combines_with(&r),
            _ => true,
        }
    }

    fn can_combine(&self, rhs: &Self) -> (ok: bool) {
        match (self, rhs) {
            (Some(left), Some(right)) => left.can_combine(right),
            _ => true,
        }
    }

    fn combine(self, rhs: Self) -> (out: Self) {
        match (self, rhs) {
            (Some(left), Some(right)) => Some(left.combine(right)),
            (Some(left), None) => Some(left),
            (None, right) => right,
        }
    }

    proof fn lemma_combine_associative(
        a: Option<T::Model>,
        b: Option<T::Model>,
        c: Option<T::Model>,
    ) {
        if let (Some(x), Some(y), Some(z)) = (a, b, c) {
            T::lemma_combine_associative(x, y, z);
        }
    }
}

impl<T: ExactModel> ExactModel for Option<T> {
    proof fn lemma_model_determines(a: Self, b: Self) {
        if let (Some(x), Some(y)) = (a, b) {
            T::lemma_model_determines(x, y);
        }
    }
}

/// Two aggregates of two parts merge part by part.
impl<X: Semigroup, Y: Semigroup> Semigroup for (X, Y) {
    type Model = (X::Model, Y::Model);

    open spec fn model(&self) -> (X::Model, Y::Model) {
        (self.0.model(), self.1.model())
    }

    open spec fn combine_model(left: (X::Model, Y::Model), right: (X::Model, Y::Model)) -> (
        X::Model,
        Y::Model,
    ) {
        (X::combine_model(left.0, right.0), Y::combine_model(left.1, right.1))
    }

    open spec fn combines_with(&self, rhs: &Self) -> bool {
        self.0.combines_with(&rhs.0) && self.1.combines_with(&rhs.1)
    }

    fn can_combine(&self, rhs: &Self) -> (ok: bool) {
        self.0.can_combine(&rhs.0) && self.1.can_combine(&rhs.1)
    }

    fn combine(self, rhs: Self) -> (out: Self) {
        (self.0.combine(rhs.0), self.1.combine(rhs.1))
    }

    proof fn lemma_combine_associative(
        a: (X::Model, Y::Model),
        b: (X::Model, Y::Model),
        c: (X::Model, Y::Model),
    ) {
        X::lemma_combine_associative(a.0, b.0, c.0);
        Y::lemma_combine_associative(a.1, b.1, c.1);
    }
}

impl<X: ExactModel, Y: ExactModel> ExactModel for (X, Y) {
    proof fn lemma_model_determines(a: Self, b: Self) {
        X::lemma_model_determines(a.0, b.0);
        Y::lemma_model_determines(a.1, b.1);
    }
}

} // verus!
