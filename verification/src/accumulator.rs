//! How an accumulator settles into the value it was assembled for.
use crate::monoid::Any;
use crate::monoid::Last;
use crate::monoid::Monoid;
use crate::monoid::Product;
use crate::monoid::Sum;
use crate::numeric::Numeric;
use vstd::prelude::*;

verus! {

/// An accumulator for fields whose resolved type is `A`.
///
/// `resolve` ends the assembling of a field; `seed` starts it again from a
/// resolved value, so that a resolved configuration can serve as the baseline
/// of a further merge.
pub trait Accumulator<A>: Monoid {
    /// The resolved value that `self` settles into.
    spec fn resolve_spec(self) -> A;

    /// The accumulator that holds `value` and nothing else.
    spec fn seed_spec(value: A) -> Self;

    /// Settles the accumulator into its resolved value.
    fn resolve(self) -> (out: A)
        ensures
            out == self.resolve_spec(),
    ;

    /// Embeds a single resolved value as an accumulator.
    fn seed(value: A) -> (out: Self)
        ensures
            out == Self::seed_spec(value),
    ;

    /// A seeded accumulator resolves to the value it was seeded with.
    proof fn lemma_seed_resolves(value: A)
        ensures
            Self::seed_spec(value).resolve_spec() == value,
    ;
}

impl<T> Accumulator<Option<T>> for Last<T> {
    open spec fn resolve_spec(self) -> Option<T> {
        self.0
    }

    open spec fn seed_spec(value: Option<T>) -> Self {
        Last(value)
    }

    fn resolve(self) -> (out: Option<T>) {
        self.0
    }

    fn seed(value: Option<T>) -> (out: Self) {
        Last(value)
    }

    proof fn lemma_seed_resolves(value: Option<T>) {
    }
}

impl<T: Numeric> Accumulator<T> for Sum<T> {
    open spec fn resolve_spec(self) -> T {
        self.0
    }

    open spec fn seed_spec(value: T) -> Self {
        Sum(value)
    }

    fn resolve(self) -> (out: T) {
        self.0
    }

    fn seed(value: T) -> (out: Self) {
        Sum(value)
    }

    proof fn lemma_seed_resolves(value: T) {
    }
}

impl<T: Numeric> Accumulator<T> for Product<T> {
    open spec fn resolve_spec(self) -> T {
        self.0
    }

    open spec fn seed_spec(value: T) -> Self {
        Product(value)
    }

    fn resolve(self) -> (out: T) {
        self.0
    }

    fn seed(value: T) -> (out: Self) {
        Product(value)
    }

    proof fn lemma_seed_resolves(value: T) {
    }
}

impl Accumulator<bool> for Any {
    open spec fn resolve_spec(self) -> bool {
        self.0
    }

    open spec fn seed_spec(value: bool) -> Self {
        Any(value)
    }

    fn resolve(self) -> (out: bool) {
        self.0
    }

    fn seed(value: bool) -> (out: Self) {
        Any(value)
    }

    proof fn lemma_seed_resolves(value: bool) {
    }
}

} // verus!
