//! Identity elements, and the accumulators that configurations are made of.
use crate::numeric::Numeric;
use crate::semigroup::ExactModel;
use crate::semigroup::Semigroup;
use std::cmp::Ordering;
use vstd::prelude::*;
use vstd::std_specs::cmp::PartialEqSpec;
use vstd::std_specs::cmp::PartialEqSpecImpl;
use vstd::std_specs::cmp::PartialOrdSpec;
use vstd::std_specs::cmp::PartialOrdSpecImpl;
use vstd::std_specs::convert::FromSpecImpl;

verus! {

/// A [`Semigroup`] with an identity element: merging it in, on either side,
/// changes nothing.
pub trait Monoid: Semigroup {
    /// What the identity element stands for.
    spec fn empty_model() -> Self::Model;

    /// The identity element.
    fn empty() -> (e: Self)
        ensures
            e.model() == Self::empty_model(),
    ;

    /// `empty . a == a` and `a . empty == a`.
    proof fn lemma_empty_is_identity(a: Self::Model)
        ensures
            Self::combine_model(Self::empty_model(), a) == a,
            Self::combine_model(a, Self::empty_model()) == a,
    ;

    /// The identity element can be merged with every value, on either side.
    proof fn lemma_empty_combines(e: Self, a: Self)
        requires
            e.model() == Self::empty_model(),
        ensures
            e.combines_with(&a),
            a.combines_with(&e),
    ;
}

/// The identity law, of the values that `combine` returns: merging the
/// identity element `e` into `a`, from the left or from the right, gives `a`.
pub proof fn lemma_empty_keeps_value<M: Monoid + ExactModel>(e: M, a: M, left: M, right: M)
    requires
        e.model() == M::empty_model(),
        left.model() == M::combine_model(e.model(), a.model()),
        right.model() == M::combine_model(a.model(), e.model()),
    ensures
        left == a,
        right == a,
{
    M::lemma_empty_is_identity(a.model());
    M::lemma_model_determines(left, a);
    M::lemma_model_determines(right, a);
}

/// Two aggregates of two parts have the pair of their parts' identities as
/// identity.
impl<X: Monoid, Y: Monoid> Monoid for (X, Y) {
    open spec fn empty_model() -> (X::Model, Y::Model) {
        (X::empty_model(), Y::empty_model())
    }

    fn empty() -> (e: Self) {
        (X::empty(), Y::empty())
    }

    proof fn lemma_empty_is_identity(a: (X::Model, Y::Model)) {
        X::lemma_empty_is_identity(a.0);
        Y::lemma_empty_is_identity(a.1);
    }

    proof fn lemma_empty_combines(e: Self, a: Self) {
        X::lemma_empty_combines(e.0, a.0);
        Y::lemma_empty_combines(e.1, a.1);
    }
}

/// An optional value of which the latest one present wins.
#[derive(Debug, Clone, Copy, PartialEq, Eq, PartialOrd, Ord, Hash)]
pub struct Last<T>(pub Option<T>);

impl<T> Default for Last<T> {
    fn default() -> (out: Self)
        ensures
            out.0 is None,
    {
        Last(None)
    }
}

impl<T> From<T> for Last<T> {
    fn from(value: T) -> (out: Self) {
        Last(Some(value))
    }
}

impl<T> FromSpecImpl<T> for Last<T> {
    open spec fn obeys_from_spec() -> bool {
        true
    }

    open spec fn from_spec(value: T) -> Self {
        Last(Some(value))
    }
}

impl<T> From<Option<T>> for Last<T> {
    fn from(value: Option<T>) -> (out: Self) {
        Last(value)
    }
}

impl<T> FromSpecImpl<Option<T>> for Last<T> {
    open spec fn obeys_from_spec() -> bool {
        true
    }

    open spec fn from_spec(value: Option<T>) -> Self {
        Last(value)
    }
}

impl<T> From<Last<T>> for Option<T> {
    fn from(value: Last<T>) -> (out: Self) {
        value.0
    }
}

impl<T> FromSpecImpl<Last<T>> for Option<T> {
    open spec fn obeys_from_spec() -> bool {
        true
    }

    open spec fn from_spec(value: Last<T>) -> Self {
        value.0
    }
}

impl<T> Semigroup for Last<T> {
    type Model = Option<T>;

    open spec fn model(&self) -> Option<T> {
        self.0
    }

    open spec fn combine_model(left: Option<T>, right: Option<T>) -> Option<T> {
        if right is Some {
            right
        } else {
            left
        }
    }

    open spec fn combines_with(&self, rhs: &Self) -> bool {
        true
    }

    fn can_combine(&self, rhs: &Self) -> (ok: bool) {
        true
    }

    fn combine(self, rhs: Self) -> (out: Self) {
        match rhs.0 {
            Some(value) => Last(Some(value)),
            None => self,
        }
    }

    proof fn lemma_combine_associative(a: Option<T>, b: Option<T>, c: Option<T>) {
    }
}

impl<T> ExactModel for Last<T> {
    proof fn lemma_model_determines(a: Self, b: Self) {
    }
}

/// The later of two values that are present wins, and a value that is
/// present wins over one that is absent, on whichever side it stands.
pub proof fn lemma_last_prefers_later<T>(x: T, y: T)
    ensures
        Last::<T>::combine_model(None, Some(x)) == Some(x),
        Last::<T>::combine_model(Some(x), None) == Some(x),
        Last::<T>::combine_model(Some(x), Some(y)) == Some(y),
{
}

impl<T> Monoid for Last<T> {
    open spec fn empty_model() -> Option<T> {
        None
    }

    fn empty() -> (e: Self) {
        Last(None)
    }

    proof fn lemma_empty_is_identity(a: Option<T>) {
    }

    proof fn lemma_empty_combines(e: Self, a: Self) {
    }
}

/// A running total.
#[derive(Debug, Clone, Copy, PartialEq, Eq, PartialOrd, Ord)]
pub struct Sum<T>(pub T);

impl<T: PartialEq> PartialEq<T> for Sum<T> {
    fn eq(&self, other: &T) -> (out: bool) {
        self.0 == *other
    }
}

impl<T: PartialEq> PartialEqSpecImpl<T> for Sum<T> {
    open spec fn obeys_eq_spec() -> bool {
        T::obeys_eq_spec()
    }

    open spec fn eq_spec(&self, other: &T) -> bool {
        self.0.eq_spec(other)
    }
}

impl<T: PartialOrd> PartialOrd<T> for Sum<T> {
    fn partial_cmp(&self, other: &T) -> (out: Option<Ordering>) {
        self.0.partial_cmp(other)
    }
}

impl<T: PartialOrd> PartialOrdSpecImpl<T> for Sum<T> {
    open spec fn obeys_partial_cmp_spec() -> bool {
        T::obeys_partial_cmp_spec()
    }

    open spec fn partial_cmp_spec(&self, other: &T) -> Option<Ordering> {
        self.0.partial_cmp_spec(other)
    }
}

impl<T> From<T> for Sum<T> {
    fn from(value: T) -> (out: Self) {
        Sum(value)
    }
}

impl<T> FromSpecImpl<T> for Sum<T> {
    open spec fn obeys_from_spec() -> bool {
        true
    }

    open spec fn from_spec(value: T) -> Self {
        Sum(value)
    }
}

impl<T: Numeric> Semigroup for Sum<T> {
    type Model = int;

    open spec fn model(&self) -> int {
        self.0.value()
    }

    open spec fn combine_model(left: int, right: int) -> int {
        left + right
    }

    open spec fn combines_with(&self, rhs: &Self) -> bool {
        T::in_range(self.0.value() + rhs.0.value())
    }

    fn can_combine(&self, rhs: &Self) -> (ok: bool) {
        self.0.can_plus(rhs.0)
    }

    fn combine(self, rhs: Self) -> (out: Self) {
        Sum(self.0.plus(rhs.0))
    }

    proof fn lemma_combine_associative(a: int, b: int, c: int) {
    }
}

impl<T: Numeric> ExactModel for Sum<T> {
    proof fn lemma_model_determines(a: Self, b: Self) {
        T::lemma_value_determines(a.0, b.0);
    }
}

impl<T: Numeric> Monoid for Sum<T> {
    open spec fn empty_model() -> int {
        0
    }

    fn empty() -> (e: Self) {
        Sum(T::zero())
    }

    proof fn lemma_empty_is_identity(a: int) {
    }

    proof fn lemma_empty_combines(e: Self, a: Self) {
        a.0.lemma_value_in_range();
    }
}

/// A running product.
#[derive(Debug, Clone, Copy, PartialEq, Eq, PartialOrd, Ord)]
pub struct Product<T>(pub T);

impl<T: PartialEq> PartialEq<T> for Product<T> {
    fn eq(&self, other: &T) -> (out: bool) {
        self.0 == *other
    }
}

impl<T: PartialEq> PartialEqSpecImpl<T> for Product<T> {
    open spec fn obeys_eq_spec() -> bool {
        T::obeys_eq_spec()
    }

    open spec fn eq_spec(&self, other: &T) -> bool {
        self.0.eq_spec(other)
    }
}

impl<T: PartialOrd> PartialOrd<T> for Product<T> {
    fn partial_cmp(&self, other: &T) -> (out: Option<Ordering>) {
        self.0.partial_cmp(other)
    }
}

impl<T: PartialOrd> PartialOrdSpecImpl<T> for Product<T> {
    open spec fn obeys_partial_cmp_spec() -> bool {
        T::obeys_partial_cmp_spec()
    }

    open spec fn partial_cmp_spec(&self, other: &T) -> Option<Ordering> {
        self.0.partial_cmp_spec(other)
    }
}

impl<T> From<T> for Product<T> {
    fn from(value: T) -> (out: Self) {
        Product(value)
    }
}

impl<T> FromSpecImpl<T> for Product<T> {
    open spec fn obeys_from_spec() -> bool {
        true
    }

    open spec fn from_spec(value: T) -> Self {
        Product(value)
    }
}

impl<T: Numeric> Semigroup for Product<T> {
    type Model = int;

    open spec fn model(&self) -> int {
        self.0.value()
    }

    open spec fn combine_model(left: int, right: int) -> int {
        left * right
    }

    open spec fn combines_with(&self, rhs: &Self) -> bool {
        T::in_range(self.0.value() * rhs.0.value())
    }

    fn can_combine(&self, rhs: &Self) -> (ok: bool) {
        self.0.can_times(rhs.0)
    }

    fn combine(self, rhs: Self) -> (out: Self) {
        Product(self.0.times(rhs.0))
    }

    proof fn lemma_combine_associative(a: int, b: int, c: int) {
        assert((a * b) * c == a * (b * c)) by (nonlinear_arith);
    }
}

impl<T: Numeric> ExactModel for Product<T> {
    proof fn lemma_model_determines(a: Self, b: Self) {
        T::lemma_value_determines(a.0, b.0);
    }
}

impl<T: Numeric> Monoid for Product<T> {
    open spec fn empty_model() -> int {
        1
    }

    fn empty() -> (e: Self) {
        Product(T::one())
    }

    proof fn lemma_empty_is_identity(a: int) {
    }

    proof fn lemma_empty_combines(e: Self, a: Self) {
        a.0.lemma_value_in_range();
        assert(1 * a.0.value() == a.0.value());
        assert(a.0.value() * 1 == a.0.value());
    }
}

/// A flag that is set once any source sets it.
#[derive(Debug, Clone, Copy, PartialEq, Eq, PartialOrd, Ord, Hash)]
pub struct Any(pub bool);

impl PartialEq<bool> for Any {
    fn eq(&self, other: &bool) -> (out: bool) {
        self.0 == *other
    }
}

impl PartialEqSpecImpl<bool> for Any {
    open spec fn obeys_eq_spec() -> bool {
        true
    }

    open spec fn eq_spec(&self, other: &bool) -> bool {
        self.0 == *other
    }
}

impl PartialOrd<bool> for Any {
    fn partial_cmp(&self, other: &bool) -> (out: Option<Ordering>) {
        if self.0 == *other {
            Some(Ordering::Equal)
        } else if *other {
            Some(Ordering::Less)
        } else {
            Some(Ordering::Greater)
        }
    }
}

impl PartialOrdSpecImpl<bool> for Any {
    open spec fn obeys_partial_cmp_spec() -> bool {
        true
    }

    open spec fn partial_cmp_spec(&self, other: &bool) -> Option<Ordering> {
        if self.0 == *other {
            Some(Ordering::Equal)
        } else if *other {
            Some(Ordering::Less)
        } else {
            Some(Ordering::Greater)
        }
    }
}

impl Default for Any {
    fn default() -> (out: Self)
        ensures
            !out.0,
    {
        Any(false)
    }
}

impl From<bool> for Any {
    fn from(value: bool) -> (out: Self) {
        Any(value)
    }
}

impl FromSpecImpl<bool> for Any {
    open spec fn obeys_from_spec() -> bool {
        true
    }

    open spec fn from_spec(value: bool) -> Self {
        Any(value)
    }
}

impl Semigroup for Any {
    type Model = bool;

    open spec fn model(&self) -> bool {
        self.0
    }

    open spec fn combine_model(left: bool, right: bool) -> bool {
        left || right
    }

    open spec fn combines_with(&self, rhs: &Self) -> bool {
        true
    }

    fn can_combine(&self, rhs: &Self) -> (ok: bool) {
        true
    }

    fn combine(self, rhs: Self) -> (out: Self) {
        Any(self.0 || rhs.0)
    }

    proof fn lemma_combine_associative(a: bool, b: bool, c: bool) {
    }
}

impl ExactModel for Any {
    proof fn lemma_model_determines(a: Self, b: Self) {
    }
}

impl Monoid for Any {
    open spec fn empty_model() -> bool {
        false
    }

    fn empty() -> (e: Self) {
        Any(false)
    }

    proof fn lemma_empty_is_identity(a: bool) {
    }

    proof fn lemma_empty_combines(e: Self, a: Self) {
    }
}

} // verus!
