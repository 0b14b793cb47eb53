//! A configuration field in one of two phases.
//!
//! While a configuration is assembled, a field holds an accumulator; once it
//! is resolved, the field holds the final value. The phase is a type
//! parameter of [`Select`], so reading a field in the wrong phase does not
//! type-check, and Verus proves that the payload always matches the phase.
use crate::accumulator::Accumulator;
use crate::monoid::Monoid;
use crate::semigroup::ExactModel;
use crate::semigroup::Semigroup;
use vstd::prelude::*;
use vstd::std_specs::convert::FromSpecImpl;

verus! {

/// A marker for one of the two phases of a field.
pub trait Phase: Sized {
    /// Whether fields of this phase hold an accumulator.
    spec fn holds_accumulator() -> bool;
}

/// The phase in which a field holds its accumulator.
#[derive(Debug, Default, Clone, Copy)]
pub struct Build;

/// The phase in which a field holds its resolved value.
#[derive(Debug, Default, Clone, Copy)]
pub struct Run;

impl Phase for Build {
    open spec fn holds_accumulator() -> bool {
        true
    }
}

impl Phase for Run {
    open spec fn holds_accumulator() -> bool {
        false
    }
}

/// What a field holds: an accumulator `M` or a resolved value `A`.
#[derive(Debug, Clone, Copy)]
pub enum Selection<M, A> {
    Build(M),
    Run(A),
}

impl<M: Default, A> Default for Selection<M, A> {
    /// By default a field holds a default accumulator.
    fn default() -> (out: Self)
        ensures
            out is Build,
            call_ensures(M::default, (), out->Build_0),
    {
        Selection::Build(M::default())
    }
}

/// A field of phase `T` with accumulator type `M` and resolved type `A`.
#[derive(Debug)]
pub struct Select<T: Phase, M, A> {
    inner: Selection<M, A>,
    phase: T,
}

impl<T: Phase, M, A> Select<T, M, A> {
    /// The payload is the one that the phase calls for.
    #[verifier::type_invariant]
    spec fn payload_matches_phase(self) -> bool {
        T::holds_accumulator() <==> self.inner is Build
    }

    /// What the field holds.
    pub closed spec fn view(self) -> Selection<M, A> {
        self.inner
    }
}

impl<T: Phase + Copy, M: Clone, A: Clone> Clone for Select<T, M, A> {
    fn clone(&self) -> (out: Self)
        ensures
            match self@ {
                Selection::Build(m) => out@ is Build && call_ensures(
                    M::clone,
                    (&m,),
                    out@->Build_0,
                ),
                Selection::Run(a) => out@ is Run && call_ensures(A::clone, (&a,), out@->Run_0),
            },
    {
        proof {
            use_type_invariant(self);
        }
        match &self.inner {
            Selection::Build(m) => Select { inner: Selection::Build(m.clone()), phase: self.phase },
            Selection::Run(a) => Select { inner: Selection::Run(a.clone()), phase: self.phase },
        }
    }
}

impl<T: Phase + Copy, M: Copy, A: Copy> Copy for Select<T, M, A> {

}

impl<M: Monoid, A> Default for Select<Build, M, A> {
    /// A fresh field holds the identity of its accumulator: what `M::empty`
    /// returns.
    fn default() -> (out: Self)
        ensures
            out@ is Build,
            call_ensures(M::empty, (), out@->Build_0),
            out@->Build_0.model() == M::empty_model(),
    {
        Select { inner: Selection::Build(M::empty()), phase: Build }
    }
}

impl<M, A> Select<Build, M, A> {
    /// The accumulator of a field that is being assembled.
    pub fn get(&self) -> (m: &M)
        ensures
            self@ == Selection::<M, A>::Build(*m),
    {
        proof {
            use_type_invariant(self);
        }
        match &self.inner {
            Selection::Build(x) => x,
            Selection::Run(_) => vstd::pervasive::unreached(),
        }
    }
}

impl<M, A> Select<Run, M, A> {
    /// The value of a resolved field.
    pub fn value(&self) -> (a: &A)
        ensures
            self@ == Selection::<M, A>::Run(*a),
    {
        proof {
            use_type_invariant(self);
        }
        match &self.inner {
            Selection::Run(x) => x,
            Selection::Build(_) => vstd::pervasive::unreached(),
        }
    }

    /// Takes the value out of a resolved field.
    pub fn get(self) -> (a: A)
        ensures
            self@ == Selection::<M, A>::Run(a),
    {
        proof {
            use_type_invariant(&self);
        }
        match self.inner {
            Selection::Run(x) => x,
            Selection::Build(_) => vstd::pervasive::unreached(),
        }
    }
}

impl<M, A: Default> Select<Run, M, A> {
    /// Takes the value out of a resolved field and leaves a default value of
    /// `A` in its place.
    pub fn take(&mut self) -> (a: A)
        ensures
            old(self)@ == Selection::<M, A>::Run(a),
            final(self)@ is Run,
            call_ensures(A::default, (), final(self)@->Run_0),
    {
        proof {
            use_type_invariant(&*self);
        }
        let mut taken = Selection::Run(A::default());
        core::mem::swap(&mut taken, &mut self.inner);
        match taken {
            Selection::Run(x) => x,
            Selection::Build(_) => vstd::pervasive::unreached(),
        }
    }
}

impl<M, A> Select<Build, M, A> {
    /// The field that is being assembled and holds the accumulator `m`.
    pub closed spec fn assembling(m: M) -> Self {
        Select { inner: Selection::Build(m), phase: Build }
    }

    /// `assembling(m)` holds `m`.
    pub broadcast proof fn lemma_assembling_view(m: M)
        ensures
            (#[trigger] Self::assembling(m))@ == Selection::<M, A>::Build(m),
    {
    }
}

impl<M, A> Select<Run, M, A> {
    /// The resolved field that holds the value `a`.
    pub closed spec fn resolved(a: A) -> Self {
        Select { inner: Selection::Run(a), phase: Run }
    }

    /// `resolved(a)` holds `a`.
    pub broadcast proof fn lemma_resolved_view(a: A)
        ensures
            (#[trigger] Self::resolved(a))@ == Selection::<M, A>::Run(a),
    {
    }
}

impl<M, A> Select<Build, M, A> {
    /// Finalizes the field with a mapping that the caller supplies: the
    /// resolved field holds what `resolve` makes of the accumulator.
    pub fn finalize_with<F: FnOnce(M) -> A>(self, resolve: F) -> (out: Select<Run, M, A>)
        requires
            resolve.requires((self@->Build_0,)),
        ensures
            out@ is Run,
            resolve.ensures((self@->Build_0,), out@->Run_0),
    {
        proof {
            use_type_invariant(&self);
        }
        match self.inner {
            Selection::Build(m) => Select { inner: Selection::Run(resolve(m)), phase: Run },
            Selection::Run(_) => vstd::pervasive::unreached(),
        }
    }
}

impl<M, A> Select<Run, M, A> {
    /// Reopens the field with a mapping that the caller supplies: the field
    /// holds the accumulator that `seed` makes of the resolved value.
    pub fn reopen_with<F: FnOnce(A) -> M>(self, seed: F) -> (out: Select<Build, M, A>)
        requires
            seed.requires((self@->Run_0,)),
        ensures
            out@ is Build,
            seed.ensures((self@->Run_0,), out@->Build_0),
    {
        proof {
            use_type_invariant(&self);
        }
        match self.inner {
            Selection::Run(a) => Select { inner: Selection::Build(seed(a)), phase: Build },
            Selection::Build(_) => vstd::pervasive::unreached(),
        }
    }
}

/// What the fields made by `assembling` and `resolved` hold.
pub broadcast group group_select_view {
    Select::<Build, _, _>::lemma_assembling_view,
    Select::<Run, _, _>::lemma_resolved_view,
}

/// A field that is being assembled, seeded with a single resolved value.
impl<M: Accumulator<A>, A> From<A> for Select<Build, M, A> {
    fn from(value: A) -> (out: Self)
        ensures
            out@ == Selection::<M, A>::Build(M::seed_spec(value)),
    {
        Select { inner: Selection::Build(M::seed(value)), phase: Build }
    }
}

impl<M: Accumulator<A>, A> FromSpecImpl<A> for Select<Build, M, A> {
    open spec fn obeys_from_spec() -> bool {
        true
    }

    open spec fn from_spec(value: A) -> Self {
        Select::<Build, M, A>::assembling(M::seed_spec(value))
    }
}

/// A resolved field that holds `value`.
impl<M: Monoid, A> From<A> for Select<Run, M, A> {
    fn from(value: A) -> (out: Self)
        ensures
            out@ == Selection::<M, A>::Run(value),
    {
        Select { inner: Selection::Run(value), phase: Run }
    }
}

impl<M: Monoid, A> FromSpecImpl<A> for Select<Run, M, A> {
    open spec fn obeys_from_spec() -> bool {
        true
    }

    open spec fn from_spec(value: A) -> Self {
        Select::<Run, M, A>::resolved(value)
    }
}

/// Reopens a resolved field: its value seeds the accumulator.
impl<M: Accumulator<A>, A> From<Select<Run, M, A>> for Select<Build, M, A> {
    fn from(value: Select<Run, M, A>) -> (out: Self)
        ensures
            out@ == Selection::<M, A>::Build(M::seed_spec(value@->Run_0)),
    {
        proof {
            use_type_invariant(&value);
        }
        match value.inner {
            Selection::Run(a) => Select { inner: Selection::Build(M::seed(a)), phase: Build },
            Selection::Build(_) => vstd::pervasive::unreached(),
        }
    }
}

impl<M: Accumulator<A>, A> FromSpecImpl<Select<Run, M, A>> for Select<Build, M, A> {
    open spec fn obeys_from_spec() -> bool {
        true
    }

    open spec fn from_spec(value: Select<Run, M, A>) -> Self {
        Select::<Build, M, A>::assembling(M::seed_spec(value@->Run_0))
    }
}

/// Finalizes a field: its accumulator settles into the resolved value.
impl<M: Accumulator<A>, A> From<Select<Build, M, A>> for Select<Run, M, A> {
    fn from(value: Select<Build, M, A>) -> (out: Self)
        ensures
            out@ == Selection::<M, A>::Run(value@->Build_0.resolve_spec()),
    {
        proof {
            use_type_invariant(&value);
        }
        match value.inner {
            Selection::Build(m) => Select { inner: Selection::Run(m.resolve()), phase: Run },
            Selection::Run(_) => vstd::pervasive::unreached(),
        }
    }
}

impl<M: Accumulator<A>, A> FromSpecImpl<Select<Build, M, A>> for Select<Run, M, A> {
    open spec fn obeys_from_spec() -> bool {
        true
    }

    open spec fn from_spec(value: Select<Build, M, A>) -> Self {
        Select::<Run, M, A>::resolved(value@->Build_0.resolve_spec())
    }
}

/// Two fields that are being assembled merge by merging their accumulators.
impl<M: Semigroup, A> Semigroup for Select<Build, M, A> {
    type Model = M::Model;

    open spec fn model(&self) -> M::Model {
        self@->Build_0.model()
    }

    open spec fn combine_model(left: M::Model, right: M::Model) -> M::Model {
        M::combine_model(left, right)
    }

    open spec fn combines_with(&self, rhs: &Self) -> bool {
        self@->Build_0.combines_with(&rhs@->Build_0)
    }

    fn can_combine(&self, rhs: &Self) -> (ok: bool) {
        self.get().can_combine(rhs.get())
    }

    fn combine(self, rhs: Self) -> (out: Self)
        ensures
            out@ is Build,
    {
        proof {
            use_type_invariant(&self);
            use_type_invariant(&rhs);
        }
        match (self.inner, rhs.inner) {
            (Selection::Build(left), Selection::Build(right)) => Select {
                inner: Selection::Build(left.combine(right)),
                phase: Build,
            },
            _ => vstd::pervasive::unreached(),
        }
    }

    proof fn lemma_combine_associative(a: M::Model, b: M::Model, c: M::Model) {
        M::lemma_combine_associative(a, b, c);
    }
}

impl<M: Monoid, A> Monoid for Select<Build, M, A> {
    open spec fn empty_model() -> M::Model {
        M::empty_model()
    }

    /// The identity field is being assembled and holds what `M::empty`
    /// returns.
    fn empty() -> (e: Self)
        ensures
            e@ is Build,
            call_ensures(M::empty, (), e@->Build_0),
    {
        Select { inner: Selection::Build(M::empty()), phase: Build }
    }

    proof fn lemma_empty_is_identity(a: M::Model) {
        M::lemma_empty_is_identity(a);
    }

    proof fn lemma_empty_combines(e: Self, a: Self) {
        M::lemma_empty_combines(e@->Build_0, a@->Build_0);
    }
}

/// Merging two phase markers keeps the marker.
impl Semigroup for Build {
    type Model = ();

    open spec fn model(&self) -> () {
        ()
    }

    open spec fn combine_model(left: (), right: ()) -> () {
        ()
    }

    open spec fn combines_with(&self, rhs: &Self) -> bool {
        true
    }

    fn can_combine(&self, rhs: &Self) -> (ok: bool) {
        true
    }

    fn combine(self, _rhs: Self) -> (out: Self)
        ensures
            out == self,
    {
        self
    }

    proof fn lemma_combine_associative(a: (), b: (), c: ()) {
    }
}

impl ExactModel for Build {
    proof fn lemma_model_determines(a: Self, b: Self) {
    }
}

impl Monoid for Build {
    open spec fn empty_model() -> () {
        ()
    }

    fn empty() -> (e: Self) {
        Build
    }

    proof fn lemma_empty_is_identity(a: ()) {
    }

    proof fn lemma_empty_combines(e: Self, a: Self) {
    }
}

} // verus!
