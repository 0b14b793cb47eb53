//! Moving a whole configuration from one phase to the other.
//!
//! A configuration is a field, or a pair of configurations; a record of any
//! number of fields is a nesting of pairs. Finalizing and reopening work field
//! by field, and the fields do not depend on each other.
//!
//! `build_spec` names the fields it yields by [`Select::resolved`] and
//! [`Select::assembling`]; what such a field holds is stated by the lemmas of
//! `crate::select::group_select_view`.
use crate::accumulator::Accumulator;
use crate::select::Build;
use crate::select::Run;
use crate::select::Select;
use crate::select::Selection;
use vstd::prelude::*;

verus! {

/// A configuration of one phase that can be turned into its counterpart of
/// the other phase.
pub trait ConfigBuilder: Sized {
    /// The configuration of the other phase.
    type Target;

    /// The configuration that `build` yields.
    spec fn build_spec(self) -> Self::Target;

    /// Flips the phase: finalizes a configuration that is being assembled,
    /// reopens one that is resolved.
    fn build(self) -> (out: Self::Target)
        ensures
            out == self.build_spec(),
    ;
}

/// Configurations whose phase flips settle: after one flip, flipping twice
/// more changes nothing.
pub trait RoundTrip: ConfigBuilder where Self::Target: ConfigBuilder<Target = Self> {
    /// For a configuration `a` that is being assembled,
    /// `finalize(reopen(finalize(a))) == finalize(a)`; for a resolved one the
    /// same with the two transitions exchanged.
    proof fn lemma_round_trip(self)
        ensures
            self.build_spec().build_spec().build_spec() == self.build_spec(),
    ;
}

impl<M: Accumulator<A>, A> ConfigBuilder for Select<Build, M, A> {
    type Target = Select<Run, M, A>;

    open spec fn build_spec(self) -> Select<Run, M, A> {
        Select::<Run, M, A>::resolved(self@->Build_0.resolve_spec())
    }

    fn build(self) -> (out: Select<Run, M, A>)
        ensures
            out@ == Selection::<M, A>::Run(self@->Build_0.resolve_spec()),
    {
        Select::from(self)
    }
}

impl<M: Accumulator<A>, A> ConfigBuilder for Select<Run, M, A> {
    type Target = Select<Build, M, A>;

    open spec fn build_spec(self) -> Select<Build, M, A> {
        Select::<Build, M, A>::assembling(M::seed_spec(self@->Run_0))
    }

    fn build(self) -> (out: Select<Build, M, A>)
        ensures
            out@ == Selection::<M, A>::Build(M::seed_spec(self@->Run_0)),
    {
        Select::from(self)
    }
}

impl<M: Accumulator<A>, A> RoundTrip for Select<Build, M, A> {
    proof fn lemma_round_trip(self) {
        let value = self@->Build_0.resolve_spec();
        Select::<Run, M, A>::lemma_resolved_view(value);
        Select::<Build, M, A>::lemma_assembling_view(M::seed_spec(value));
        M::lemma_seed_resolves(value);
    }
}

impl<M: Accumulator<A>, A> RoundTrip for Select<Run, M, A> {
    proof fn lemma_round_trip(self) {
        let seeded = M::seed_spec(self@->Run_0);
        Select::<Build, M, A>::lemma_assembling_view(seeded);
        Select::<Run, M, A>::lemma_resolved_view(seeded.resolve_spec());
        M::lemma_seed_resolves(self@->Run_0);
    }
}

impl<X: ConfigBuilder, Y: ConfigBuilder> ConfigBuilder for (X, Y) {
    type Target = (X::Target, Y::Target);

    open spec fn build_spec(self) -> (X::Target, Y::Target) {
        (self.0.build_spec(), self.1.build_spec())
    }

    fn build(self) -> (out: (X::Target, Y::Target)) {
        (self.0.build(), self.1.build())
    }
}

impl<X: RoundTrip, Y: RoundTrip> RoundTrip for (X, Y) where
    X::Target: ConfigBuilder<Target = X>,
    Y::Target: ConfigBuilder<Target = Y>,
 {
    proof fn lemma_round_trip(self) {
        self.0.lemma_round_trip();
        self.1.lemma_round_trip();
    }
}

} // verus!
