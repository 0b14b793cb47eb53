//! Merging of partial configurations.
//!
//! A configuration is collected from several sources, each of which knows
//! only some of the fields. While it is assembled, every field holds an
//! accumulator: a value of a [`Monoid`], with an identity element for "no
//! source said anything" and an associative merge. The assembled
//! configuration is then finalized, field by field, into the values that the
//! program works with.
//!
//! - [`semigroup`] and [`monoid`] hold the two laws and the accumulators
//!   [`Last`], [`Sum`], [`Product`] and [`Any`]; [`set_union`] and
//!   [`default_identity`] add accumulated sets and the types whose default
//!   value is their identity.
//! - [`select`] holds the field, [`Select`], whose type says in which phase
//!   it is.
//! - [`accumulator`] and [`builder`] move fields and whole configurations
//!   between the phases.
pub mod accumulator;
pub mod builder;
pub mod default_identity;
pub mod monoid;
pub mod numeric;
pub mod select;
pub mod semigroup;
pub mod set_union;

pub use accumulator::Accumulator;
pub use builder::ConfigBuilder;
pub use builder::RoundTrip;
pub use default_identity::DefaultIdentity;
pub use default_identity::NeutralDefault;
pub use monoid::Any;
pub use monoid::Last;
pub use monoid::Monoid;
pub use monoid::Product;
pub use monoid::Sum;
pub use numeric::Numeric;
pub use select::Build;
pub use select::Phase;
pub use select::Run;
pub use select::Select;
pub use select::Selection;
pub use semigroup::ExactModel;
pub use semigroup::Semigroup;
pub use set_union::SetKey;
