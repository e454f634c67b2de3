//! Numeric building blocks with proved behaviour.
//!
//! - `cast`: conversions between integer domains under four policies (exact,
//!   clipped to a range, clamped to a range, clamped to the target's domain),
//!   for every pair of fixed-width integer types, built on the domain bounds of
//!   `domain`.
//! - `reals`: the `Real` abstraction, a value made of lanes on which every
//!   operation acts lane by lane, with a branchless `select` from which
//!   `clamp`, `min` and `max` are built.
//! - `composite` and `lifting`: the fixed-size composites `T2`, `T3` and `T4`
//!   of the `tuple` crate convert element by element and are `Real` values
//!   whenever their elements are.

pub mod domain;
pub mod cast;
pub mod reals;
pub mod composite;
pub mod lifting;

pub use cast::Cast;
pub use reals::Real;
