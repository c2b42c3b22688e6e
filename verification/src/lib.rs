//! Interval abstract domain over arbitrary-precision integers extended
//! with positive and negative infinity.

mod bigint;
mod bound;
mod interval;
pub mod soundness;

pub use bigint::BigInt;
pub use bound::Sign;
pub use bound::Bound;
pub use interval::Interval;
