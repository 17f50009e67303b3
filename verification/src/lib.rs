//! Conversion capabilities between pairs of types that carry the same data.
//!
//! The heart of the crate is a family of traits: a pair of types is declared
//! to be interchangeable by implementing a correspondence (a spec-level
//! bijection) together with the capabilities a caller may use at run time:
//! borrowing a value of one type as the other, borrowing it mutably, and
//! producing an owned value of the other type. Every capability carries a
//! contract tying its result to the declared correspondence, and symmetric
//! declarations carry a proof obligation that the two directions invert each
//! other.

pub mod iso;
pub mod planar;
pub mod wrap;
