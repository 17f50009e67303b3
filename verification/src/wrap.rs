//! A single-field wrapper, declared interchangeable with its field type.
//!
//! One generic declaration per capability covers every instantiation of the
//! wrapper: `Wrap<u8>`, `Wrap<i32>`, and so on all get their conversions from
//! the impls below, with nothing further to declare per concrete type.
//!
//! Borrowing runs from the wrapper to the field, where the field sits inside
//! the wrapper's storage; the owned conversion runs in both directions, and
//! the pair is declared symmetric, with the round-trip proof that entails.

use crate::iso::Iso;
use crate::iso::IsoMut;
use crate::iso::IsoRef;
use crate::iso::IsoSym;
use crate::iso::IsoValue;
use vstd::prelude::*;

verus! {

/// A wrapper carrying exactly one `T`, standing for that `T` under the
/// conversion capabilities.
#[derive(Clone, Copy, PartialEq, Eq, Debug)]
pub struct Wrap<T>(pub T);

impl<T> Iso<T> for Wrap<T> {
    open spec fn iso(&self) -> T {
        self.0
    }
}

impl<T> Iso<Wrap<T>> for T {
    open spec fn iso(&self) -> Wrap<T> {
        Wrap(*self)
    }
}

impl<T> IsoRef<T> for Wrap<T> {
    fn iso_ref(&self) -> (r: &T) {
        &self.0
    }
}

impl<T> IsoMut<T> for Wrap<T> {
    fn iso_mut(&mut self) -> (r: &mut T) {
        &mut self.0
    }
}

impl<T: Copy> IsoValue<T> for Wrap<T> {
    fn iso_value(&self) -> (r: T) {
        self.0
    }
}

impl<T: Copy> IsoValue<Wrap<T>> for T {
    fn iso_value(&self) -> (r: Wrap<T>) {
        Wrap(*self)
    }
}

impl<T> IsoSym<T> for Wrap<T> {
    proof fn iso_round_trip(&self) {
    }
}

impl<T> IsoSym<Wrap<T>> for T {
    proof fn iso_round_trip(&self) {
    }
}

} // verus!
