//! A concrete symmetric pair whose correspondence renames fields.
//!
//! `Point` and `Offset` carry the same two coordinates under different field
//! names. The pair is declared interchangeable by owned conversion in both
//! directions, and symmetric, so each direction owes the round-trip proof.
//! No borrowing capability is declared here: handing a borrow of one struct
//! out as the other would need both to live in the same storage, which only
//! a single-field wrapper such as [`crate::wrap::Wrap`] provides safely.

use crate::iso::Iso;
use crate::iso::IsoSym;
use crate::iso::IsoValue;
use vstd::prelude::*;

verus! {

/// A position in the plane.
#[derive(Clone, Copy, PartialEq, Eq, Debug)]
pub struct Point {
    pub x: i32,
    pub y: i32,
}

/// A displacement in the plane, carrying the same two coordinates as
/// [`Point`].
#[derive(Clone, Copy, PartialEq, Eq, Debug)]
pub struct Offset {
    pub dx: i32,
    pub dy: i32,
}

impl Iso<Offset> for Point {
    open spec fn iso(&self) -> Offset {
        Offset { dx: self.x, dy: self.y }
    }
}

impl Iso<Point> for Offset {
    open spec fn iso(&self) -> Point {
        Point { x: self.dx, y: self.dy }
    }
}

impl IsoValue<Offset> for Point {
    fn iso_value(&self) -> (r: Offset) {
        Offset { dx: self.x, dy: self.y }
    }
}

impl IsoValue<Point> for Offset {
    fn iso_value(&self) -> (r: Point) {
        Point { x: self.dx, y: self.dy }
    }
}

impl IsoSym<Offset> for Point {
    proof fn iso_round_trip(&self) {
    }
}

impl IsoSym<Point> for Offset {
    proof fn iso_round_trip(&self) {
    }
}

} // verus!
