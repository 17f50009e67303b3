//! The conversion capability traits and the generic entry points built on them.

use vstd::prelude::*;

verus! {

/// The specification side of a conversion: each value of `Self` stands for
/// exactly one value of `Dst`. Implementing this trait is the declaration
/// that the two types carry the same data; the executable capabilities below
/// are each tied to this correspondence by their contracts.
pub trait Iso<Dst> {
    /// The `Dst` value that `self` stands for.
    spec fn iso(&self) -> Dst;
}

/// Read-only borrowing capability: a `&Self` may be read as a `&Dst`.
pub trait IsoRef<Dst>: Iso<Dst> {
    /// Borrow `self` as the corresponding `Dst`.
    fn iso_ref(&self) -> (r: &Dst)
        ensures
            *r == self.iso();
}

/// Exclusive borrowing capability: a `&mut Self` may be written through as a
/// `&mut Dst`. The borrow starts out reading as the value `self` stood for,
/// and once it ends, `self` stands for whatever was last written through it:
/// a write through the borrowed `Dst` is observable through the original
/// `Self` value.
pub trait IsoMut<Dst>: Iso<Dst> {
    /// Borrow `self` exclusively as the corresponding `Dst`.
    fn iso_mut(&mut self) -> (r: &mut Dst)
        ensures
            *r == (*old(self)).iso(),
            (*final(self)).iso() == *final(r);
}

/// Owned conversion capability: an independent `Dst` value may be made from a
/// `&Self`, leaving the original untouched (the receiver is only read).
pub trait IsoValue<Dst>: Iso<Dst> {
    /// Produce the `Dst` value that `self` stands for, as a fresh owned value.
    fn iso_value(&self) -> (r: Dst)
        ensures
            r == self.iso();
}

/// A symmetric declaration: `Self` and `Dst` each stand for the other, and
/// the two correspondences invert each other. Implementing this trait in both
/// directions is what it means for a pair to be declared equal rather than
/// merely convertible one way: every implementation owes the proof that going
/// over to `Dst` and reading the result back as `Self` reproduces the
/// original value exactly.
pub trait IsoSym<Dst>: Iso<Dst> + Sized where Dst: Iso<Self> {
    /// Going `Self -> Dst -> Self` along the declared correspondences is the
    /// identity.
    proof fn iso_round_trip(&self)
        ensures
            self.iso().iso() == *self;
}

/// Every type corresponds to itself, and the borrow it hands out reads back
/// as the original value.
impl<A> Iso<A> for A {
    open spec fn iso(&self) -> A {
        *self
    }
}

impl<A> IsoRef<A> for A {
    fn iso_ref(&self) -> (r: &A) {
        self
    }
}

impl<A> IsoMut<A> for A {
    fn iso_mut(&mut self) -> (r: &mut A) {
        self
    }
}

impl<A: Copy> IsoValue<A> for A {
    fn iso_value(&self) -> (r: A) {
        *self
    }
}

impl<A> IsoSym<A> for A {
    proof fn iso_round_trip(&self) {
    }
}

/// Read a `&Src` as a `&Dst`, for any pair declared interchangeable through
/// [`IsoRef`]. The result is the `Dst` value that `from` stands for.
pub fn ref_of<Src: IsoRef<Dst>, Dst>(from: &Src) -> (r: &Dst)
    ensures
        *r == from.iso(),
{
    from.iso_ref()
}

/// Write through a `&mut Src` as a `&mut Dst`, for any pair declared
/// interchangeable through [`IsoMut`]. The borrow starts at the value `from`
/// stands for; when it ends, `from` stands for whatever was written.
pub fn mut_ref_of<Src: IsoMut<Dst>, Dst>(from: &mut Src) -> (r: &mut Dst)
    ensures
        *r == (*old(from)).iso(),
        (*final(from)).iso() == *final(r),
{
    from.iso_mut()
}

/// Make an owned `Dst` out of a `&Src`, for any pair declared
/// interchangeable through [`IsoValue`]. The source is only read: it stays
/// live and unchanged, and the result is an independent value.
pub fn clone_of<Src: IsoValue<Dst>, Dst>(from: &Src) -> (r: Dst)
    ensures
        r == from.iso(),
{
    from.iso_value()
}

/// Under the identity correspondence every value stands for itself: reading
/// any value as its own type yields that very value, so [`ref_of`] from a
/// type to itself hands back a borrow that reads as its input.
pub proof fn lemma_identity<A>(a: A)
    ensures
        <A as Iso<A>>::iso(&a) == a,
{
}

/// The law behind a symmetric declaration, stated over any pair that made
/// one: converting a value over and reading the result back reproduces it.
pub proof fn lemma_round_trip<A: IsoSym<B>, B: Iso<A>>(a: A)
    ensures
        a.iso().iso() == a,
{
    a.iso_round_trip();
}

/// Carry a value over to `B` and back to `A` through the owned-conversion
/// capabilities of a symmetric pair. The result is the original value again.
pub fn round_trip<A: IsoValue<B> + IsoSym<B>, B: IsoValue<A>>(from: &A) -> (r: A)
    ensures
        r == *from,
{
    let over: B = from.iso_value();
    let back: A = over.iso_value();
    proof {
        from.iso_round_trip();
    }
    back
}

} // verus!
