use vstd::prelude::*;
use crate::peano::Peano;

verus! {

/// A numeral: the one type on which arithmetic is offered. It wraps the bare
/// representation and denotes the same number.
#[derive(Debug)]
pub struct Nat(pub Peano);

impl View for Nat {
    type V = nat;

    open spec fn view(&self) -> nat {
        self.0.value()
    }
}

/// The numeral one greater than `d`.
#[allow(non_snake_case)]
pub fn Succ(d: Nat) -> (r: Nat)
    ensures
        r.0 == Peano::Successor(Box::new(d.0)),
        r@ == d@ + 1,
{
    Nat(Peano::Successor(Box::new(d.0)))
}

impl Nat {
    /// The numeral zero.
    pub fn zero() -> (r: Nat)
        ensures
            r.0 == Peano::Zero,
            r@ == 0,
    {
        Nat(Peano::Zero)
    }

    /// `self + rhs`, resolved on the bare representations.
    pub fn add(&self, rhs: &Nat) -> (r: Nat)
        ensures
            r.0 == self.0.sum(rhs.0),
            r@ == self@ + rhs@,
    {
        Nat(self.0.add(&rhs.0))
    }

    /// `self * rhs`, resolved on the bare representations.
    pub fn mul(&self, rhs: &Nat) -> (r: Nat)
        ensures
            r.0 == self.0.product(rhs.0),
            r@ == self@ * rhs@,
    {
        Nat(self.0.mul(&rhs.0))
    }

    /// Whether two numerals have identical representations.
    pub fn is_same(&self, other: &Nat) -> (r: bool)
        ensures
            r == (self.0 == other.0),
    {
        self.0.is_same(&other.0)
    }

    /// The full nested text of the representation.
    pub fn render(&self) -> (r: String)
        ensures
            r@ == self.0.rendering(),
    {
        self.0.render()
    }
}

} // verus!
