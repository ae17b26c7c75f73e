//! What holds of every pair of numerals.
use vstd::prelude::*;
use crate::peano::{
    Peano,
    numeral,
    lemma_canonical,
    lemma_identical_iff_same_value,
    lemma_numeral_value,
    lemma_sum_value,
    lemma_product_value,
};

verus! {

/// Zero is a left identity: `Zero + n` is `n` itself.
pub proof fn zero_sum_is_identity(n: Peano)
    ensures
        Peano::Zero.sum(n) == n,
{
}

/// Zero annihilates: `Zero * n` is `Zero`.
pub proof fn zero_product_is_zero(n: Peano)
    ensures
        Peano::Zero.product(n) == Peano::Zero,
{
}

/// A successor on the left moves outside the sum:
/// `Successor(a) + b` is `Successor(a + b)`.
pub proof fn successor_sum(a: Peano, b: Peano)
    ensures
        Peano::Successor(Box::new(a)).sum(b) == Peano::Successor(Box::new(a.sum(b))),
{
}

/// Addition commutes: `a + b` and `b + a` are identical representations,
/// though the two operands are taken apart differently.
pub proof fn sum_commutes(a: Peano, b: Peano)
    ensures
        a.sum(b) == b.sum(a),
{
    lemma_sum_value(a, b);
    lemma_sum_value(b, a);
    lemma_identical_iff_same_value(a.sum(b), b.sum(a));
}

/// Multiplication commutes: `a * b` and `b * a` are identical representations.
pub proof fn product_commutes(a: Peano, b: Peano)
    ensures
        a.product(b) == b.product(a),
{
    lemma_product_value(a, b);
    lemma_product_value(b, a);
    assert(a.value() * b.value() == b.value() * a.value()) by (nonlinear_arith);
    lemma_identical_iff_same_value(a.product(b), b.product(a));
}

/// A representation denotes `n` exactly when it is `n` successors around zero.
pub proof fn depth_is_value(p: Peano, n: nat)
    ensures
        (p.value() == n) <==> (p == numeral(n)),
{
    lemma_canonical(p);
    lemma_numeral_value(n);
}

} // verus!
