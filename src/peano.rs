use vstd::prelude::*;

verus! {

/// The bare representation of a numeral: `Zero`, or one `Successor` around
/// the representation of the numeral one smaller.
#[derive(Debug)]
pub enum Peano {
    Zero,
    Successor(Box<Peano>),
}

/// The canonical representation of `n`: exactly `n` successors around zero.
pub open spec fn numeral(n: nat) -> Peano
    decreases n,
{
    if n == 0 {
        Peano::Zero
    } else {
        Peano::Successor(Box::new(numeral((n - 1) as nat)))
    }
}

impl Peano {
    /// The number a representation denotes: its nesting depth.
    pub open spec fn value(self) -> nat
        decreases self,
    {
        match self {
            Peano::Zero => 0,
            Peano::Successor(n) => n.value() + 1,
        }
    }

    /// Addition by recursion on the left operand:
    /// `0 + m = m` and `s(n) + m = s(n + m)`.
    pub open spec fn sum(self, m: Peano) -> Peano
        decreases self,
    {
        match self {
            Peano::Zero => m,
            Peano::Successor(n) => Peano::Successor(Box::new(n.sum(m))),
        }
    }

    /// Multiplication by recursion on the left operand:
    /// `0 * m = 0` and `s(n) * m = m + (n * m)`.
    pub open spec fn product(self, m: Peano) -> Peano
        decreases self,
    {
        match self {
            Peano::Zero => Peano::Zero,
            Peano::Successor(n) => m.sum(n.product(m)),
        }
    }

    /// The text of a representation, showing its full nesting.
    pub open spec fn rendering(self) -> Seq<char>
        decreases self,
    {
        match self {
            Peano::Zero => "Zero"@,
            Peano::Successor(n) => "Successor("@ + n.rendering() + ")"@,
        }
    }
}

/// Every representation is the canonical one of the number it denotes.
pub proof fn lemma_canonical(p: Peano)
    ensures
        p == numeral(p.value()),
    decreases p,
{
    match p {
        Peano::Zero => {},
        Peano::Successor(n) => {
            lemma_canonical(*n);
        },
    }
}

/// The canonical representation of `n` denotes `n`.
pub proof fn lemma_numeral_value(n: nat)
    ensures
        numeral(n).value() == n,
    decreases n,
{
    if n > 0 {
        lemma_numeral_value((n - 1) as nat);
    }
}

/// Two representations are identical exactly when they denote the same number.
pub proof fn lemma_identical_iff_same_value(a: Peano, b: Peano)
    ensures
        (a == b) <==> (a.value() == b.value()),
{
    lemma_canonical(a);
    lemma_canonical(b);
}

/// The sum of two representations denotes the sum of their values.
pub proof fn lemma_sum_value(a: Peano, b: Peano)
    ensures
        a.sum(b).value() == a.value() + b.value(),
    decreases a,
{
    match a {
        Peano::Zero => {},
        Peano::Successor(n) => {
            lemma_sum_value(*n, b);
        },
    }
}

/// The product of two representations denotes the product of their values.
pub proof fn lemma_product_value(a: Peano, b: Peano)
    ensures
        a.product(b).value() == a.value() * b.value(),
    decreases a,
{
    match a {
        Peano::Zero => {
            assert(a.value() * b.value() == 0) by (nonlinear_arith)
                requires
                    a.value() == 0,
            ;
        },
        Peano::Successor(n) => {
            lemma_product_value(*n, b);
            lemma_sum_value(b, n.product(b));
            assert(a.value() * b.value() == b.value() + n.value() * b.value())
                by (nonlinear_arith)
                requires
                    a.value() == n.value() + 1,
            ;
        },
    }
}

impl Peano {
    /// A fresh copy of this representation; the operands themselves are
    /// never consumed.
    pub fn duplicate(&self) -> (r: Peano)
        ensures
            r == *self,
        decreases self,
    {
        match self {
            Peano::Zero => Peano::Zero,
            Peano::Successor(n) => Peano::Successor(Box::new(n.duplicate())),
        }
    }

    /// `self + rhs`, peeling one successor off the left operand per step.
    pub fn add(&self, rhs: &Peano) -> (r: Peano)
        ensures
            r == self.sum(*rhs),
            r.value() == self.value() + rhs.value(),
        decreases self,
    {
        proof {
            lemma_sum_value(*self, *rhs);
        }
        match self {
            Peano::Zero => rhs.duplicate(),
            Peano::Successor(n) => Peano::Successor(Box::new(n.add(rhs))),
        }
    }

    /// `self * rhs`, as `rhs + (n * rhs)` for `self = s(n)`.
    pub fn mul(&self, rhs: &Peano) -> (r: Peano)
        ensures
            r == self.product(*rhs),
            r.value() == self.value() * rhs.value(),
        decreases self,
    {
        proof {
            lemma_product_value(*self, *rhs);
        }
        match self {
            Peano::Zero => Peano::Zero,
            Peano::Successor(n) => {
                let partial = n.mul(rhs);
                rhs.add(&partial)
            },
        }
    }

    /// Whether two representations are identical.
    pub fn is_same(&self, other: &Peano) -> (r: bool)
        ensures
            r == (*self == *other),
        decreases self,
    {
        match (self, other) {
            (Peano::Zero, Peano::Zero) => true,
            (Peano::Successor(a), Peano::Successor(b)) => a.is_same(b),
            _ => false,
        }
    }

    /// The full nested text, e.g. `Successor(Successor(Zero))` for two.
    pub fn render(&self) -> (r: String)
        ensures
            r@ == self.rendering(),
        decreases self,
    {
        match self {
            Peano::Zero => String::from_str("Zero"),
            Peano::Successor(n) => {
                let mut r = String::from_str("Successor(");
                let inner = n.render();
                r.append(inner.as_str());
                r.append(")");
                r
            },
        }
    }
}

} // verus!
