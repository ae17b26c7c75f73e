use peano::{Nat, Peano, Succ};

fn num(n: u32) -> Nat {
    let mut r = Nat::zero();
    for _ in 0..n {
        r = Succ(r);
    }
    r
}

fn nested(n: usize) -> String {
    format!("{}Zero{}", "Successor(".repeat(n), ")".repeat(n))
}

#[test]
fn zero_renders_as_zero() {
    assert_eq!(Nat::zero().render(), "Zero");
    assert_eq!(Peano::Zero.render(), "Zero");
}

#[test]
fn succ_adds_one_layer() {
    assert_eq!(Succ(Nat::zero()).render(), "Successor(Zero)");
    assert_eq!(num(3).render(), nested(3));
}

#[test]
fn one_plus_one_is_two() {
    let r = num(1).add(&num(1));
    assert_eq!(r.render(), "Successor(Successor(Zero))");
    assert!(r.is_same(&num(2)));
}

#[test]
fn two_times_two_is_four() {
    let r = num(2).mul(&num(2));
    assert_eq!(r.render(), nested(4));
    assert!(r.is_same(&num(4)));
}

#[test]
fn two_times_three_is_six() {
    let r = num(2).mul(&num(3));
    assert_eq!(r.render(), nested(6));
    assert!(r.is_same(&num(6)));
}

#[test]
fn driver_products() {
    assert_eq!(num(1).mul(&num(1)).render(), "Successor(Zero)");
    assert_eq!(num(2).mul(&num(2)).render(), nested(4));
    assert_eq!(num(2).mul(&num(3)).render(), nested(6));
}

#[test]
fn zero_is_left_identity() {
    for n in 0..5 {
        assert!(Nat::zero().add(&num(n)).is_same(&num(n)));
    }
}

#[test]
fn zero_is_right_identity() {
    for n in 0..5 {
        assert!(num(n).add(&Nat::zero()).is_same(&num(n)));
    }
}

#[test]
fn zero_annihilates_on_the_left() {
    for n in 0..5 {
        assert_eq!(Nat::zero().mul(&num(n)).render(), "Zero");
    }
}

#[test]
fn zero_annihilates_on_the_right() {
    assert_eq!(num(3).mul(&Nat::zero()).render(), "Zero");
}

#[test]
fn successor_distributes_over_sum() {
    for a in 0..4 {
        for b in 0..4 {
            let left = Succ(num(a)).add(&num(b));
            let right = Succ(num(a).add(&num(b)));
            assert!(left.is_same(&right));
            assert_eq!(left.render(), right.render());
        }
    }
}

#[test]
fn sum_commutes_on_small_numerals() {
    for a in 0..5 {
        for b in 0..5 {
            assert_eq!(num(a).add(&num(b)).render(), num(b).add(&num(a)).render());
        }
    }
}

#[test]
fn product_commutes_on_small_numerals() {
    for a in 0..5 {
        for b in 0..5 {
            assert_eq!(num(a).mul(&num(b)).render(), num(b).mul(&num(a)).render());
        }
    }
}

#[test]
fn depth_equals_value() {
    for a in 0..5u32 {
        for b in 0..5u32 {
            let p = num(a).mul(&num(b));
            assert_eq!(p.render(), nested((a * b) as usize));
            let s = num(a).add(&num(b));
            assert_eq!(s.render(), nested((a + b) as usize));
        }
    }
}

#[test]
fn operands_are_left_intact() {
    let a = num(2);
    let b = num(3);
    let _ = a.mul(&b);
    let _ = a.add(&b);
    assert!(a.is_same(&num(2)));
    assert!(b.is_same(&num(3)));
}

#[test]
fn distinct_numerals_differ() {
    assert!(!num(2).is_same(&num(3)));
    assert!(!Peano::Zero.is_same(&num(1).0));
}

#[test]
fn duplicate_is_identical() {
    let p = num(4).0;
    let q = p.duplicate();
    assert!(p.is_same(&q));
    assert_eq!(q.render(), nested(4));
}

#[test]
fn bare_representation_arithmetic() {
    let two = num(2).0;
    let three = num(3).0;
    assert_eq!(two.add(&three).render(), nested(5));
    assert_eq!(three.mul(&two).render(), nested(6));
}
