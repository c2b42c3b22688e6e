use interval_domain::BigInt;
use interval_domain::Bound;
use interval_domain::Interval;
use std::cmp::Ordering;

fn fin(n: i128) -> Bound {
    Bound::from(n)
}

fn iv(low: i128, high: i128) -> Interval {
    Interval::new(fin(low), fin(high))
}

fn point(n: i128) -> Interval {
    iv(n, n)
}

// ----- BigInt -----

#[test]
fn bigint_text_is_decimal() {
    assert_eq!(BigInt::from(-42i128).to_decimal_string(), "-42");
    assert_eq!(BigInt::from(0u128).to_decimal_string(), "0");
    assert_eq!(BigInt::from(u128::MAX).to_decimal_string(), "340282366920938463463374607431768211455");
}

#[test]
fn bound_debug_text_is_canonical() {
    assert_eq!((fin(-5) + fin(5)).to_debug_string(), "0");
    assert_eq!((fin(-100) / fin(10)).to_debug_string(), "-10");
    assert_eq!((Bound::from(7u128) - fin(1000)).to_debug_string(), "-993");
    assert_eq!(iv(0, 100).to_debug_string(), "[0, 100]");
}

#[test]
fn bigint_compare_and_equals() {
    let a = BigInt::from(-3i128);
    let b = BigInt::from(7u128);
    assert_eq!(a.compare(&b), Ordering::Less);
    assert_eq!(b.compare(&a), Ordering::Greater);
    assert_eq!(a.compare(&a.clone()), Ordering::Equal);
    assert!(b.equals(&BigInt::from(7i128)));
    assert!(!a.equals(&b));
}

// ----- Bound -----

#[test]
fn bound_cmp_orders_infinities_outside() {
    assert_eq!(Bound::NINF.cmp(&fin(i128::MIN)), Ordering::Less);
    assert_eq!(Bound::INF.cmp(&Bound::from(u128::MAX)), Ordering::Greater);
    assert_eq!(Bound::INF.cmp(&Bound::INF), Ordering::Equal);
    assert_eq!(Bound::NINF.cmp(&Bound::NINF), Ordering::Equal);
    assert_eq!(fin(3).cmp(&fin(-3)), Ordering::Greater);
    assert_eq!(fin(3).partial_cmp(&fin(3)), Some(Ordering::Equal));
    assert!(fin(5) == Bound::from(5u128));
    assert!(fin(5) != fin(6));
    assert!(Bound::INF != Bound::NINF);
    assert!(fin(2) <= fin(2) && fin(2) >= fin(2) && fin(3) > fin(2));
}

#[test]
fn bound_from_bigint() {
    let b = Bound::from(BigInt::from(9i128));
    assert!(b == fin(9));
}

#[test]
fn bound_arithmetic_beyond_machine_words() {
    let m = Bound::from(u128::MAX);
    let p = m.clone() * m.clone();
    assert_eq!(
        p.to_debug_string(),
        "115792089237316195423570985008687907852589419931798687112530834793049593217025"
    );
    let s = m.clone() + m.clone();
    assert_eq!(s.to_debug_string(), "680564733841876926926749214863536422910");
    assert!((s - m.clone()) - m == fin(0));
}

#[test]
fn bound_division() {
    assert!(fin(-7) / fin(2) == fin(-3));
    assert!(fin(7) / fin(-2) == fin(-3));
    assert!(fin(-7) / fin(-2) == fin(3));
    assert!(fin(0) / fin(5) == fin(0));
    assert!(Bound::INF / fin(2) == Bound::INF);
    assert!(Bound::INF / fin(-2) == Bound::NINF);
    assert!(Bound::NINF / fin(-1) == Bound::INF);
    assert!(Bound::NINF / Bound::INF == Bound::NINF);
    assert!(Bound::INF / Bound::INF == Bound::INF);
    assert!(fin(5) / Bound::INF == fin(0));
    assert!(fin(-5) / Bound::NINF == fin(0));
}

#[test]
fn bound_mul_commutes_and_add_commutes() {
    let vals = vec![Bound::NINF, fin(-2), fin(0), fin(3), Bound::INF];
    for a in vals.iter() {
        for b in vals.iter() {
            assert!(a.clone() * b.clone() == b.clone() * a.clone());
            assert!(a.clone() + b.clone() == b.clone() + a.clone());
        }
    }
}

// ----- Interval construction and predicates -----

#[test]
fn interval_top_and_bottom() {
    let t = Interval::top();
    let b = Interval::bottom();
    assert!(t.is_top() && !t.is_bottom());
    assert!(b.is_bottom() && !b.is_top());
    assert!(t.high == Bound::INF);
    assert!(t.low == Bound::NINF);
    assert!(b.high == Bound::NINF);
    assert!(b.low == Bound::INF);
    assert!(iv(3, 2).is_bottom());
    assert!(!iv(2, 3).is_bottom());
    assert!(!iv(2, 3).is_top());
}

#[test]
fn interval_debug_text() {
    assert_eq!(Interval::bottom().to_debug_string(), "⊥");
    assert_eq!(Interval::top().to_debug_string(), "[-∞, ∞]");
    assert_eq!(iv(-1, 20).to_debug_string(), "[-1, 20]");
}

#[test]
fn interval_equality_and_clone() {
    assert!(iv(1, 2) == iv(1, 2).clone());
    assert!(iv(1, 2) != iv(1, 3));
    assert!(Interval::new(Bound::from(4u128), fin(4)) == point(4));
}

// ----- Comparisons -----

#[test]
fn interval_comparisons() {
    assert_eq!(iv(1, 2).less_than(&iv(3, 4)), Some(true));
    assert_eq!(iv(3, 4).less_than(&iv(1, 3)), Some(false));
    assert_eq!(iv(1, 3).less_than(&iv(2, 4)), None);
    assert_eq!(iv(1, 2).less_than(&Interval::top()), None);
    assert_eq!(Interval::bottom().less_than(&iv(1, 2)), None);

    assert_eq!(iv(1, 2).less_equal(&iv(2, 4)), Some(true));
    assert_eq!(iv(3, 4).less_equal(&iv(1, 2)), Some(false));
    assert_eq!(iv(1, 3).less_equal(&iv(2, 4)), None);

    assert_eq!(iv(2, 4).greater_equal(&iv(1, 2)), Some(true));
    assert_eq!(iv(1, 2).greater_equal(&iv(3, 4)), Some(false));
    assert_eq!(iv(1, 3).greater_equal(&iv(2, 4)), None);

    assert_eq!(iv(3, 4).greater_than(&iv(1, 2)), Some(true));
    assert_eq!(iv(1, 3).greater_than(&iv(3, 4)), Some(false));
    assert_eq!(iv(1, 3).greater_than(&iv(2, 4)), None);
}

#[test]
fn interval_equal_to() {
    assert_eq!(point(5).equal_to(&point(5)), Some(true));
    assert_eq!(point(5).equal_to(&point(6)), Some(false));
    assert_eq!(point(5).equal_to(&iv(5, 6)), None);
    assert_eq!(Interval::top().equal_to(&point(1)), None);
    assert_eq!(point(5).not_equal_to(&point(5)), Some(false));
    assert_eq!(point(5).not_equal_to(&point(6)), Some(true));
    assert_eq!(iv(1, 2).not_equal_to(&point(6)), None);
}

// ----- Conversions -----

#[test]
fn interval_bool_round_trip() {
    assert_eq!(bool::try_from(Interval::from(true)), Ok(true));
    assert_eq!(bool::try_from(Interval::from(false)), Ok(false));
    assert!(Interval::from(true) == point(1));
    assert!(Interval::from(false) == point(0));
    assert_eq!(bool::try_from(point(2)), Err("interval is not a bool"));
    assert_eq!(bool::try_from(iv(0, 1)), Err("interval is not a bool"));
}

#[test]
fn interval_to_bigint() {
    let n = BigInt::try_from(point(-17)).unwrap();
    assert_eq!(n.to_decimal_string(), "-17");
    let r = BigInt::try_from(&point(8)).unwrap();
    assert_eq!(r.to_decimal_string(), "8");
    assert!(matches!(BigInt::try_from(iv(1, 2)), Err("interval is not a integer")));
    assert!(matches!(BigInt::try_from(&Interval::top()), Err("interval is not a integer")));
}

// ----- Arithmetic -----

#[test]
fn interval_add_sub() {
    assert!(iv(1, 2) + iv(10, 20) == iv(11, 22));
    assert!(iv(1, 2) - iv(10, 20) == iv(-19, -8));
    assert!(Interval::new(Bound::NINF, fin(2)) + iv(1, 1) == Interval::new(Bound::NINF, fin(3)));
    assert!(Interval::new(fin(0), Bound::INF) - iv(1, 1) == Interval::new(fin(-1), Bound::INF));
}

#[test]
fn interval_mul() {
    assert!(iv(-2, 3) * iv(4, 5) == iv(-10, 15));
    assert!(iv(-2, 3) * iv(-5, -4) == iv(-15, 10));
    assert!(Interval::new(Bound::NINF, fin(5)) * point(0) == point(0));
    assert!(Interval::new(fin(1), Bound::INF) * iv(0, 1) == Interval::new(fin(0), Bound::INF));
    assert!(Interval::top() * iv(-1, 1) == Interval::top());
}

#[test]
fn interval_div() {
    assert!(iv(10, 20) / iv(2, 5) == iv(2, 10));
    assert!(iv(-7, 7) / iv(2, 2) == iv(-3, 3));
    assert!(iv(10, 20) / iv(-5, -2) == iv(-10, -2));
    assert!(iv(1, 5) / Interval::new(fin(1), Bound::INF) == iv(0, 5));
    assert!(Interval::new(fin(1), Bound::INF) / iv(2, 4) == Interval::new(fin(0), Bound::INF));
}

#[test]
fn interval_div_through_zero_misses_quotients() {
    // The divisor holds 0 between bounds of opposite sign: 1 / 1 = 1 is
    // not in the result.
    assert!(point(1) / iv(-2, 3) == point(0));
}

#[test]
fn interval_soundness_on_samples() {
    let a = iv(-3, 4);
    let b = iv(2, 5);
    let sum = a.clone() + b.clone();
    let diff = a.clone() - b.clone();
    let prod = a.clone() * b.clone();
    let quot = a.clone() / b.clone();
    for x in -3i128..=4 {
        for y in 2i128..=5 {
            assert!(sum.low <= fin(x + y) && fin(x + y) <= sum.high);
            assert!(diff.low <= fin(x - y) && fin(x - y) <= diff.high);
            assert!(prod.low <= fin(x * y) && fin(x * y) <= prod.high);
            assert!(quot.low <= fin(x / y) && fin(x / y) <= quot.high);
        }
    }
}

// ----- Bitwise operations and shifts -----

#[test]
fn interval_bitand() {
    assert!((Interval::bottom() & point(1)).is_bottom());
    assert!((point(1) & Interval::top()).is_top());
    assert!(iv(3, 9) & point(0) == point(0));
    assert!(point(-1) & iv(5, 7) == iv(5, 7));
    assert!(iv(5, 7) & point(-1) == iv(5, 7));
    assert!(point(12) & point(10) == point(8));
    assert!(point(-12) & point(10) == point(0));
    assert!((iv(1, 2) & point(3)).is_top());
}

#[test]
fn interval_bitor() {
    assert!((point(1) | Interval::bottom()).is_bottom());
    assert!((Interval::top() | point(1)).is_top());
    assert!(iv(3, 9) | point(-1) == point(-1));
    assert!(point(0) | iv(3, 9) == iv(3, 9));
    assert!(iv(3, 9) | point(0) == iv(3, 9));
    assert!(point(12) | point(10) == point(14));
    assert!(point(-12) | point(10) == point(-2));
    assert!((iv(1, 2) | point(3)).is_top());
}

#[test]
fn interval_bitxor() {
    assert!((Interval::bottom() ^ point(1)).is_bottom());
    assert!((point(1) ^ Interval::top()).is_top());
    assert!(point(0) ^ iv(3, 9) == iv(3, 9));
    assert!(iv(3, 9) ^ point(0) == iv(3, 9));
    assert!(point(12) ^ point(10) == point(6));
    assert!(point(-12) ^ point(10) == point(-2));
    assert!((iv(1, 2) ^ point(3)).is_top());
}

#[test]
fn interval_shifts() {
    assert!(point(3) << point(2) == point(12));
    assert_eq!(
        (point(1) << point(100)).high.to_debug_string(),
        "1267650600228229401496703205376"
    );
    assert!(point(-5) >> point(1) == point(-3));
    assert!(point(40) >> point(3) == point(5));
    assert!((point(1) << point(-1)).is_top());
    assert!((point(1) >> Interval::new(Bound::from(4294967296i128), Bound::from(4294967296i128))).is_top());
    assert!((iv(1, 2) << point(1)).is_top());
    assert!((Interval::bottom() >> point(1)).is_bottom());
    assert!((Interval::top() << point(1)).is_top());
}
