use interval_domain::BigInt;
use interval_domain::Bound;

#[test]
fn test_integer_cmp() {
    let ninf = Bound::NINF;
    let a = Bound::from(-1 as i128);
    let b = Bound::from(0 as i128);
    let c = Bound::from(1 as i128);
    let inf = Bound::INF;
    assert!(ninf < a && a < b && b < c && c < inf);
}

#[test]
fn test_is_finite() {
    let inf = Bound::INF;
    let ninf = Bound::NINF;
    let int = Bound::from(42i128);

    assert!(!inf.is_finite());
    assert!(!ninf.is_finite());
    assert!(int.is_finite());
}

#[test]
fn test_debug_fmt() {
    let inf = Bound::INF;
    let ninf = Bound::NINF;
    let int = Bound::from(42i128);

    assert_eq!(inf.to_debug_string(), "∞");
    assert_eq!(ninf.to_debug_string(), "-∞");
    assert_eq!(int.to_debug_string(), "42");
}

#[test]
fn test_from() {
    let int_bound = Bound::from(42i128);
    assert!(int_bound == Bound::Int(BigInt::from(42i128)));

    let i128_bound = Bound::from(-9223372036854775808i128);
    assert!(i128_bound == Bound::Int(BigInt::from(-9223372036854775808i128)));

    let u128_bound = Bound::from(18446744073709551615u128);
    assert!(u128_bound == Bound::Int(BigInt::from(18446744073709551615u128)));
}

#[test]
fn test_bound_addition() {
    let ninf = Bound::NINF;
    let a = Bound::from(-1i128);
    let b = Bound::from(0i128);
    let c = Bound::from(1i128);
    let inf = Bound::INF;
    assert!(ninf.clone() + ninf.clone() == ninf);
    assert!(ninf.clone() + a.clone() == ninf);
    assert!(ninf.clone() + b.clone() == ninf);
    assert!(ninf.clone() + c.clone() == ninf);
    assert!(ninf.clone() + inf.clone() == inf);
    assert!(a.clone() + ninf.clone() == ninf);
    assert!(a.clone() + a.clone() == Bound::from(-2i128));
    assert!(a.clone() + b.clone() == Bound::from(-1i128));
    assert!(a.clone() + c.clone() == Bound::from(0i128));
    assert!(a.clone() + inf.clone() == inf);
    assert!(b.clone() + ninf.clone() == ninf);
    assert!(b.clone() + a.clone() == Bound::from(-1i128));
    assert!(b.clone() + b.clone() == b);
    assert!(b.clone() + c.clone() == Bound::from(1i128));
    assert!(b.clone() + inf.clone() == inf);
    assert!(c.clone() + ninf.clone() == ninf);
    assert!(c.clone() + a.clone() == Bound::from(0i128));
    assert!(c.clone() + b.clone() == Bound::from(1i128));
    assert!(c.clone() + c.clone() == Bound::from(2i128));
    assert!(c.clone() + inf.clone() == inf);
    assert!(inf.clone() + ninf.clone() == inf);
    assert!(inf.clone() + a.clone() == inf);
    assert!(inf.clone() + b.clone() == inf);
    assert!(inf.clone() + c.clone() == inf);
    assert!(inf.clone() + inf.clone() == inf);
}

#[test]
fn test_bound_subtraction() {
    let ninf = Bound::NINF;
    let a = Bound::from(-1i128);
    let b = Bound::from(0i128);
    let c = Bound::from(1i128);
    let inf = Bound::INF;
    assert!(ninf.clone() - ninf.clone() == inf);
    assert!(ninf.clone() - a.clone() == ninf);
    assert!(ninf.clone() - b.clone() == ninf);
    assert!(ninf.clone() - c.clone() == ninf);
    assert!(ninf.clone() - inf.clone() == ninf);
    assert!(a.clone() - ninf.clone() == inf);
    assert!(a.clone() - a.clone() == b);
    assert!(a.clone() - b.clone() == a);
    assert!(a.clone() - c.clone() == Bound::from(-2i128));
    assert!(a.clone() - inf.clone() == ninf);
    assert!(b.clone() - ninf.clone() == inf);
    assert!(b.clone() - a.clone() == Bound::from(1i128));
    assert!(b.clone() - b.clone() == b);
    assert!(b.clone() - c.clone() == Bound::from(-1i128));
    assert!(b.clone() - inf.clone() == ninf);
    assert!(c.clone() - ninf.clone() == inf);
    assert!(c.clone() - a.clone() == Bound::from(2i128));
    assert!(c.clone() - b.clone() == Bound::from(1i128));
    assert!(c.clone() - c.clone() == b);
    assert!(c.clone() - inf.clone() == ninf);
    assert!(inf.clone() - ninf.clone() == inf);
    assert!(inf.clone() - a.clone() == inf);
    assert!(inf.clone() - b.clone() == inf);
    assert!(inf.clone() - c.clone() == inf);
    assert!(inf.clone() - inf.clone() == inf);
}

#[test]
fn test_bound_multiplication() {
    let ninf = Bound::NINF;
    let a = Bound::from(-1i128);
    let b = Bound::from(0i128);
    let c = Bound::from(1i128);
    let inf = Bound::INF;
    assert!(ninf.clone() * ninf.clone() == inf);
    assert!(ninf.clone() * a.clone() == inf);
    assert!(ninf.clone() * b.clone() == b);
    assert!(ninf.clone() * c.clone() == ninf);
    assert!(ninf.clone() * inf.clone() == ninf);
    assert!(a.clone() * ninf.clone() == inf);
    assert!(a.clone() * a.clone() == Bound::from(1i128));
    assert!(a.clone() * b.clone() == b);
    assert!(a.clone() * c.clone() == Bound::from(-1i128));
    assert!(a.clone() * inf.clone() == ninf);
    assert!(b.clone() * ninf.clone() == b);
    assert!(b.clone() * a.clone() == b);
    assert!(b.clone() * b.clone() == b);
    assert!(b.clone() * c.clone() == b);
    assert!(b.clone() * inf.clone() == b);
    assert!(c.clone() * ninf.clone() == ninf);
    assert!(c.clone() * a.clone() == Bound::from(-1i128));
    assert!(c.clone() * b.clone() == b);
    assert!(c.clone() * c.clone() == Bound::from(1i128));
    assert!(c.clone() * inf.clone() == inf);
    assert!(inf.clone() * ninf.clone() == ninf);
    assert!(inf.clone() * a.clone() == ninf);
    assert!(inf.clone() * b.clone() == b);
    assert!(inf.clone() * c.clone() == inf);
    assert!(inf.clone() * inf.clone() == inf);
}
