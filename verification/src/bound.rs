use vstd::prelude::*;
use core::cmp::Ordering;
use crate::bigint::BigInt;
use crate::bigint::trunc_div;
use crate::bigint::is_decimal_text;
use crate::bigint::int_text;
use crate::bigint::decimal_text_value;
use crate::bigint::rug_from_i128;
use crate::bigint::rug_from_u128;
use crate::bigint::rug_add;
use crate::bigint::rug_sub;
use crate::bigint::rug_mul;
use crate::bigint::rug_div;

verus! {

// ---------------------------------------------------------------------
// The mathematical model: integers extended with two infinities
// ---------------------------------------------------------------------

/// An integer, or negative or positive infinity.
pub enum ExtInt {
    NegInf,
    Fin(int),
    PosInf,
}

/// The order `-∞ < every integer < ∞`.
pub open spec fn ext_lt(a: ExtInt, b: ExtInt) -> bool {
    match (a, b) {
        (ExtInt::NegInf, ExtInt::NegInf) => false,
        (ExtInt::NegInf, _) => true,
        (ExtInt::Fin(x), ExtInt::Fin(y)) => x < y,
        (ExtInt::Fin(_), ExtInt::PosInf) => true,
        _ => false,
    }
}

pub open spec fn ext_le(a: ExtInt, b: ExtInt) -> bool {
    a == b || ext_lt(a, b)
}

/// The order of two extended integers as an `Ordering`.
pub open spec fn ext_ordering(a: ExtInt, b: ExtInt) -> Ordering {
    if ext_lt(a, b) {
        Ordering::Less
    } else if a == b {
        Ordering::Equal
    } else {
        Ordering::Greater
    }
}

/// The smaller of two bounds (the first when they are equal).
pub open spec fn ext_min(a: ExtInt, b: ExtInt) -> ExtInt {
    if ext_lt(b, a) {
        b
    } else {
        a
    }
}

/// The larger of two bounds.
pub open spec fn ext_max(a: ExtInt, b: ExtInt) -> ExtInt {
    if ext_lt(b, a) {
        a
    } else {
        b
    }
}

/// The sign of a bound.
pub enum Sign {
    POSITIVE,
    NEGATIVE,
    ZERO,
}

pub open spec fn ext_sign(a: ExtInt) -> Sign {
    match a {
        ExtInt::PosInf => Sign::POSITIVE,
        ExtInt::NegInf => Sign::NEGATIVE,
        ExtInt::Fin(x) => if x > 0 {
            Sign::POSITIVE
        } else if x < 0 {
            Sign::NEGATIVE
        } else {
            Sign::ZERO
        },
    }
}

/// The sign of a product (or of a quotient by a non-zero divisor).
pub open spec fn product_sign(s: Sign, t: Sign) -> Sign {
    match (s, t) {
        (Sign::ZERO, _) => Sign::ZERO,
        (_, Sign::ZERO) => Sign::ZERO,
        (Sign::POSITIVE, Sign::POSITIVE) => Sign::POSITIVE,
        (Sign::NEGATIVE, Sign::NEGATIVE) => Sign::POSITIVE,
        _ => Sign::NEGATIVE,
    }
}

/// The infinity (or zero) of the given sign.
pub open spec fn signed_infinity(s: Sign) -> ExtInt {
    match s {
        Sign::POSITIVE => ExtInt::PosInf,
        Sign::NEGATIVE => ExtInt::NegInf,
        Sign::ZERO => ExtInt::Fin(0),
    }
}

/// Sum of bounds; an infinite operand wins, `∞` before `-∞`.
pub open spec fn ext_add(a: ExtInt, b: ExtInt) -> ExtInt {
    match (a, b) {
        (ExtInt::PosInf, _) => ExtInt::PosInf,
        (_, ExtInt::PosInf) => ExtInt::PosInf,
        (ExtInt::NegInf, _) => ExtInt::NegInf,
        (_, ExtInt::NegInf) => ExtInt::NegInf,
        (ExtInt::Fin(x), ExtInt::Fin(y)) => ExtInt::Fin(x + y),
    }
}

/// Difference of bounds; `∞ - x` and `x - (-∞)` are `∞` before the
/// other infinite cases are `-∞`.
pub open spec fn ext_sub(a: ExtInt, b: ExtInt) -> ExtInt {
    match (a, b) {
        (ExtInt::PosInf, _) => ExtInt::PosInf,
        (_, ExtInt::NegInf) => ExtInt::PosInf,
        (ExtInt::NegInf, _) => ExtInt::NegInf,
        (_, ExtInt::PosInf) => ExtInt::NegInf,
        (ExtInt::Fin(x), ExtInt::Fin(y)) => ExtInt::Fin(x - y),
    }
}

/// Product of bounds; with an infinite operand the result is the
/// infinity of the product's sign, or `0` when the other operand is `0`.
pub open spec fn ext_mul(a: ExtInt, b: ExtInt) -> ExtInt {
    match (a, b) {
        (ExtInt::Fin(x), ExtInt::Fin(y)) => ExtInt::Fin(x * y),
        _ => signed_infinity(product_sign(ext_sign(a), ext_sign(b))),
    }
}

/// Whether the quotient of two bounds is defined: the divisor is not `0`.
pub open spec fn ext_div_defined(a: ExtInt, b: ExtInt) -> bool {
    b != ExtInt::Fin(0)
}

/// Quotient of bounds: an infinite dividend gives the infinity of the
/// quotient's sign, a finite one divided by an infinity gives `0`, and
/// finite quotients round toward zero.
pub open spec fn ext_div(a: ExtInt, b: ExtInt) -> ExtInt {
    match (a, b) {
        (ExtInt::PosInf, _) => signed_infinity(product_sign(ext_sign(a), ext_sign(b))),
        (ExtInt::NegInf, _) => signed_infinity(product_sign(ext_sign(a), ext_sign(b))),
        (_, ExtInt::PosInf) => ExtInt::Fin(0),
        (_, ExtInt::NegInf) => ExtInt::Fin(0),
        (ExtInt::Fin(x), ExtInt::Fin(y)) => ExtInt::Fin(trunc_div(x, y)),
    }
}

// ---------------------------------------------------------------------
// Bound
// ---------------------------------------------------------------------

/// Either `∞`, `-∞`, or an arbitrary precision integer
pub enum Bound {
    INF,
    Int(BigInt),
    NINF,
}

impl View for Bound {
    type V = ExtInt;

    open spec fn view(&self) -> ExtInt {
        match self {
            Bound::INF => ExtInt::PosInf,
            Bound::Int(n) => ExtInt::Fin(n@),
            Bound::NINF => ExtInt::NegInf,
        }
    }
}

impl Bound {
    /// The text that `to_debug_string` gives.
    pub open spec fn debug_text(self) -> Seq<char> {
        match self {
            Bound::INF => "∞"@,
            Bound::NINF => "-∞"@,
            Bound::Int(n) => int_text(n@),
        }
    }

    pub fn is_finite(&self) -> (r: bool)
        ensures
            r == (self@ is Fin),
    {
        match self {
            Bound::Int(_) => true,
            _ => false,
        }
    }

    fn sign(&self) -> (r: Sign)
        ensures
            r == ext_sign(self@),
    {
        match self {
            Bound::INF => Sign::POSITIVE,
            Bound::NINF => Sign::NEGATIVE,
            Bound::Int(n) => {
                let zero = rug_from_i128(0);
                match n.compare(&zero) {
                    Ordering::Greater => Sign::POSITIVE,
                    Ordering::Less => Sign::NEGATIVE,
                    Ordering::Equal => Sign::ZERO,
                }
            },
        }
    }

    /// `-∞ < every integer < ∞`, integers by their value.
    pub fn cmp(&self, other: &Self) -> (r: Ordering)
        ensures
            r == ext_ordering(self@, other@),
    {
        if self.eq(other) {
            Ordering::Equal
        } else {
            match (self, other) {
                (Bound::INF, _) => Ordering::Greater,
                (_, Bound::NINF) => Ordering::Greater,
                (Bound::NINF, _) => Ordering::Less,
                (_, Bound::INF) => Ordering::Less,
                (Bound::Int(a), Bound::Int(b)) => a.compare(b),
            }
        }
    }

    /// `∞`, `-∞`, or the decimal text of the integer.
    pub fn to_debug_string(&self) -> (r: String)
        ensures
            r@ == self.debug_text(),
            self@ matches ExtInt::Fin(v) ==> r@ == int_text(v) && is_decimal_text(r@)
                && decimal_text_value(r@) == v,
    {
        match self {
            Bound::INF => String::from_str("∞"),
            Bound::NINF => String::from_str("-∞"),
            Bound::Int(n) => n.to_decimal_string(),
        }
    }
}

impl Clone for Bound {
    fn clone(&self) -> (r: Self)
        ensures
            r == *self,
    {
        match self {
            Bound::INF => Bound::INF,
            Bound::Int(n) => Bound::Int(n.clone()),
            Bound::NINF => Bound::NINF,
        }
    }
}

impl PartialEq for Bound {
    fn eq(&self, other: &Self) -> (r: bool) {
        match (self, other) {
            (Bound::INF, Bound::INF) => true,
            (Bound::NINF, Bound::NINF) => true,
            (Bound::Int(a), Bound::Int(b)) => a.equals(b),
            _ => false,
        }
    }
}

impl vstd::std_specs::cmp::PartialEqSpecImpl for Bound {
    open spec fn obeys_eq_spec() -> bool {
        true
    }

    open spec fn eq_spec(&self, other: &Bound) -> bool {
        self@ == other@
    }
}

impl Eq for Bound {
}

impl PartialOrd for Bound {
    fn partial_cmp(&self, other: &Self) -> (r: Option<Ordering>) {
        Some(self.cmp(other))
    }
}

impl vstd::std_specs::cmp::PartialOrdSpecImpl for Bound {
    open spec fn obeys_partial_cmp_spec() -> bool {
        true
    }

    open spec fn partial_cmp_spec(&self, other: &Bound) -> Option<Ordering> {
        Some(ext_ordering(self@, other@))
    }
}

impl From<BigInt> for Bound {
    fn from(n: BigInt) -> (r: Bound) {
        Bound::Int(n)
    }
}

impl vstd::std_specs::convert::FromSpecImpl<BigInt> for Bound {
    open spec fn obeys_from_spec() -> bool {
        true
    }

    open spec fn from_spec(n: BigInt) -> Bound {
        Bound::Int(n)
    }
}

impl From<i128> for Bound {
    fn from(n: i128) -> (r: Bound)
        ensures
            r@ == ExtInt::Fin(n as int),
    {
        Bound::Int(rug_from_i128(n))
    }
}

impl vstd::std_specs::convert::FromSpecImpl<i128> for Bound {
    open spec fn obeys_from_spec() -> bool {
        false
    }

    open spec fn from_spec(n: i128) -> Bound {
        vstd::pervasive::arbitrary()
    }
}

impl From<u128> for Bound {
    fn from(n: u128) -> (r: Bound)
        ensures
            r@ == ExtInt::Fin(n as int),
    {
        Bound::Int(rug_from_u128(n))
    }
}

impl vstd::std_specs::convert::FromSpecImpl<u128> for Bound {
    open spec fn obeys_from_spec() -> bool {
        false
    }

    open spec fn from_spec(n: u128) -> Bound {
        vstd::pervasive::arbitrary()
    }
}

impl core::ops::Add for Bound {
    type Output = Self;

    fn add(self, other: Self) -> (r: Self)
        ensures
            r@ == ext_add(self@, other@),
    {
        match (self, other) {
            (Bound::INF, _) => Bound::INF,
            (_, Bound::INF) => Bound::INF,
            (Bound::NINF, _) => Bound::NINF,
            (_, Bound::NINF) => Bound::NINF,
            (Bound::Int(a), Bound::Int(b)) => Bound::Int(rug_add(&a, &b)),
        }
    }
}

impl vstd::std_specs::ops::AddSpecImpl for Bound {
    open spec fn obeys_add_spec() -> bool {
        false
    }

    open spec fn add_req(self, other: Bound) -> bool {
        true
    }

    open spec fn add_spec(self, other: Bound) -> Bound {
        vstd::pervasive::arbitrary()
    }
}

impl core::ops::Sub for Bound {
    type Output = Self;

    fn sub(self, other: Self) -> (r: Self)
        ensures
            r@ == ext_sub(self@, other@),
    {
        match (self, other) {
            (Bound::INF, _) => Bound::INF,
            (_, Bound::NINF) => Bound::INF,
            (Bound::NINF, _) => Bound::NINF,
            (_, Bound::INF) => Bound::NINF,
            (Bound::Int(a), Bound::Int(b)) => Bound::Int(rug_sub(&a, &b)),
        }
    }
}

impl vstd::std_specs::ops::SubSpecImpl for Bound {
    open spec fn obeys_sub_spec() -> bool {
        false
    }

    open spec fn sub_req(self, other: Bound) -> bool {
        true
    }

    open spec fn sub_spec(self, other: Bound) -> Bound {
        vstd::pervasive::arbitrary()
    }
}

impl core::ops::Mul for Bound {
    type Output = Self;

    fn mul(self, rhs: Self) -> (r: Self)
        ensures
            r@ == ext_mul(self@, rhs@),
    {
        let sign_lhs = self.sign();
        let sign_rhs = rhs.sign();
        let sign = match (sign_lhs, sign_rhs) {
            (Sign::ZERO, _) => Sign::ZERO,
            (_, Sign::ZERO) => Sign::ZERO,
            (Sign::POSITIVE, Sign::POSITIVE) => Sign::POSITIVE,
            (Sign::NEGATIVE, Sign::NEGATIVE) => Sign::POSITIVE,
            (Sign::POSITIVE, Sign::NEGATIVE) => Sign::NEGATIVE,
            (Sign::NEGATIVE, Sign::POSITIVE) => Sign::NEGATIVE,
        };
        match (self, rhs) {
            (Bound::Int(a), Bound::Int(b)) => Bound::Int(rug_mul(&a, &b)),
            _ => match sign {
                Sign::POSITIVE => Bound::INF,
                Sign::NEGATIVE => Bound::NINF,
                Sign::ZERO => Bound::Int(rug_from_i128(0)),
            },
        }
    }
}

impl vstd::std_specs::ops::MulSpecImpl for Bound {
    open spec fn obeys_mul_spec() -> bool {
        false
    }

    open spec fn mul_req(self, rhs: Bound) -> bool {
        true
    }

    open spec fn mul_spec(self, rhs: Bound) -> Bound {
        vstd::pervasive::arbitrary()
    }
}

impl core::ops::Div for Bound {
    type Output = Self;

    /// Division by the bound `0` is refused: its caller must rule it out.
    fn div(self, rhs: Self) -> (r: Self)
        ensures
            r@ == ext_div(self@, rhs@),
    {
        let sign_lhs = self.sign();
        let sign_rhs = rhs.sign();
        let sign = match (sign_lhs, sign_rhs) {
            (Sign::ZERO, _) => Sign::ZERO,
            (Sign::POSITIVE, Sign::POSITIVE) => Sign::POSITIVE,
            (Sign::NEGATIVE, Sign::NEGATIVE) => Sign::POSITIVE,
            (Sign::POSITIVE, Sign::NEGATIVE) => Sign::NEGATIVE,
            (Sign::NEGATIVE, Sign::POSITIVE) => Sign::NEGATIVE,
            (_, Sign::ZERO) => {
                proof {
                    assert(false);
                }
                Sign::ZERO
            },
        };
        match (self, rhs) {
            (Bound::INF, _) => match sign {
                Sign::POSITIVE => Bound::INF,
                Sign::NEGATIVE => Bound::NINF,
                Sign::ZERO => Bound::Int(rug_from_i128(0)),
            },
            (Bound::NINF, _) => match sign {
                Sign::POSITIVE => Bound::INF,
                Sign::NEGATIVE => Bound::NINF,
                Sign::ZERO => Bound::Int(rug_from_i128(0)),
            },
            (_, Bound::INF) => Bound::Int(rug_from_i128(0)),
            (_, Bound::NINF) => Bound::Int(rug_from_i128(0)),
            (Bound::Int(a), Bound::Int(b)) => Bound::Int(rug_div(&a, &b)),
        }
    }
}

impl vstd::std_specs::ops::DivSpecImpl for Bound {
    open spec fn obeys_div_spec() -> bool {
        false
    }

    open spec fn div_req(self, rhs: Bound) -> bool {
        ext_div_defined(self@, rhs@)
    }

    open spec fn div_spec(self, rhs: Bound) -> Bound {
        vstd::pervasive::arbitrary()
    }
}

// ---------------------------------------------------------------------
// Laws of the bound order and arithmetic
// ---------------------------------------------------------------------

/// `Bound::cmp` (and `partial_cmp`, `<`, `<=`, ...) is a total order:
/// exactly one of less, equal, greater holds, equal means the same
/// value, swapping the operands swaps less and greater, and less is
/// transitive.
pub proof fn lemma_bound_order_total(a: Bound, b: Bound, c: Bound)
    ensures
        (ext_ordering(a@, b@) == Ordering::Equal) <==> a@ == b@,
        (ext_ordering(a@, b@) == Ordering::Less) <==> (ext_ordering(b@, a@) == Ordering::Greater),
        ext_ordering(a@, b@) == Ordering::Less && ext_ordering(b@, c@) == Ordering::Less
            ==> ext_ordering(a@, c@) == Ordering::Less,
{
}

/// `-∞` lies below, and `∞` above, every bound; integers in between in
/// their numeric order.
pub proof fn lemma_bound_order_extremes(b: Bound, x: int, y: int)
    ensures
        ext_le(ExtInt::NegInf, b@),
        ext_le(b@, ExtInt::PosInf),
        ext_lt(ExtInt::NegInf, ExtInt::Fin(x)),
        ext_lt(ExtInt::Fin(x), ExtInt::PosInf),
        ext_lt(ExtInt::Fin(x), ExtInt::Fin(y)) <==> x < y,
{
}

/// Bound addition and multiplication do not depend on operand order.
pub proof fn lemma_bound_add_mul_commute(a: Bound, b: Bound)
    ensures
        ext_add(a@, b@) == ext_add(b@, a@),
        ext_mul(a@, b@) == ext_mul(b@, a@),
{
    lemma_ext_mul_commutes(a@, b@);
}

pub proof fn lemma_ext_mul_commutes(a: ExtInt, b: ExtInt)
    ensures
        ext_mul(a, b) == ext_mul(b, a),
{
    match (a, b) {
        (ExtInt::Fin(x), ExtInt::Fin(y)) => {
            assert(x * y == y * x) by (nonlinear_arith);
        },
        _ => {},
    }
}

} // verus!
