use vstd::prelude::*;
use vstd::arithmetic::power2::pow2;
use crate::bigint::int_and;
use crate::bigint::int_or;
use crate::bigint::int_xor;
use crate::bigint::lemma_and_all_ones;
use crate::bigint::lemma_and_zero;
use crate::bigint::lemma_or_all_ones;
use crate::bigint::lemma_or_zero;
use crate::bigint::lemma_xor_zero;
use crate::bound::ExtInt;
use crate::bound::ext_le;
use crate::bound::ext_lt;
use crate::bound::ext_min;
use crate::bound::ext_max;
use crate::bound::ext_mul;
use crate::bound::ext_div;
use crate::bigint::trunc_div;
use crate::bigint::lemma_trunc_div_sign;
use crate::bigint::lemma_trunc_div_dividend_monotone;
use crate::bigint::lemma_trunc_div_divisor_monotone;
use crate::bound::ext_sign;
use crate::bound::Sign;
use crate::interval::min4;
use crate::interval::max4;
use crate::interval::Interval;
use crate::interval::IntervalView;
use crate::interval::top_view;
use crate::interval::bottom_view;
use crate::interval::point_view;
use crate::interval::singleton_of;
use crate::interval::bool_of;

verus! {

/// `top()` holds every integer and is not `⊥`; `bottom()` is `⊥` and
/// holds none.
pub proof fn lemma_top_bottom(x: int)
    ensures
        top_view().is_top(),
        !top_view().is_bottom(),
        top_view().contains(x),
        bottom_view().is_bottom(),
        !bottom_view().is_top(),
        !bottom_view().contains(x),
{
}

/// An interval that is `⊥` holds no integer.
pub proof fn lemma_bottom_is_empty(a: Interval, x: int)
    requires
        a@.is_bottom(),
    ensures
        !a@.contains(x),
{
}

/// The comparisons answer only what holds of every pair of members:
/// `Some(t)` means that the comparison of any `x` in `a` with any `y`
/// in `b` gives `t`.
pub proof fn lemma_comparisons_sound(a: Interval, b: Interval, x: int, y: int)
    requires
        a@.contains(x),
        b@.contains(y),
    ensures
        a@.less_than(b@) matches Some(t) ==> t == (x < y),
        a@.less_equal(b@) matches Some(t) ==> t == (x <= y),
        a@.greater_equal(b@) matches Some(t) ==> t == (x >= y),
        a@.greater_than(b@) matches Some(t) ==> t == (x > y),
        a@.equal_to(b@) matches Some(t) ==> t == (x == y),
        a@.not_equal_to(b@) matches Some(t) ==> t == (x != y),
{
}

/// `not_equal_to` answers exactly when `equal_to` does, with the
/// opposite answer.
pub proof fn lemma_not_equal_to_negates(a: Interval, b: Interval)
    ensures
        a@.not_equal_to(b@) is Some <==> a@.equal_to(b@) is Some,
        a@.equal_to(b@) matches Some(t) ==> a@.not_equal_to(b@) == Some(!t),
{
}

/// Interval addition and subtraction hold every sum and difference of
/// members.
pub proof fn lemma_add_sub_sound(a: Interval, b: Interval, x: int, y: int)
    requires
        a@.contains(x),
        b@.contains(y),
    ensures
        a@.add(b@).contains(x + y),
        a@.sub(b@).contains(x - y),
{
}

/// The bitwise operations and shifts hold every result of the
/// operation on members.
pub proof fn lemma_bitwise_sound(a: Interval, b: Interval, x: int, y: int)
    requires
        a@.contains(x),
        b@.contains(y),
    ensures
        a@.bitand(b@).contains(int_and(x, y)),
        a@.bitor(b@).contains(int_or(x, y)),
        a@.bitxor(b@).contains(int_xor(x, y)),
        0 <= y <= u32::MAX ==> a@.shl(b@).contains(x * pow2(y as nat)),
        0 <= y <= u32::MAX ==> a@.shr(b@).contains(x / (pow2(y as nat) as int)),
{
    lemma_and_all_ones(x);
    lemma_and_all_ones(y);
    lemma_and_zero(x);
    lemma_and_zero(y);
    lemma_or_all_ones(x);
    lemma_or_all_ones(y);
    lemma_or_zero(x);
    lemma_or_zero(y);
    lemma_xor_zero(x);
    lemma_xor_zero(y);
}

/// What `bool::try_from` gives back of `Interval::from(b)`: `b` itself.
pub proof fn lemma_bool_round_trip(i: Interval, b: bool)
    requires
        i@ == point_view(if b { 1 } else { 0 }),
    ensures
        bool_of(i) == Ok::<bool, &'static str>(b),
{
}

/// `BigInt::try_from` of an interval succeeds exactly when both bounds
/// are the same integer, and gives that integer.
pub proof fn lemma_singleton_round_trip(i: Interval)
    ensures
        singleton_of(i) is Ok <==> i@.as_int() is Some,
        singleton_of(i) matches Ok(n) ==> i@.as_int() == Some(n@),
{
}

/// `m` lies between `p` and `q`, whichever way round they are.
pub open spec fn between(m: ExtInt, p: ExtInt, q: ExtInt) -> bool {
    ext_le(ext_min(p, q), m) && ext_le(m, ext_max(p, q))
}

/// A value between two corners, each between two others, lies between
/// the least and greatest of those four.
proof fn lemma_between_corners(
    m: ExtInt,
    p: ExtInt,
    q: ExtInt,
    a: ExtInt,
    b: ExtInt,
    c: ExtInt,
    d: ExtInt,
)
    requires
        between(m, p, q),
        between(p, a, b),
        between(q, c, d),
    ensures
        ext_le(min4(a, b, c, d), m),
        ext_le(m, max4(a, b, c, d)),
{
}

/// Multiplying by a bound that is not negative keeps the order; by a
/// negative one it reverses it.
proof fn lemma_mul_monotone(e: ExtInt, a: ExtInt, b: ExtInt)
    requires
        ext_le(a, b),
    ensures
        ext_sign(e) != Sign::NEGATIVE ==> ext_le(ext_mul(e, a), ext_mul(e, b)),
        ext_sign(e) == Sign::NEGATIVE ==> ext_le(ext_mul(e, b), ext_mul(e, a)),
{
    match (e, a, b) {
        (ExtInt::Fin(z), ExtInt::Fin(x), ExtInt::Fin(y)) => {
            assert(z >= 0 ==> z * x <= z * y) by (nonlinear_arith)
                requires
                    x <= y,
            ;
            assert(z < 0 ==> z * y <= z * x) by (nonlinear_arith)
                requires
                    x <= y,
            ;
        },
        (ExtInt::Fin(z), ExtInt::Fin(x), _) => {
            assert(z > 0 && x > 0 ==> z * x > 0) by (nonlinear_arith);
            assert(z > 0 && x < 0 ==> z * x < 0) by (nonlinear_arith);
            assert(z < 0 && x > 0 ==> z * x < 0) by (nonlinear_arith);
            assert(z < 0 && x < 0 ==> z * x > 0) by (nonlinear_arith);
            assert(z == 0 ==> z * x == 0);
            assert(x == 0 ==> z * x == 0);
        },
        (ExtInt::Fin(z), _, ExtInt::Fin(y)) => {
            assert(z > 0 && y > 0 ==> z * y > 0) by (nonlinear_arith);
            assert(z > 0 && y < 0 ==> z * y < 0) by (nonlinear_arith);
            assert(z < 0 && y > 0 ==> z * y < 0) by (nonlinear_arith);
            assert(z < 0 && y < 0 ==> z * y > 0) by (nonlinear_arith);
            assert(z == 0 ==> z * y == 0);
            assert(y == 0 ==> z * y == 0);
        },
        _ => {},
    }
}

/// Interval multiplication holds every product of members.
pub proof fn lemma_mul_sound(a: Interval, b: Interval, x: int, y: int)
    requires
        a@.contains(x),
        b@.contains(y),
    ensures
        a@.mul(b@).contains(x * y),
{
    let l1 = a@.low;
    let h1 = a@.high;
    let l2 = b@.low;
    let h2 = b@.high;
    let xx = ExtInt::Fin(x);
    let yy = ExtInt::Fin(y);
    crate::bound::lemma_ext_mul_commutes(l1, yy);
    crate::bound::lemma_ext_mul_commutes(h1, yy);
    crate::bound::lemma_ext_mul_commutes(xx, yy);
    lemma_mul_monotone(yy, l1, xx);
    lemma_mul_monotone(yy, xx, h1);
    lemma_mul_monotone(yy, l1, h1);
    lemma_mul_monotone(l1, l2, yy);
    lemma_mul_monotone(l1, yy, h2);
    lemma_mul_monotone(l1, l2, h2);
    lemma_mul_monotone(h1, l2, yy);
    lemma_mul_monotone(h1, yy, h2);
    lemma_mul_monotone(h1, l2, h2);
    let m = ext_mul(xx, yy);
    let p = ext_mul(l1, yy);
    let q = ext_mul(h1, yy);
    assert(between(m, p, q));
    assert(between(p, ext_mul(l1, l2), ext_mul(l1, h2)));
    assert(between(q, ext_mul(h1, l2), ext_mul(h1, h2)));
    lemma_between_corners(
        m,
        p,
        q,
        ext_mul(l1, l2),
        ext_mul(l1, h2),
        ext_mul(h1, l2),
        ext_mul(h1, h2),
    );
}

/// Dividing by a fixed non-zero integer keeps the order of dividends
/// when it is positive and reverses it when it is negative.
proof fn lemma_div_dividend_monotone(y: int, a: ExtInt, b: ExtInt)
    requires
        y != 0,
        ext_le(a, b),
    ensures
        y > 0 ==> ext_le(ext_div(a, ExtInt::Fin(y)), ext_div(b, ExtInt::Fin(y))),
        y < 0 ==> ext_le(ext_div(b, ExtInt::Fin(y)), ext_div(a, ExtInt::Fin(y))),
{
    match (a, b) {
        (ExtInt::Fin(x1), ExtInt::Fin(x2)) => {
            lemma_trunc_div_dividend_monotone(x1, x2, y);
        },
        _ => {},
    }
}

/// `d` lies strictly on one side of zero.
pub open spec fn nonzero_side(d: ExtInt, positive: bool) -> bool {
    if positive {
        ext_lt(ExtInt::Fin(0), d)
    } else {
        ext_lt(d, ExtInt::Fin(0))
    }
}

/// For divisors on one side of zero, a dividend that is not negative
/// gives quotients that shrink as the divisor grows; a negative one
/// gives quotients that grow.
proof fn lemma_div_divisor_monotone(e: ExtInt, c: ExtInt, d: ExtInt, positive: bool)
    requires
        ext_le(c, d),
        nonzero_side(c, positive),
        nonzero_side(d, positive),
    ensures
        ext_sign(e) != Sign::NEGATIVE ==> ext_le(ext_div(e, d), ext_div(e, c)),
        ext_sign(e) == Sign::NEGATIVE ==> ext_le(ext_div(e, c), ext_div(e, d)),
{
    match (e, c, d) {
        (ExtInt::Fin(x), ExtInt::Fin(y1), ExtInt::Fin(y2)) => {
            lemma_trunc_div_divisor_monotone(x, y1, y2);
        },
        (ExtInt::Fin(x), ExtInt::Fin(y1), _) => {
            lemma_trunc_div_sign(x, y1);
        },
        (ExtInt::Fin(x), _, ExtInt::Fin(y2)) => {
            lemma_trunc_div_sign(x, y2);
        },
        _ => {},
    }
}

/// Interval division holds every quotient (rounded toward zero) of
/// members, when the divisor interval does not hold `0`. (Where it holds
/// `0` between bounds of opposite sign, quotients by divisors near `0`
/// can fall outside: `[1, 1] / [-2, 3]` is `[0, 0]` but `1 / 1` is `1`.)
pub proof fn lemma_div_sound(a: Interval, b: Interval, x: int, y: int)
    requires
        a@.contains(x),
        b@.contains(y),
        !b@.contains(0),
    ensures
        y != 0,
        a@.div_defined(b@),
        a@.div(b@).contains(trunc_div(x, y)),
{
    let l1 = a@.low;
    let h1 = a@.high;
    let l2 = b@.low;
    let h2 = b@.high;
    let xx = ExtInt::Fin(x);
    let yy = ExtInt::Fin(y);
    let positive = y > 0;
    assert(nonzero_side(l2, positive));
    assert(nonzero_side(h2, positive));
    lemma_div_dividend_monotone(y, l1, xx);
    lemma_div_dividend_monotone(y, xx, h1);
    lemma_div_dividend_monotone(y, l1, h1);
    lemma_div_divisor_monotone(l1, l2, yy, positive);
    lemma_div_divisor_monotone(l1, yy, h2, positive);
    lemma_div_divisor_monotone(l1, l2, h2, positive);
    lemma_div_divisor_monotone(h1, l2, yy, positive);
    lemma_div_divisor_monotone(h1, yy, h2, positive);
    lemma_div_divisor_monotone(h1, l2, h2, positive);
    let m = ext_div(xx, yy);
    let p = ext_div(l1, yy);
    let q = ext_div(h1, yy);
    assert(between(m, p, q));
    assert(between(p, ext_div(l1, l2), ext_div(l1, h2)));
    assert(between(q, ext_div(h1, l2), ext_div(h1, h2)));
    lemma_between_corners(
        m,
        p,
        q,
        ext_div(l1, l2),
        ext_div(l1, h2),
        ext_div(h1, l2),
        ext_div(h1, h2),
    );
}

// ---------------------------------------------------------------------
// Exactness: what each result is, over all inputs
// ---------------------------------------------------------------------

/// `m` is the least of four bounds: no greater than any, and one of them.
pub open spec fn is_least_of(m: ExtInt, a: ExtInt, b: ExtInt, c: ExtInt, d: ExtInt) -> bool {
    &&& ext_le(m, a) && ext_le(m, b) && ext_le(m, c) && ext_le(m, d)
    &&& (m == a || m == b || m == c || m == d)
}

/// `m` is the greatest of four bounds: no less than any, and one of them.
pub open spec fn is_greatest_of(m: ExtInt, a: ExtInt, b: ExtInt, c: ExtInt, d: ExtInt) -> bool {
    &&& ext_le(a, m) && ext_le(b, m) && ext_le(c, m) && ext_le(d, m)
    &&& (m == a || m == b || m == c || m == d)
}

proof fn lemma_min4_max4(a: ExtInt, b: ExtInt, c: ExtInt, d: ExtInt)
    ensures
        is_least_of(min4(a, b, c, d), a, b, c, d),
        is_greatest_of(max4(a, b, c, d), a, b, c, d),
{
}

/// The product of two intervals runs exactly from the least to the
/// greatest of the four products of their bounds, for every pair of
/// operands; so it is never `⊥`.
pub proof fn lemma_mul_corners(a: Interval, b: Interval)
    ensures
        is_least_of(
            a@.mul(b@).low,
            ext_mul(a@.low, b@.low),
            ext_mul(a@.low, b@.high),
            ext_mul(a@.high, b@.low),
            ext_mul(a@.high, b@.high),
        ),
        is_greatest_of(
            a@.mul(b@).high,
            ext_mul(a@.low, b@.low),
            ext_mul(a@.low, b@.high),
            ext_mul(a@.high, b@.low),
            ext_mul(a@.high, b@.high),
        ),
        ext_le(a@.mul(b@).low, a@.mul(b@).high),
        !a@.mul(b@).is_bottom(),
{
    lemma_min4_max4(
        ext_mul(a@.low, b@.low),
        ext_mul(a@.low, b@.high),
        ext_mul(a@.high, b@.low),
        ext_mul(a@.high, b@.high),
    );
}

/// The product of two finite intervals is attained: its bounds are
/// products of members of the operands.
pub proof fn lemma_mul_bounds_attained(a: Interval, b: Interval, l1: int, h1: int, l2: int, h2: int)
    requires
        a@.low == ExtInt::Fin(l1),
        a@.high == ExtInt::Fin(h1),
        b@.low == ExtInt::Fin(l2),
        b@.high == ExtInt::Fin(h2),
        l1 <= h1,
        l2 <= h2,
    ensures
        exists|x: int, y: int| a@.contains(x) && b@.contains(y) && a@.mul(b@).low == ExtInt::Fin(x * y),
        exists|x: int, y: int| a@.contains(x) && b@.contains(y) && a@.mul(b@).high == ExtInt::Fin(x * y),
{
    lemma_mul_corners(a, b);
    let lo = a@.mul(b@).low;
    let hi = a@.mul(b@).high;
    if lo == ExtInt::Fin(l1 * l2) {
        assert(a@.contains(l1) && b@.contains(l2));
    } else if lo == ExtInt::Fin(l1 * h2) {
        assert(a@.contains(l1) && b@.contains(h2));
    } else if lo == ExtInt::Fin(h1 * l2) {
        assert(a@.contains(h1) && b@.contains(l2));
    } else {
        assert(a@.contains(h1) && b@.contains(h2));
    }
    if hi == ExtInt::Fin(l1 * l2) {
        assert(a@.contains(l1) && b@.contains(l2));
    } else if hi == ExtInt::Fin(l1 * h2) {
        assert(a@.contains(l1) && b@.contains(h2));
    } else if hi == ExtInt::Fin(h1 * l2) {
        assert(a@.contains(h1) && b@.contains(l2));
    } else {
        assert(a@.contains(h1) && b@.contains(h2));
    }
}

/// The quotient of two intervals runs exactly from the least to the
/// greatest of the four quotients of their bounds, for every divisor,
/// one whose bounds have opposite signs included; so it is never `⊥`.
pub proof fn lemma_div_corners(a: Interval, b: Interval)
    ensures
        is_least_of(
            a@.div(b@).low,
            ext_div(a@.low, b@.low),
            ext_div(a@.low, b@.high),
            ext_div(a@.high, b@.low),
            ext_div(a@.high, b@.high),
        ),
        is_greatest_of(
            a@.div(b@).high,
            ext_div(a@.low, b@.low),
            ext_div(a@.low, b@.high),
            ext_div(a@.high, b@.low),
            ext_div(a@.high, b@.high),
        ),
        ext_le(a@.div(b@).low, a@.div(b@).high),
        !a@.div(b@).is_bottom(),
{
    lemma_min4_max4(
        ext_div(a@.low, b@.low),
        ext_div(a@.low, b@.high),
        ext_div(a@.high, b@.low),
        ext_div(a@.high, b@.high),
    );
}

/// On two single integers the bitwise operations are exact: they give
/// the single integer that the operation gives, for every pair of
/// integers (negative ones, `0` and `-1` included).
pub proof fn lemma_bitwise_points_exact(l: int, r: int)
    ensures
        point_view(l).bitand(point_view(r)) == point_view(int_and(l, r)),
        point_view(l).bitor(point_view(r)) == point_view(int_or(l, r)),
        point_view(l).bitxor(point_view(r)) == point_view(int_xor(l, r)),
{
    lemma_and_all_ones(l);
    lemma_and_all_ones(r);
    lemma_and_zero(l);
    lemma_and_zero(r);
    lemma_or_all_ones(l);
    lemma_or_all_ones(r);
    lemma_or_zero(l);
    lemma_or_zero(r);
    lemma_xor_zero(l);
    lemma_xor_zero(r);
}

/// On two single integers the shifts are exact wherever the distance
/// fits in a `u32`, whatever the sign of the shifted value: `l << r` is
/// `l * 2^r` and `l >> r` is `l / 2^r` rounded down. Other distances give
/// `[-∞, ∞]`.
pub proof fn lemma_shift_points_exact(l: int, r: int)
    ensures
        0 <= r <= u32::MAX ==> point_view(l).shl(point_view(r)) == point_view(l * pow2(r as nat)),
        0 <= r <= u32::MAX ==> point_view(l).shr(point_view(r)) == point_view(
            l / (pow2(r as nat) as int),
        ),
        !(0 <= r <= u32::MAX) ==> point_view(l).shl(point_view(r)) == top_view(),
        !(0 <= r <= u32::MAX) ==> point_view(l).shr(point_view(r)) == top_view(),
{
}

/// Neither bound pair is `⊥` nor `[-∞, ∞]`.
pub open spec fn proper(v: IntervalView) -> bool {
    !ext_lt(v.high, v.low) && !(v.low == ExtInt::NegInf && v.high == ExtInt::PosInf)
}

/// The comparisons answer whenever the bounds decide: for proper
/// operands, `a` lying wholly below `b` (its high bound under `b`'s low
/// bound) gives a definite "less", and wholly at or above gives a
/// definite "not less", whatever the bounds, infinite ones included.
/// Operands that are `⊥` or `[-∞, ∞]` give no answer.
pub proof fn lemma_comparisons_complete(a: Interval, b: Interval)
    ensures
        proper(a@) && proper(b@) ==> {
            &&& ext_lt(a@.high, b@.low) ==> a@.less_than(b@) == Some(true)
            &&& ext_le(b@.high, a@.low) ==> a@.less_than(b@) == Some(false)
            &&& ext_le(a@.high, b@.low) ==> a@.less_equal(b@) == Some(true)
            &&& ext_lt(b@.high, a@.low) ==> a@.less_equal(b@) == Some(false)
            &&& ext_le(b@.high, a@.low) ==> a@.greater_equal(b@) == Some(true)
            &&& ext_lt(a@.high, b@.low) ==> a@.greater_equal(b@) == Some(false)
            &&& ext_lt(b@.high, a@.low) ==> a@.greater_than(b@) == Some(true)
            &&& ext_le(a@.high, b@.low) ==> a@.greater_than(b@) == Some(false)
        },
        !(proper(a@) && proper(b@)) ==> {
            &&& a@.less_than(b@) is None
            &&& a@.less_equal(b@) is None
            &&& a@.greater_equal(b@) is None
            &&& a@.greater_than(b@) is None
        },
{
}

/// The comparisons mirror one another: `a < b` is answered as `b > a`,
/// and `a <= b` as `b >= a`.
pub proof fn lemma_comparisons_mirror(a: Interval, b: Interval)
    ensures
        a@.less_than(b@) == b@.greater_than(a@),
        a@.less_equal(b@) == b@.greater_equal(a@),
{
}

/// The bitwise shortcuts are exact: for any operand `b` that is neither
/// `⊥` nor `[-∞, ∞]`, AND with `[0, 0]` is `[0, 0]` and AND with
/// `[-1, -1]` is `b`; OR with `[-1, -1]` is `[-1, -1]` and OR with
/// `[0, 0]` is `b`; XOR with `[0, 0]` is `b`; on either side.
pub proof fn lemma_bitwise_identities(b: Interval)
    requires
        proper(b@),
    ensures
        point_view(0).bitand(b@) == point_view(0),
        b@.bitand(point_view(0)) == point_view(0),
        point_view(-1).bitand(b@) == b@,
        b@.bitand(point_view(-1)) == b@,
        point_view(-1).bitor(b@) == point_view(-1),
        b@.bitor(point_view(-1)) == point_view(-1),
        point_view(0).bitor(b@) == b@,
        b@.bitor(point_view(0)) == b@,
        point_view(0).bitxor(b@) == b@,
        b@.bitxor(point_view(0)) == b@,
{
}

/// `⊥` absorbs the bitwise operations and shifts; otherwise
/// `[-∞, ∞]` does.
pub proof fn lemma_bitwise_bottom_top(a: Interval, b: Interval)
    ensures
        (a@.is_bottom() || b@.is_bottom()) ==> {
            &&& a@.bitand(b@) == bottom_view()
            &&& a@.bitor(b@) == bottom_view()
            &&& a@.bitxor(b@) == bottom_view()
            &&& a@.shl(b@) == bottom_view()
            &&& a@.shr(b@) == bottom_view()
        },
        (!a@.is_bottom() && !b@.is_bottom() && (a@.is_top() || b@.is_top())) ==> {
            &&& a@.bitand(b@) == top_view()
            &&& a@.bitor(b@) == top_view()
            &&& a@.bitxor(b@) == top_view()
            &&& a@.shl(b@) == top_view()
            &&& a@.shr(b@) == top_view()
        },
{
}

/// Sums and differences of finite intervals are tight: each bound of
/// the result is the sum (difference) of some pair of members.
pub proof fn lemma_add_sub_bounds_attained(a: Interval, b: Interval, l1: int, h1: int, l2: int, h2: int)
    requires
        a@.low == ExtInt::Fin(l1),
        a@.high == ExtInt::Fin(h1),
        b@.low == ExtInt::Fin(l2),
        b@.high == ExtInt::Fin(h2),
        l1 <= h1,
        l2 <= h2,
    ensures
        exists|x: int, y: int| a@.contains(x) && b@.contains(y) && a@.add(b@).low == ExtInt::Fin(x + y),
        exists|x: int, y: int| a@.contains(x) && b@.contains(y) && a@.add(b@).high == ExtInt::Fin(x + y),
        exists|x: int, y: int| a@.contains(x) && b@.contains(y) && a@.sub(b@).low == ExtInt::Fin(x - y),
        exists|x: int, y: int| a@.contains(x) && b@.contains(y) && a@.sub(b@).high == ExtInt::Fin(x - y),
{
    assert(a@.contains(l1) && a@.contains(h1) && b@.contains(l2) && b@.contains(h2));
}

/// `equal_to` answers exactly when both operands are single integers,
/// and then says whether they are the same.
pub proof fn lemma_equal_to_exact(a: Interval, b: Interval)
    ensures
        forall|x: int, y: int|
            a@ == point_view(x) && b@ == point_view(y) ==> a@.equal_to(b@) == Some(x == y),
        (a@.low != a@.high || !(a@.low is Fin)) ==> a@.equal_to(b@) is None,
        (b@.low != b@.high || !(b@.low is Fin)) ==> a@.equal_to(b@) is None,
{
}

} // verus!
