use vstd::prelude::*;
use vstd::arithmetic::power2::pow2;
use vstd::math::abs;
use core::cmp::Ordering;

verus! {

// ---------------------------------------------------------------------
// Decimal text
// ---------------------------------------------------------------------

/// The numeric value of a single decimal digit character.
pub open spec fn digit_value(c: char) -> int {
    (c as int) - 48
}

/// A non-empty run of decimal digits.
pub open spec fn is_digit_run(s: Seq<char>) -> bool {
    &&& s.len() > 0
    &&& forall|i: int| 0 <= i < s.len() ==> '0' <= #[trigger] s[i] <= '9'
}

/// The value of a run of decimal digits, most significant digit first.
pub open spec fn digit_run_value(s: Seq<char>) -> int
    decreases s.len(),
{
    if s.len() == 0 {
        0
    } else {
        10 * digit_run_value(s.drop_last()) + digit_value(s.last())
    }
}

/// Decimal text: an optional minus sign followed by digits.
pub open spec fn is_decimal_text(s: Seq<char>) -> bool {
    ||| is_digit_run(s)
    ||| (s.len() >= 2 && s[0] == '-' && is_digit_run(s.drop_first()))
}

/// The integer that a decimal text denotes.
pub open spec fn decimal_text_value(s: Seq<char>) -> int {
    if s.len() > 0 && s[0] == '-' {
        -digit_run_value(s.drop_first())
    } else {
        digit_run_value(s)
    }
}

/// The character of a decimal digit `d < 10`.
pub open spec fn digit_char(d: nat) -> char {
    (d + 48) as char
}

/// The digits of `n`, most significant first, with no leading zero
/// (`0` is written `"0"`).
pub open spec fn nat_text(n: nat) -> Seq<char>
    decreases n,
{
    if n < 10 {
        seq![digit_char(n)]
    } else {
        nat_text(n / 10).push(digit_char(n % 10))
    }
}

/// The canonical decimal text of `v`: a minus sign only for negative
/// values, then the digits of its magnitude with no leading zero.
pub open spec fn int_text(v: int) -> Seq<char> {
    if v < 0 {
        seq!['-'] + nat_text((-v) as nat)
    } else {
        nat_text(v as nat)
    }
}

// ---------------------------------------------------------------------
// Integer operations that are not plain `int` arithmetic
// ---------------------------------------------------------------------

/// Division that rounds toward zero, as Rust and GMP's `tdiv` do.
pub open spec fn trunc_div(a: int, b: int) -> int {
    if (a < 0) == (b < 0) {
        (abs(a) / abs(b)) as int
    } else {
        -((abs(a) / abs(b)) as int)
    }
}

/// The sign of a quotient: not negative when dividend and divisor lie on
/// the same side of zero, not positive otherwise.
pub proof fn lemma_trunc_div_sign(x: int, y: int)
    requires
        y != 0,
    ensures
        ((x >= 0) == (y > 0)) ==> trunc_div(x, y) >= 0,
        ((x >= 0) != (y > 0)) ==> trunc_div(x, y) <= 0,
{
    vstd::arithmetic::div_mod::lemma_div_pos_is_pos(abs(x) as int, abs(y) as int);
}

/// The quotient grows with the dividend for a positive divisor and
/// shrinks for a negative one.
pub proof fn lemma_trunc_div_dividend_monotone(x1: int, x2: int, y: int)
    requires
        x1 <= x2,
        y != 0,
    ensures
        y > 0 ==> trunc_div(x1, y) <= trunc_div(x2, y),
        y < 0 ==> trunc_div(x2, y) <= trunc_div(x1, y),
{
    let d = abs(y) as int;
    if x1 >= 0 {
        vstd::arithmetic::div_mod::lemma_div_is_ordered(x1, x2, d);
    } else if x2 >= 0 {
        vstd::arithmetic::div_mod::lemma_div_pos_is_pos(-x1, d);
        vstd::arithmetic::div_mod::lemma_div_pos_is_pos(x2, d);
    } else {
        vstd::arithmetic::div_mod::lemma_div_is_ordered(-x2, -x1, d);
    }
}

/// For divisors on one side of zero, the quotient shrinks as the divisor
/// grows when the dividend is not negative, and grows when it is.
pub proof fn lemma_trunc_div_divisor_monotone(x: int, y1: int, y2: int)
    requires
        (0 < y1 <= y2) || (y1 <= y2 < 0),
    ensures
        x >= 0 ==> trunc_div(x, y2) <= trunc_div(x, y1),
        x < 0 ==> trunc_div(x, y1) <= trunc_div(x, y2),
{
    let n = abs(x) as int;
    if y1 > 0 {
        vstd::arithmetic::div_mod::lemma_div_is_ordered_by_denominator(n, y1, y2);
    } else {
        vstd::arithmetic::div_mod::lemma_div_is_ordered_by_denominator(n, -y2, -y1);
    }
}

/// Halving moves an integer toward 0 or -1.
pub proof fn lemma_half_shrinks(a: int)
    ensures
        abs(a / 2) <= abs(a),
        (a != 0 && a != -1) ==> abs(a / 2) < abs(a),
{
}

/// Bitwise combination of two integers in infinite two's complement:
/// bit `i` of the result is `f` applied to bit `i` of `a` and of `b`.
pub open spec fn bitwise(a: int, b: int, f: spec_fn(bool, bool) -> bool) -> int
    decreases abs(a) + abs(b),
{
    if (a == 0 || a == -1) && (b == 0 || b == -1) {
        if f(a == -1, b == -1) {
            -1
        } else {
            0
        }
    } else {
        proof {
            lemma_half_shrinks(a);
            lemma_half_shrinks(b);
        }
        2 * bitwise(a / 2, b / 2, f) + (if f(a % 2 == 1, b % 2 == 1) {
            1int
        } else {
            0int
        })
    }
}

/// Two's complement bitwise AND.
pub open spec fn int_and(a: int, b: int) -> int {
    bitwise(a, b, |x: bool, y: bool| x && y)
}

/// Two's complement bitwise OR.
pub open spec fn int_or(a: int, b: int) -> int {
    bitwise(a, b, |x: bool, y: bool| x || y)
}

/// Two's complement bitwise exclusive OR.
pub open spec fn int_xor(a: int, b: int) -> int {
    bitwise(a, b, |x: bool, y: bool| x != y)
}

/// AND with all ones gives the other operand back.
pub proof fn lemma_and_all_ones(b: int)
    ensures
        int_and(-1, b) == b,
        int_and(b, -1) == b,
    decreases abs(b),
{
    if !(b == 0 || b == -1) {
        lemma_half_shrinks(b);
        lemma_and_all_ones(b / 2);
    }
}

/// AND with zero gives zero.
pub proof fn lemma_and_zero(b: int)
    ensures
        int_and(0, b) == 0,
        int_and(b, 0) == 0,
    decreases abs(b),
{
    if !(b == 0 || b == -1) {
        lemma_half_shrinks(b);
        lemma_and_zero(b / 2);
    }
}

/// OR with all ones gives all ones.
pub proof fn lemma_or_all_ones(b: int)
    ensures
        int_or(-1, b) == -1,
        int_or(b, -1) == -1,
    decreases abs(b),
{
    if !(b == 0 || b == -1) {
        lemma_half_shrinks(b);
        lemma_or_all_ones(b / 2);
    }
}

/// OR with zero gives the other operand back.
pub proof fn lemma_or_zero(b: int)
    ensures
        int_or(0, b) == b,
        int_or(b, 0) == b,
    decreases abs(b),
{
    if !(b == 0 || b == -1) {
        lemma_half_shrinks(b);
        lemma_or_zero(b / 2);
    }
}

/// XOR with zero gives the other operand back.
pub proof fn lemma_xor_zero(b: int)
    ensures
        int_xor(0, b) == b,
        int_xor(b, 0) == b,
    decreases abs(b),
{
    if !(b == 0 || b == -1) {
        lemma_half_shrinks(b);
        lemma_xor_zero(b / 2);
    }
}

// ---------------------------------------------------------------------
// The integer type
// ---------------------------------------------------------------------

/// An arbitrary-precision integer, held as its canonical decimal text
/// (as GMP's `mpz_get_str` writes it in base 10).
/// Arithmetic on it is carried out by GMP through `rug`.
pub struct BigInt {
    text: String,
}

impl BigInt {
    #[verifier::type_invariant]
    pub closed spec fn inv(self) -> bool {
        &&& is_decimal_text(self.text@)
        &&& self.text@ == int_text(decimal_text_value(self.text@))
    }

    /// The decimal text that holds this integer.
    pub closed spec fn text_of(self) -> Seq<char> {
        self.text@
    }

    /// The value that this integer denotes.
    pub closed spec fn value(self) -> int {
        decimal_text_value(self.text@)
    }

    /// The canonical decimal text of this integer, as `rug` prints it.
    pub fn to_decimal_string(&self) -> (r: String)
        ensures
            r@ == self.text_of(),
            r@ == int_text(self@),
            is_decimal_text(r@),
            decimal_text_value(r@) == self@,
    {
        proof {
            use_type_invariant(self);
        }
        self.text.clone()
    }
}

impl View for BigInt {
    type V = int;

    open spec fn view(&self) -> int {
        self.value()
    }
}

impl Clone for BigInt {
    fn clone(&self) -> (r: Self)
        ensures
            r == *self,
    {
        proof {
            use_type_invariant(self);
        }
        BigInt { text: self.text.clone() }
    }
}

// ---------------------------------------------------------------------
// Calls into rug. Each converts the decimal text to `rug::Integer`,
// makes one call, and converts the result back to decimal text.
// The text each one builds is rug's `Display` output, GMP's canonical
// base-10 text (`mpz_get_str`); that it meets `BigInt`'s invariant is
// taken on trust with the rest of each contract.
// ---------------------------------------------------------------------

/// `rug::Integer::from(i128)`: the integer equal to `n`.
#[verifier::external_body]
pub(crate) fn rug_from_i128(n: i128) -> (r: BigInt)
    ensures
        r@ == n as int,
{
    BigInt { text: rug::Integer::from(n).to_string() }
}

/// `rug::Integer::from(u128)`: the integer equal to `n`.
#[verifier::external_body]
pub(crate) fn rug_from_u128(n: u128) -> (r: BigInt)
    ensures
        r@ == n as int,
{
    BigInt { text: rug::Integer::from(n).to_string() }
}

/// `rug::Integer + rug::Integer`: the exact sum.
#[verifier::external_body]
pub(crate) fn rug_add(a: &BigInt, b: &BigInt) -> (r: BigInt)
    ensures
        r@ == a@ + b@,
{
    let x = a.text.parse::<rug::Integer>().unwrap();
    let y = b.text.parse::<rug::Integer>().unwrap();
    BigInt { text: (x + y).to_string() }
}

/// `rug::Integer - rug::Integer`: the exact difference.
#[verifier::external_body]
pub(crate) fn rug_sub(a: &BigInt, b: &BigInt) -> (r: BigInt)
    ensures
        r@ == a@ - b@,
{
    let x = a.text.parse::<rug::Integer>().unwrap();
    let y = b.text.parse::<rug::Integer>().unwrap();
    BigInt { text: (x - y).to_string() }
}

/// `rug::Integer * rug::Integer`: the exact product.
#[verifier::external_body]
pub(crate) fn rug_mul(a: &BigInt, b: &BigInt) -> (r: BigInt)
    ensures
        r@ == a@ * b@,
{
    let x = a.text.parse::<rug::Integer>().unwrap();
    let y = b.text.parse::<rug::Integer>().unwrap();
    BigInt { text: (x * y).to_string() }
}

/// `rug::Integer / rug::Integer`: the quotient rounded toward zero
/// (GMP's `mpz_tdiv_q`); rug panics on a zero divisor.
#[verifier::external_body]
pub(crate) fn rug_div(a: &BigInt, b: &BigInt) -> (r: BigInt)
    requires
        b@ != 0,
    ensures
        r@ == trunc_div(a@, b@),
{
    let x = a.text.parse::<rug::Integer>().unwrap();
    let y = b.text.parse::<rug::Integer>().unwrap();
    BigInt { text: (x / y).to_string() }
}

/// `rug::Integer & rug::Integer`: two's complement AND (`mpz_and`).
#[verifier::external_body]
pub(crate) fn rug_and(a: &BigInt, b: &BigInt) -> (r: BigInt)
    ensures
        r@ == int_and(a@, b@),
{
    let x = a.text.parse::<rug::Integer>().unwrap();
    let y = b.text.parse::<rug::Integer>().unwrap();
    BigInt { text: (x & y).to_string() }
}

/// `rug::Integer | rug::Integer`: two's complement OR (`mpz_ior`).
#[verifier::external_body]
pub(crate) fn rug_or(a: &BigInt, b: &BigInt) -> (r: BigInt)
    ensures
        r@ == int_or(a@, b@),
{
    let x = a.text.parse::<rug::Integer>().unwrap();
    let y = b.text.parse::<rug::Integer>().unwrap();
    BigInt { text: (x | y).to_string() }
}

/// `rug::Integer ^ rug::Integer`: two's complement XOR (`mpz_xor`).
#[verifier::external_body]
pub(crate) fn rug_xor(a: &BigInt, b: &BigInt) -> (r: BigInt)
    ensures
        r@ == int_xor(a@, b@),
{
    let x = a.text.parse::<rug::Integer>().unwrap();
    let y = b.text.parse::<rug::Integer>().unwrap();
    BigInt { text: (x ^ y).to_string() }
}

/// `rug::Integer << u32`: multiplication by `2^k` (`mpz_mul_2exp`).
#[verifier::external_body]
pub(crate) fn rug_shl(a: &BigInt, k: u32) -> (r: BigInt)
    ensures
        r@ == a@ * pow2(k as nat),
{
    let x = a.text.parse::<rug::Integer>().unwrap();
    BigInt { text: (x << k).to_string() }
}

/// `rug::Integer >> u32`: division by `2^k` rounded toward negative
/// infinity (`mpz_fdiv_q_2exp`).
#[verifier::external_body]
pub(crate) fn rug_shr(a: &BigInt, k: u32) -> (r: BigInt)
    ensures
        r@ == a@ / (pow2(k as nat) as int),
{
    let x = a.text.parse::<rug::Integer>().unwrap();
    BigInt { text: (x >> k).to_string() }
}

/// `rug::Integer::to_u32`: the value if it fits in a `u32`.
#[verifier::external_body]
pub(crate) fn rug_to_u32(a: &BigInt) -> (r: Option<u32>)
    ensures
        r == (if 0 <= a@ <= u32::MAX {
            Some(a@ as u32)
        } else {
            None::<u32>
        }),
{
    a.text.parse::<rug::Integer>().unwrap().to_u32()
}

/// The order of two integers as an `Ordering`.
pub open spec fn int_ordering(a: int, b: int) -> Ordering {
    if a < b {
        Ordering::Less
    } else if a == b {
        Ordering::Equal
    } else {
        Ordering::Greater
    }
}

/// `<rug::Integer as Ord>::cmp`: the numeric order.
#[verifier::external_body]
pub(crate) fn rug_cmp(a: &BigInt, b: &BigInt) -> (r: Ordering)
    ensures
        r == int_ordering(a@, b@),
{
    let x = a.text.parse::<rug::Integer>().unwrap();
    let y = b.text.parse::<rug::Integer>().unwrap();
    x.cmp(&y)
}

// ---------------------------------------------------------------------
// Verified operations on BigInt
// ---------------------------------------------------------------------

impl BigInt {
    /// The numeric order of `self` and `other`.
    pub fn compare(&self, other: &BigInt) -> (r: Ordering)
        ensures
            r == int_ordering(self@, other@),
    {
        rug_cmp(self, other)
    }

    /// Whether the two integers are equal.
    pub fn equals(&self, other: &BigInt) -> (r: bool)
        ensures
            r == (self@ == other@),
    {
        match rug_cmp(self, other) {
            Ordering::Equal => true,
            _ => false,
        }
    }
}

impl From<i128> for BigInt {
    fn from(n: i128) -> (r: BigInt)
        ensures
            r@ == n as int,
    {
        rug_from_i128(n)
    }
}

impl vstd::std_specs::convert::FromSpecImpl<i128> for BigInt {
    open spec fn obeys_from_spec() -> bool {
        false
    }

    open spec fn from_spec(n: i128) -> BigInt {
        vstd::pervasive::arbitrary()
    }
}

impl From<u128> for BigInt {
    fn from(n: u128) -> (r: BigInt)
        ensures
            r@ == n as int,
    {
        rug_from_u128(n)
    }
}

impl vstd::std_specs::convert::FromSpecImpl<u128> for BigInt {
    open spec fn obeys_from_spec() -> bool {
        false
    }

    open spec fn from_spec(n: u128) -> BigInt {
        vstd::pervasive::arbitrary()
    }
}

} // verus!
