use vstd::prelude::*;
use vstd::arithmetic::power2::pow2;
use crate::bigint::BigInt;
use crate::bigint::int_and;
use crate::bigint::int_or;
use crate::bigint::int_xor;
use crate::bigint::rug_from_i128;
use crate::bigint::rug_and;
use crate::bigint::rug_or;
use crate::bigint::rug_xor;
use crate::bigint::rug_shl;
use crate::bigint::rug_shr;
use crate::bigint::rug_to_u32;
use crate::bound::Bound;
use crate::bound::ExtInt;
use crate::bound::ext_lt;
use crate::bound::ext_le;
use crate::bound::ext_add;
use crate::bound::ext_sub;
use crate::bound::ext_mul;
use crate::bound::ext_div;
use crate::bound::ext_div_defined;
use crate::bound::ext_min;
use crate::bound::ext_max;

verus! {

// ---------------------------------------------------------------------
// The mathematical model of an interval
// ---------------------------------------------------------------------

/// The bounds of an interval, as extended integers.
pub struct IntervalView {
    pub low: ExtInt,
    pub high: ExtInt,
}

/// `[-∞, ∞]`.
pub open spec fn top_view() -> IntervalView {
    IntervalView { low: ExtInt::NegInf, high: ExtInt::PosInf }
}

/// `⊥`, written `[∞, -∞]`.
pub open spec fn bottom_view() -> IntervalView {
    IntervalView { low: ExtInt::PosInf, high: ExtInt::NegInf }
}

/// `[x, x]`.
pub open spec fn point_view(x: int) -> IntervalView {
    IntervalView { low: ExtInt::Fin(x), high: ExtInt::Fin(x) }
}

pub open spec fn min4(a: ExtInt, b: ExtInt, c: ExtInt, d: ExtInt) -> ExtInt {
    ext_min(ext_min(ext_min(a, b), c), d)
}

pub open spec fn max4(a: ExtInt, b: ExtInt, c: ExtInt, d: ExtInt) -> ExtInt {
    ext_max(ext_max(ext_max(a, b), c), d)
}

impl IntervalView {
    pub open spec fn is_top(self) -> bool {
        self.high == ExtInt::PosInf && self.low == ExtInt::NegInf
    }

    /// Empty: the high bound lies below the low one.
    pub open spec fn is_bottom(self) -> bool {
        ext_lt(self.high, self.low)
    }

    pub open spec fn is_zero(self) -> bool {
        self.low == ExtInt::Fin(0) && self.high == ExtInt::Fin(0)
    }

    pub open spec fn all_ones(self) -> bool {
        self.low == ExtInt::Fin(-1) && self.high == ExtInt::Fin(-1)
    }

    /// The single integer that both bounds are, if they are one.
    pub open spec fn as_int(self) -> Option<int> {
        match (self.high, self.low) {
            (ExtInt::Fin(h), ExtInt::Fin(l)) => if h == l {
                Some(h)
            } else {
                None
            },
            _ => None,
        }
    }

    /// `x` lies between the bounds.
    pub open spec fn contains(self, x: int) -> bool {
        ext_le(self.low, ExtInt::Fin(x)) && ext_le(ExtInt::Fin(x), self.high)
    }

    /// Neither operand is `⊥` or `[-∞, ∞]`.
    pub open spec fn comparable(self, other: IntervalView) -> bool {
        !self.is_bottom() && !self.is_top() && !other.is_bottom() && !other.is_top()
    }

    pub open spec fn less_than(self, other: IntervalView) -> Option<bool> {
        if !self.comparable(other) {
            None
        } else if ext_lt(self.high, other.low) {
            Some(true)
        } else if ext_le(other.high, self.low) {
            Some(false)
        } else {
            None
        }
    }

    pub open spec fn less_equal(self, other: IntervalView) -> Option<bool> {
        if !self.comparable(other) {
            None
        } else if ext_le(self.high, other.low) {
            Some(true)
        } else if ext_lt(other.high, self.low) {
            Some(false)
        } else {
            None
        }
    }

    pub open spec fn greater_equal(self, other: IntervalView) -> Option<bool> {
        if !self.comparable(other) {
            None
        } else if ext_le(other.high, self.low) {
            Some(true)
        } else if ext_lt(self.high, other.low) {
            Some(false)
        } else {
            None
        }
    }

    pub open spec fn greater_than(self, other: IntervalView) -> Option<bool> {
        if !self.comparable(other) {
            None
        } else if ext_lt(other.high, self.low) {
            Some(true)
        } else if ext_le(self.high, other.low) {
            Some(false)
        } else {
            None
        }
    }

    pub open spec fn equal_to(self, other: IntervalView) -> Option<bool> {
        match (self.as_int(), other.as_int()) {
            (Some(x), Some(y)) => Some(x == y),
            _ => None,
        }
    }

    pub open spec fn not_equal_to(self, other: IntervalView) -> Option<bool> {
        match self.equal_to(other) {
            Some(b) => Some(!b),
            None => None,
        }
    }

    pub open spec fn add(self, other: IntervalView) -> IntervalView {
        IntervalView { low: ext_add(self.low, other.low), high: ext_add(self.high, other.high) }
    }

    pub open spec fn sub(self, other: IntervalView) -> IntervalView {
        IntervalView { low: ext_sub(self.low, other.high), high: ext_sub(self.high, other.low) }
    }

    pub open spec fn mul(self, rhs: IntervalView) -> IntervalView {
        let a = ext_mul(self.low, rhs.low);
        let b = ext_mul(self.low, rhs.high);
        let c = ext_mul(self.high, rhs.low);
        let d = ext_mul(self.high, rhs.high);
        IntervalView { low: min4(a, b, c, d), high: max4(a, b, c, d) }
    }

    /// The four bound quotients are defined: no bound of `rhs` is `0`.
    pub open spec fn div_defined(self, rhs: IntervalView) -> bool {
        ext_div_defined(self.low, rhs.low) && ext_div_defined(self.high, rhs.high)
    }

    pub open spec fn div(self, rhs: IntervalView) -> IntervalView {
        let a = ext_div(self.low, rhs.low);
        let b = ext_div(self.low, rhs.high);
        let c = ext_div(self.high, rhs.low);
        let d = ext_div(self.high, rhs.high);
        IntervalView { low: min4(a, b, c, d), high: max4(a, b, c, d) }
    }

    pub open spec fn bitand(self, rhs: IntervalView) -> IntervalView {
        if self.is_bottom() || rhs.is_bottom() {
            bottom_view()
        } else if self.is_top() || rhs.is_top() {
            top_view()
        } else if self.is_zero() || rhs.is_zero() {
            point_view(0)
        } else if self.all_ones() {
            rhs
        } else if rhs.all_ones() {
            self
        } else {
            match (self.as_int(), rhs.as_int()) {
                (Some(l), Some(r)) => point_view(int_and(l, r)),
                _ => top_view(),
            }
        }
    }

    pub open spec fn bitor(self, rhs: IntervalView) -> IntervalView {
        if self.is_bottom() || rhs.is_bottom() {
            bottom_view()
        } else if self.is_top() || rhs.is_top() {
            top_view()
        } else if self.all_ones() || rhs.all_ones() {
            point_view(-1)
        } else if self.is_zero() {
            rhs
        } else if rhs.is_zero() {
            self
        } else {
            match (self.as_int(), rhs.as_int()) {
                (Some(l), Some(r)) => point_view(int_or(l, r)),
                _ => top_view(),
            }
        }
    }

    pub open spec fn bitxor(self, rhs: IntervalView) -> IntervalView {
        if self.is_bottom() || rhs.is_bottom() {
            bottom_view()
        } else if self.is_top() || rhs.is_top() {
            top_view()
        } else if self.is_zero() {
            rhs
        } else if rhs.is_zero() {
            self
        } else {
            match (self.as_int(), rhs.as_int()) {
                (Some(l), Some(r)) => point_view(int_xor(l, r)),
                _ => top_view(),
            }
        }
    }

    /// A shift distance is used only where it fits in a `u32`.
    pub open spec fn shl(self, rhs: IntervalView) -> IntervalView {
        if self.is_bottom() || rhs.is_bottom() {
            bottom_view()
        } else if self.is_top() || rhs.is_top() {
            top_view()
        } else {
            match (self.as_int(), rhs.as_int()) {
                (Some(l), Some(r)) => if 0 <= r <= u32::MAX {
                    point_view(l * pow2(r as nat))
                } else {
                    top_view()
                },
                _ => top_view(),
            }
        }
    }

    pub open spec fn shr(self, rhs: IntervalView) -> IntervalView {
        if self.is_bottom() || rhs.is_bottom() {
            bottom_view()
        } else if self.is_top() || rhs.is_top() {
            top_view()
        } else {
            match (self.as_int(), rhs.as_int()) {
                (Some(l), Some(r)) => if 0 <= r <= u32::MAX {
                    point_view(l / (pow2(r as nat) as int))
                } else {
                    top_view()
                },
                _ => top_view(),
            }
        }
    }
}

// ---------------------------------------------------------------------
// Interval
// ---------------------------------------------------------------------

/// Abstract value that represents an interval
/// When `low` <= `high`, it is a normal interval `[low, high]`
/// When `low` == `NINF` && `high` == `INF`, it is `[-∞, ∞]`
/// When `low` == `INF` && `high` == `NINF`, it is `⊥`
pub struct Interval {
    pub high: Bound,
    pub low: Bound,
}

impl View for Interval {
    type V = IntervalView;

    open spec fn view(&self) -> IntervalView {
        IntervalView { low: self.low@, high: self.high@ }
    }
}

/// The text that `Interval::to_debug_string` gives.
pub open spec fn interval_debug_text(i: Interval) -> Seq<char> {
    if i@.is_bottom() {
        "⊥"@
    } else {
        "["@ + i.low.debug_text() + ", "@ + i.high.debug_text() + "]"@
    }
}

/// The integer that a singleton interval holds, as `TryFrom` gives it.
pub open spec fn singleton_of(i: Interval) -> Result<BigInt, &'static str> {
    match (i.high, i.low) {
        (Bound::Int(h), Bound::Int(l)) => if h@ == l@ {
            Ok(h)
        } else {
            Err("interval is not a integer")
        },
        _ => Err("interval is not a integer"),
    }
}

/// The boolean that `[1, 1]` or `[0, 0]` stands for, as `TryFrom` gives it.
pub open spec fn bool_of(i: Interval) -> Result<bool, &'static str> {
    if i@ == point_view(1) {
        Ok(true)
    } else if i@ == point_view(0) {
        Ok(false)
    } else {
        Err("interval is not a bool")
    }
}

/// The smaller bound, the first of equal ones.
fn min_bound(a: Bound, b: Bound) -> (r: Bound)
    ensures
        r@ == ext_min(a@, b@),
{
    if b < a {
        b
    } else {
        a
    }
}

/// The larger bound, the last of equal ones.
fn max_bound(a: Bound, b: Bound) -> (r: Bound)
    ensures
        r@ == ext_max(a@, b@),
{
    if b < a {
        a
    } else {
        b
    }
}

impl Interval {
    pub fn new(low: Bound, high: Bound) -> (r: Self)
        ensures
            r.low == low,
            r.high == high,
    {
        Interval { high: high, low: low }
    }

    pub fn top() -> (r: Self)
        ensures
            r@ == top_view(),
    {
        Interval { high: Bound::INF, low: Bound::NINF }
    }

    pub fn bottom() -> (r: Self)
        ensures
            r@ == bottom_view(),
    {
        Interval { high: Bound::NINF, low: Bound::INF }
    }

    pub fn is_top(&self) -> (r: bool)
        ensures
            r == self@.is_top(),
    {
        self.high == Bound::INF && self.low == Bound::NINF
    }

    pub fn is_bottom(&self) -> (r: bool)
        ensures
            r == self@.is_bottom(),
    {
        self.high < self.low
    }

    pub fn less_than(&self, other: &Interval) -> (r: Option<bool>)
        ensures
            r == self@.less_than(other@),
    {
        if self.is_bottom() || self.is_top() || other.is_bottom() || other.is_top() {
            None
        } else if self.high < other.low {
            Some(true)
        } else if other.high <= self.low {
            Some(false)
        } else {
            None
        }
    }

    pub fn less_equal(&self, other: &Interval) -> (r: Option<bool>)
        ensures
            r == self@.less_equal(other@),
    {
        if self.is_bottom() || self.is_top() || other.is_bottom() || other.is_top() {
            None
        } else if self.high <= other.low {
            Some(true)
        } else if other.high < self.low {
            Some(false)
        } else {
            None
        }
    }

    pub fn greater_equal(&self, other: &Interval) -> (r: Option<bool>)
        ensures
            r == self@.greater_equal(other@),
    {
        if self.is_bottom() || self.is_top() || other.is_bottom() || other.is_top() {
            None
        } else if self.low >= other.high {
            Some(true)
        } else if other.low > self.high {
            Some(false)
        } else {
            None
        }
    }

    pub fn greater_than(&self, other: &Interval) -> (r: Option<bool>)
        ensures
            r == self@.greater_than(other@),
    {
        if self.is_bottom() || self.is_top() || other.is_bottom() || other.is_top() {
            None
        } else if self.low > other.high {
            Some(true)
        } else if other.low >= self.high {
            Some(false)
        } else {
            None
        }
    }

    pub fn equal_to(&self, other: &Interval) -> (r: Option<bool>)
        ensures
            r == self@.equal_to(other@),
    {
        match (BigInt::try_from(self), BigInt::try_from(other)) {
            (Ok(v1), Ok(v2)) => {
                if v1.equals(&v2) {
                    return Some(true);
                } else {
                    return Some(false);
                }
            },
            _ => {},
        }
        None
    }

    pub fn not_equal_to(&self, other: &Interval) -> (r: Option<bool>)
        ensures
            r == self@.not_equal_to(other@),
    {
        if let Some(bool_value) = self.equal_to(other) {
            return Some(!bool_value);
        }
        None
    }

    fn is_zero(&self) -> (r: bool)
        ensures
            r == self@.is_zero(),
    {
        self.low == Bound::Int(rug_from_i128(0)) && self.high == Bound::Int(rug_from_i128(0))
    }

    fn all_ones(&self) -> (r: bool)
        ensures
            r == self@.all_ones(),
    {
        self.low == Bound::Int(rug_from_i128(-1)) && self.high == Bound::Int(rug_from_i128(-1))
    }

    /// `⊥`, or `[low, high]` with each bound as `Bound::to_debug_string`
    /// writes it.
    pub fn to_debug_string(&self) -> (r: String)
        ensures
            r@ == interval_debug_text(*self),
    {
        if self.is_bottom() {
            String::from_str("⊥")
        } else {
            let mut s = String::from_str("[");
            let low = self.low.to_debug_string();
            let high = self.high.to_debug_string();
            s.append(low.as_str());
            s.append(", ");
            s.append(high.as_str());
            s.append("]");
            s
        }
    }
}

impl Clone for Interval {
    fn clone(&self) -> (r: Self)
        ensures
            r == *self,
    {
        Interval { high: self.high.clone(), low: self.low.clone() }
    }
}

impl PartialEq for Interval {
    fn eq(&self, other: &Self) -> (r: bool) {
        self.high == other.high && self.low == other.low
    }
}

impl vstd::std_specs::cmp::PartialEqSpecImpl for Interval {
    open spec fn obeys_eq_spec() -> bool {
        true
    }

    open spec fn eq_spec(&self, other: &Interval) -> bool {
        self@ == other@
    }
}

impl TryFrom<Interval> for BigInt {
    type Error = &'static str;

    fn try_from(value: Interval) -> (r: Result<Self, Self::Error>) {
        match (value.high, value.low) {
            (Bound::Int(high), Bound::Int(low)) => {
                if high.equals(&low) {
                    return Ok(high);
                }
            },
            _ => {},
        }
        Err("interval is not a integer")
    }
}

impl vstd::std_specs::convert::TryFromSpecImpl<Interval> for BigInt {
    open spec fn obeys_try_from_spec() -> bool {
        true
    }

    open spec fn try_from_spec(value: Interval) -> Result<BigInt, &'static str> {
        singleton_of(value)
    }
}

impl<'a> TryFrom<&'a Interval> for BigInt {
    type Error = &'static str;

    fn try_from(value: &'a Interval) -> (r: Result<Self, Self::Error>) {
        match (value.high.clone(), value.low.clone()) {
            (Bound::Int(high), Bound::Int(low)) => {
                if high.equals(&low) {
                    return Ok(high);
                }
            },
            _ => {},
        }
        Err("interval is not a integer")
    }
}

impl<'a> vstd::std_specs::convert::TryFromSpecImpl<&'a Interval> for BigInt {
    open spec fn obeys_try_from_spec() -> bool {
        true
    }

    open spec fn try_from_spec(value: &'a Interval) -> Result<BigInt, &'static str> {
        singleton_of(*value)
    }
}

impl TryFrom<Interval> for bool {
    type Error = &'static str;

    fn try_from(value: Interval) -> (r: Result<Self, Self::Error>) {
        if value.high == Bound::Int(rug_from_i128(1)) && value.low == Bound::Int(rug_from_i128(1)) {
            Ok(true)
        } else if value.high == Bound::Int(rug_from_i128(0)) && value.low == Bound::Int(
            rug_from_i128(0),
        ) {
            Ok(false)
        } else {
            Err("interval is not a bool")
        }
    }
}

impl vstd::std_specs::convert::TryFromSpecImpl<Interval> for bool {
    open spec fn obeys_try_from_spec() -> bool {
        true
    }

    open spec fn try_from_spec(value: Interval) -> Result<bool, &'static str> {
        bool_of(value)
    }
}

impl From<bool> for Interval {
    fn from(b: bool) -> (r: Self)
        ensures
            r@ == point_view(if b {
                1
            } else {
                0
            }),
    {
        let v;
        if b {
            v = Bound::Int(rug_from_i128(1));
        } else {
            v = Bound::Int(rug_from_i128(0));
        }
        Interval { high: v.clone(), low: v }
    }
}

impl vstd::std_specs::convert::FromSpecImpl<bool> for Interval {
    open spec fn obeys_from_spec() -> bool {
        false
    }

    open spec fn from_spec(b: bool) -> Interval {
        vstd::pervasive::arbitrary()
    }
}

impl core::ops::Add for Interval {
    type Output = Interval;

    fn add(self, other: Interval) -> (r: Interval)
        ensures
            r@ == self@.add(other@),
    {
        let low = self.low + other.low;
        let high = self.high + other.high;
        Interval::new(low, high)
    }
}

impl vstd::std_specs::ops::AddSpecImpl for Interval {
    open spec fn obeys_add_spec() -> bool {
        false
    }

    open spec fn add_req(self, other: Interval) -> bool {
        true
    }

    open spec fn add_spec(self, other: Interval) -> Interval {
        vstd::pervasive::arbitrary()
    }
}

impl core::ops::Sub for Interval {
    type Output = Interval;

    fn sub(self, other: Interval) -> (r: Interval)
        ensures
            r@ == self@.sub(other@),
    {
        let low = self.low - other.high;
        let high = self.high - other.low;
        Interval::new(low, high)
    }
}

impl vstd::std_specs::ops::SubSpecImpl for Interval {
    open spec fn obeys_sub_spec() -> bool {
        false
    }

    open spec fn sub_req(self, other: Interval) -> bool {
        true
    }

    open spec fn sub_spec(self, other: Interval) -> Interval {
        vstd::pervasive::arbitrary()
    }
}

impl core::ops::Mul for Interval {
    type Output = Self;

    fn mul(self, rhs: Self) -> (r: Self)
        ensures
            r@ == self@.mul(rhs@),
    {
        let a = self.low.clone() * rhs.low.clone();
        let b = self.low.clone() * rhs.high.clone();
        let c = self.high.clone() * rhs.low.clone();
        let d = self.high * rhs.high;
        let low = min_bound(min_bound(min_bound(a.clone(), b.clone()), c.clone()), d.clone());
        let high = max_bound(max_bound(max_bound(a, b), c), d);
        Interval::new(low, high)
    }
}

impl vstd::std_specs::ops::MulSpecImpl for Interval {
    open spec fn obeys_mul_spec() -> bool {
        false
    }

    open spec fn mul_req(self, rhs: Interval) -> bool {
        true
    }

    open spec fn mul_spec(self, rhs: Interval) -> Interval {
        vstd::pervasive::arbitrary()
    }
}

impl core::ops::Div for Interval {
    type Output = Self;

    /// Dividing by an interval with a bound `0` is refused: its caller
    /// must rule it out.
    fn div(self, rhs: Self) -> (r: Self)
        ensures
            r@ == self@.div(rhs@),
    {
        let a = self.low.clone() / rhs.low.clone();
        let b = self.low.clone() / rhs.high.clone();
        let c = self.high.clone() / rhs.low.clone();
        let d = self.high / rhs.high;
        let low = min_bound(min_bound(min_bound(a.clone(), b.clone()), c.clone()), d.clone());
        let high = max_bound(max_bound(max_bound(a, b), c), d);
        Interval::new(low, high)
    }
}

impl vstd::std_specs::ops::DivSpecImpl for Interval {
    open spec fn obeys_div_spec() -> bool {
        false
    }

    open spec fn div_req(self, rhs: Interval) -> bool {
        self@.div_defined(rhs@)
    }

    open spec fn div_spec(self, rhs: Interval) -> Interval {
        vstd::pervasive::arbitrary()
    }
}

impl core::ops::BitAnd for Interval {
    type Output = Self;

    fn bitand(self, rhs: Self) -> (r: Self::Output)
        ensures
            r@ == self@.bitand(rhs@),
    {
        if self.is_bottom() || rhs.is_bottom() {
            Self::bottom()
        } else if self.is_top() || rhs.is_top() {
            Self::top()
        } else if self.is_zero() || rhs.is_zero() {
            Self::new(Bound::from(0u128), Bound::from(0u128))
        } else if self.all_ones() {
            rhs
        } else if rhs.all_ones() {
            self
        } else {
            match (BigInt::try_from(self), BigInt::try_from(rhs)) {
                (Ok(lval), Ok(rval)) => {
                    let and_val = rug_and(&lval, &rval);
                    Self::new(Bound::from(and_val.clone()), Bound::from(and_val))
                },
                _ => Self::top(),
            }
        }
    }
}

impl vstd::std_specs::ops::BitAndSpecImpl for Interval {
    open spec fn obeys_bitand_spec() -> bool {
        false
    }

    open spec fn bitand_req(self, rhs: Interval) -> bool {
        true
    }

    open spec fn bitand_spec(self, rhs: Interval) -> Interval {
        vstd::pervasive::arbitrary()
    }
}

impl core::ops::BitOr for Interval {
    type Output = Self;

    fn bitor(self, rhs: Self) -> (r: Self::Output)
        ensures
            r@ == self@.bitor(rhs@),
    {
        if self.is_bottom() || rhs.is_bottom() {
            Self::bottom()
        } else if self.is_top() || rhs.is_top() {
            Self::top()
        } else if self.all_ones() || rhs.all_ones() {
            Self::new(Bound::from(-1i128), Bound::from(-1i128))
        } else if self.is_zero() {
            rhs
        } else if rhs.is_zero() {
            self
        } else {
            match (BigInt::try_from(self), BigInt::try_from(rhs)) {
                (Ok(lval), Ok(rval)) => {
                    let or_val = rug_or(&lval, &rval);
                    Self::new(Bound::from(or_val.clone()), Bound::from(or_val))
                },
                _ => Self::top(),
            }
        }
    }
}

impl vstd::std_specs::ops::BitOrSpecImpl for Interval {
    open spec fn obeys_bitor_spec() -> bool {
        false
    }

    open spec fn bitor_req(self, rhs: Interval) -> bool {
        true
    }

    open spec fn bitor_spec(self, rhs: Interval) -> Interval {
        vstd::pervasive::arbitrary()
    }
}

impl core::ops::BitXor for Interval {
    type Output = Self;

    fn bitxor(self, rhs: Self) -> (r: Self::Output)
        ensures
            r@ == self@.bitxor(rhs@),
    {
        if self.is_bottom() || rhs.is_bottom() {
            Self::bottom()
        } else if self.is_top() || rhs.is_top() {
            Self::top()
        } else if self.is_zero() {
            rhs
        } else if rhs.is_zero() {
            self
        } else {
            match (BigInt::try_from(self), BigInt::try_from(rhs)) {
                (Ok(lval), Ok(rval)) => {
                    let xor_val = rug_xor(&lval, &rval);
                    Self::new(Bound::from(xor_val.clone()), Bound::from(xor_val))
                },
                _ => Self::top(),
            }
        }
    }
}

impl vstd::std_specs::ops::BitXorSpecImpl for Interval {
    open spec fn obeys_bitxor_spec() -> bool {
        false
    }

    open spec fn bitxor_req(self, rhs: Interval) -> bool {
        true
    }

    open spec fn bitxor_spec(self, rhs: Interval) -> Interval {
        vstd::pervasive::arbitrary()
    }
}

impl core::ops::Shl for Interval {
    type Output = Self;

    fn shl(self, rhs: Self) -> (r: Self::Output)
        ensures
            r@ == self@.shl(rhs@),
    {
        if self.is_bottom() || rhs.is_bottom() {
            Self::bottom()
        } else if self.is_top() || rhs.is_top() {
            Self::top()
        } else {
            match (BigInt::try_from(self), BigInt::try_from(rhs)) {
                (Ok(lval), Ok(rval)) => {
                    if let Some(u32val) = rug_to_u32(&rval) {
                        let val = rug_shl(&lval, u32val);
                        Self::new(Bound::from(val.clone()), Bound::from(val))
                    } else {
                        Self::top()
                    }
                },
                _ => Self::top(),
            }
        }
    }
}

impl vstd::std_specs::ops::ShlSpecImpl for Interval {
    open spec fn obeys_shl_spec() -> bool {
        false
    }

    open spec fn shl_req(self, rhs: Interval) -> bool {
        true
    }

    open spec fn shl_spec(self, rhs: Interval) -> Interval {
        vstd::pervasive::arbitrary()
    }
}

impl core::ops::Shr for Interval {
    type Output = Self;

    fn shr(self, rhs: Self) -> (r: Self::Output)
        ensures
            r@ == self@.shr(rhs@),
    {
        if self.is_bottom() || rhs.is_bottom() {
            Self::bottom()
        } else if self.is_top() || rhs.is_top() {
            Self::top()
        } else {
            match (BigInt::try_from(self), BigInt::try_from(rhs)) {
                (Ok(lval), Ok(rval)) => {
                    if let Some(u32val) = rug_to_u32(&rval) {
                        let val = rug_shr(&lval, u32val);
                        Self::new(Bound::from(val.clone()), Bound::from(val))
                    } else {
                        Self::top()
                    }
                },
                _ => Self::top(),
            }
        }
    }
}

impl vstd::std_specs::ops::ShrSpecImpl for Interval {
    open spec fn obeys_shr_spec() -> bool {
        false
    }

    open spec fn shr_req(self, rhs: Interval) -> bool {
        true
    }

    open spec fn shr_spec(self, rhs: Interval) -> Interval {
        vstd::pervasive::arbitrary()
    }
}

} // verus!
