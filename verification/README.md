# interval_domain

An interval abstract domain for numerical static analysis: intervals whose
bounds are arbitrary-precision integers or `±∞`, with interval arithmetic,
bitwise operations, shifts and three-valued comparisons.

Integer arithmetic is carried out by GMP through the `rug` crate. Everything
else is verified with Verus against a model in which a bound is an
extended integer (`ExtInt`) and an interval is a pair of them.

- `src/bigint.rs`: `BigInt`, the integer type (its canonical decimal
  text, as a type invariant), the specifications of the integer operations, and the
  wrappers around the `rug` calls.
- `src/bound.rs`: `Bound` (`INF`, `Int`, `NINF`), its order and
  arithmetic, and laws of the order.
- `src/interval.rs`: `Interval`, its operations and conversions.
- `src/soundness.rs`: laws: every operation's result holds every result of
  the operation on members of the operands (division where the divisor does
  not hold `0`), comparisons answer only what holds of all members, and the
  conversions give back what was put in.
