use vstd::prelude::*;

verus! {

/// 2^64, the modulus of `u64` arithmetic.
pub open spec fn u64_modulus() -> int {
    0x1_0000_0000_0000_0000
}

/// The value that an `i64` holding `x` takes when it is reinterpreted as a `u64` with `as`.
pub open spec fn reinterpret_as_u64(x: int) -> int {
    if x >= 0 {
        x
    } else {
        x + u64_modulus()
    }
}

/// Whether `x` is a value of `i64`.
pub open spec fn fits_i64(x: int) -> bool {
    i64::MIN <= x <= i64::MAX
}

/// The number of seconds from `from` until `until`, read the way every instruction of the
/// protocol reads it: the `i64` difference reinterpreted as a `u64` (a negative difference wraps).
pub open spec fn seconds_left(until: i64, from: i64) -> int {
    reinterpret_as_u64(until - from)
}

proof fn lemma_i64_as_u64(x: i64)
    ensures
        (x as u64) as int == reinterpret_as_u64(x as int),
{
    assert(x >= 0 ==> (x as u64) as int == x as int) by (bit_vector);
    assert(x < 0 ==> (x as u64) as int == x as int + 0x1_0000_0000_0000_0000int) by (bit_vector);
}

/// `x` reinterpreted as a `u64`, as `x as u64` does.
pub fn i64_as_u64(x: i64) -> (r: u64)
    ensures
        r == reinterpret_as_u64(x as int),
{
    proof {
        lemma_i64_as_u64(x);
    }
    x as u64
}

/// Seconds from `from` until `until`; the subtraction must not overflow `i64`.
pub fn seconds_until(until: i64, from: i64) -> (r: u64)
    requires
        fits_i64(until - from),
    ensures
        r == seconds_left(until, from),
{
    i64_as_u64(until - from)
}

/// Whether `a - b` fits `i64`, decided without overflowing.
pub fn i64_sub_fits(a: i64, b: i64) -> (r: bool)
    ensures
        r == fits_i64(a - b),
{
    if b >= 0 {
        a >= i64::MIN + b
    } else {
        a <= i64::MAX + b
    }
}

/// Whether `a * b` fits `u64`, decided without overflowing.
pub fn u64_mul_fits(a: u64, b: u64) -> (r: bool)
    ensures
        r == (a * b <= u64::MAX),
{
    if b == 0 {
        proof {
            vstd::arithmetic::mul::lemma_mul_basics(a as int);
        }
        return true;
    }
    let q = u64::MAX / b;
    proof {
        vstd::arithmetic::div_mod::lemma_fundamental_div_mod(u64::MAX as int, b as int);
        vstd::arithmetic::mul::lemma_mul_is_commutative(b as int, q as int);
        if a <= q {
            vstd::arithmetic::mul::lemma_mul_inequality(a as int, q as int, b as int);
        } else {
            vstd::arithmetic::mul::lemma_mul_inequality(q + 1, a as int, b as int);
            vstd::arithmetic::mul::lemma_mul_is_distributive_add_other_way(b as int, q as int, 1);
        }
    }
    a <= q
}

/// Where `from <= until`, fewer seconds are left from a later start.
pub proof fn lemma_seconds_left_shrinks(until: i64, earlier: i64, later: i64)
    requires
        earlier <= later <= until,
    ensures
        0 <= seconds_left(until, later) <= seconds_left(until, earlier),
        seconds_left(until, later) == until - later,
{
}

/// `(a * x) / d <= (a * y) / d` for `0 <= x <= y`, `a >= 0`, `d > 0`.
pub proof fn lemma_scaled_quotient_monotone(a: int, x: int, y: int, d: int)
    requires
        0 <= a,
        0 <= x <= y,
        0 < d,
    ensures
        0 <= (a * x) / d <= (a * y) / d,
        0 <= a * x <= a * y,
{
    vstd::arithmetic::mul::lemma_mul_inequality(x, y, a);
    vstd::arithmetic::mul::lemma_mul_is_commutative(x, a);
    vstd::arithmetic::mul::lemma_mul_is_commutative(y, a);
    vstd::arithmetic::mul::lemma_mul_nonnegative(a, x);
    vstd::arithmetic::div_mod::lemma_div_is_ordered(a * x, a * y, d);
    vstd::arithmetic::div_mod::lemma_div_pos_is_pos(a * x, d);
}

/// The seconds left are the plain difference while `from <= until`, and the difference plus
/// 2^64 (the wrapped `u64` reading) once `from` has passed `until`.
pub proof fn lemma_seconds_left_reading(until: i64, from: i64)
    ensures
        from <= until ==> seconds_left(until, from) == until - from,
        from > until ==> seconds_left(until, from) == until - from + 0x1_0000_0000_0000_0000,
{
}

} // verus!
