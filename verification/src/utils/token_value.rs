use vstd::prelude::*;

use crate::arith::{fits_i64, lemma_scaled_quotient_monotone, lemma_seconds_left_shrinks, seconds_left, seconds_until};

verus! {

/// Seconds in a day, the period over which the expected rate is quoted in token valuations.
pub const SECONDS_PER_DAY: u64 = 86400;

/// Value of `yt_token_amount` yield tokens at `now`: the amount times the expected rate times
/// the seconds left until maturity, in days (rounded down).
pub open spec fn yt_value(yt_token_amount: u64, maturity_ts: i64, expected_apy: u64, now: i64) -> int {
    (yt_token_amount * expected_apy) * seconds_left(maturity_ts, now) / (SECONDS_PER_DAY as int)
}

/// Whether the yield-token valuation can be computed: the time difference fits `i64` and the
/// products fit `u64`. Elsewhere the valuation aborts.
pub open spec fn yt_value_defined(yt_token_amount: u64, maturity_ts: i64, expected_apy: u64, now: i64) -> bool {
    &&& fits_i64(maturity_ts - now)
    &&& yt_token_amount * expected_apy <= u64::MAX
    &&& (yt_token_amount * expected_apy) * seconds_left(maturity_ts, now) <= u64::MAX
}

/// The divisor by which principal tokens are discounted at `now`: one plus the expected rate
/// times the days left until maturity (rounded down).
pub open spec fn pt_divisor(maturity_ts: i64, expected_apy: u64, now: i64) -> int {
    expected_apy * seconds_left(maturity_ts, now) / (SECONDS_PER_DAY as int) + 1
}

/// Value of `pt_token_amount` principal tokens at `now`: the amount divided by the discount
/// divisor (rounded down).
pub open spec fn pt_value(pt_token_amount: u64, maturity_ts: i64, expected_apy: u64, now: i64) -> int {
    (pt_token_amount as int) / pt_divisor(maturity_ts, expected_apy, now)
}

/// Whether the principal-token valuation can be computed: the time difference fits `i64` and
/// the product and the divisor fit `u64`. Elsewhere the valuation aborts.
pub open spec fn pt_value_defined(maturity_ts: i64, expected_apy: u64, now: i64) -> bool {
    &&& fits_i64(maturity_ts - now)
    &&& expected_apy * seconds_left(maturity_ts, now) <= u64::MAX
    &&& pt_divisor(maturity_ts, expected_apy, now) <= u64::MAX
}

/// Value of a yield-token amount at `now`.
pub fn calculate_yt_token_value(yt_token_amount: u64, maturity_ts: i64, expected_apy: u64, now: i64) -> (r: u64)
    requires
        yt_value_defined(yt_token_amount, maturity_ts, expected_apy, now),
    ensures
        r == yt_value(yt_token_amount, maturity_ts, expected_apy, now),
{
    let time_remaining = seconds_until(maturity_ts, now);
    let total_tokens = yt_token_amount * expected_apy;
    total_tokens * time_remaining / SECONDS_PER_DAY
}

/// Value of a principal-token amount at `now`; never more than the amount itself.
pub fn calculate_pt_token_value(pt_token_amount: u64, maturity_ts: i64, expected_apy: u64, now: i64) -> (r: u64)
    requires
        pt_value_defined(maturity_ts, expected_apy, now),
    ensures
        r == pt_value(pt_token_amount, maturity_ts, expected_apy, now),
        r <= pt_token_amount,
{
    let time_remaining = seconds_until(maturity_ts, now);
    let mul = expected_apy * time_remaining / SECONDS_PER_DAY;
    let denominator = mul + 1;
    proof {
        lemma_pt_value_within_amount(pt_token_amount, maturity_ts, expected_apy, now);
    }
    pt_token_amount / denominator
}

/// Yield tokens lose value as maturity approaches: between two times before maturity, the
/// later valuation is no larger, and it is defined wherever the earlier one is.
pub proof fn lemma_yt_value_decreases_over_time(
    yt_token_amount: u64,
    maturity_ts: i64,
    expected_apy: u64,
    earlier: i64,
    later: i64,
)
    requires
        earlier <= later <= maturity_ts,
        yt_value_defined(yt_token_amount, maturity_ts, expected_apy, earlier),
    ensures
        yt_value_defined(yt_token_amount, maturity_ts, expected_apy, later),
        yt_value(yt_token_amount, maturity_ts, expected_apy, later) <= yt_value(
            yt_token_amount,
            maturity_ts,
            expected_apy,
            earlier,
        ),
{
    lemma_seconds_left_shrinks(maturity_ts, earlier, later);
    lemma_scaled_quotient_monotone(
        yt_token_amount * expected_apy,
        seconds_left(maturity_ts, later),
        seconds_left(maturity_ts, earlier),
        SECONDS_PER_DAY as int,
    );
}

/// Principal tokens gain value as maturity approaches: between two times before maturity, the
/// later valuation is no smaller, and it is defined wherever the earlier one is.
pub proof fn lemma_pt_value_increases_over_time(
    pt_token_amount: u64,
    maturity_ts: i64,
    expected_apy: u64,
    earlier: i64,
    later: i64,
)
    requires
        earlier <= later <= maturity_ts,
        pt_value_defined(maturity_ts, expected_apy, earlier),
    ensures
        pt_value_defined(maturity_ts, expected_apy, later),
        pt_value(pt_token_amount, maturity_ts, expected_apy, earlier) <= pt_value(
            pt_token_amount,
            maturity_ts,
            expected_apy,
            later,
        ),
{
    lemma_seconds_left_shrinks(maturity_ts, earlier, later);
    lemma_scaled_quotient_monotone(
        expected_apy as int,
        seconds_left(maturity_ts, later),
        seconds_left(maturity_ts, earlier),
        SECONDS_PER_DAY as int,
    );
    vstd::arithmetic::div_mod::lemma_div_is_ordered_by_denominator(
        pt_token_amount as int,
        pt_divisor(maturity_ts, expected_apy, later),
        pt_divisor(maturity_ts, expected_apy, earlier),
    );
}

/// At maturity principal tokens are worth their face amount.
pub proof fn lemma_pt_value_at_maturity(pt_token_amount: u64, maturity_ts: i64, expected_apy: u64)
    ensures
        pt_value_defined(maturity_ts, expected_apy, maturity_ts),
        pt_value(pt_token_amount, maturity_ts, expected_apy, maturity_ts) == pt_token_amount,
{
    assert(seconds_left(maturity_ts, maturity_ts) == 0);
    vstd::arithmetic::mul::lemma_mul_basics(expected_apy as int);
    assert(pt_divisor(maturity_ts, expected_apy, maturity_ts) == 1);
    vstd::arithmetic::div_mod::lemma_div_basics(pt_token_amount as int);
}

/// The principal-token value of an amount is never more than the amount: selling it can never
/// take more yield tokens than were minted alongside.
pub proof fn lemma_pt_value_within_amount(pt_token_amount: u64, maturity_ts: i64, expected_apy: u64, now: i64)
    requires
        pt_value_defined(maturity_ts, expected_apy, now),
    ensures
        0 <= pt_value(pt_token_amount, maturity_ts, expected_apy, now) <= pt_token_amount,
{
    vstd::arithmetic::div_mod::lemma_div_pos_is_pos(
        expected_apy * seconds_left(maturity_ts, now),
        SECONDS_PER_DAY as int,
    );
    vstd::arithmetic::div_mod::lemma_div_is_ordered_by_denominator(
        pt_token_amount as int,
        1,
        pt_divisor(maturity_ts, expected_apy, now),
    );
    vstd::arithmetic::div_mod::lemma_div_pos_is_pos(
        pt_token_amount as int,
        pt_divisor(maturity_ts, expected_apy, now),
    );
}

/// The yield-token value before maturity is the amount times the rate times the exact seconds
/// left, divided by the seconds of a day and rounded down once: `v * 86400` is at most that
/// product and `(v + 1) * 86400` exceeds it. Twelve hours left are worth half a day left, up to
/// that one rounding.
pub proof fn lemma_yt_value_rounds_once(yt_token_amount: u64, maturity_ts: i64, expected_apy: u64, now: i64)
    requires
        now <= maturity_ts,
    ensures
        yt_value(yt_token_amount, maturity_ts, expected_apy, now) * 86400 <= (yt_token_amount
            * expected_apy) * (maturity_ts - now),
        (yt_token_amount * expected_apy) * (maturity_ts - now) < (yt_value(
            yt_token_amount,
            maturity_ts,
            expected_apy,
            now,
        ) + 1) * 86400,
{
    lemma_seconds_left_shrinks(maturity_ts, now, now);
    let x = (yt_token_amount * expected_apy) * (maturity_ts - now);
    vstd::arithmetic::div_mod::lemma_fundamental_div_mod(x, 86400);
    vstd::arithmetic::div_mod::lemma_mod_bound(x, 86400);
}

/// The principal-token discount before maturity applies the rate to the exact seconds left and
/// divides by the seconds of a day once: the divisor `d` satisfies
/// `(d - 1) * 86400 <= rate * seconds_left < d * 86400`, and the value `p` is the amount divided
/// by `d`, rounded down: `p * d <= amount < (p + 1) * d`.
pub proof fn lemma_pt_value_rounds_once(pt_token_amount: u64, maturity_ts: i64, expected_apy: u64, now: i64)
    requires
        now <= maturity_ts,
    ensures
        (pt_divisor(maturity_ts, expected_apy, now) - 1) * 86400 <= expected_apy * (maturity_ts
            - now),
        expected_apy * (maturity_ts - now) < pt_divisor(maturity_ts, expected_apy, now) * 86400,
        pt_value(pt_token_amount, maturity_ts, expected_apy, now) * pt_divisor(
            maturity_ts,
            expected_apy,
            now,
        ) <= pt_token_amount,
        pt_token_amount < (pt_value(pt_token_amount, maturity_ts, expected_apy, now) + 1)
            * pt_divisor(maturity_ts, expected_apy, now),
{
    lemma_seconds_left_shrinks(maturity_ts, now, now);
    let x = expected_apy * (maturity_ts - now);
    vstd::arithmetic::mul::lemma_mul_nonnegative(expected_apy as int, maturity_ts - now);
    vstd::arithmetic::div_mod::lemma_fundamental_div_mod(x, 86400);
    vstd::arithmetic::div_mod::lemma_mod_bound(x, 86400);
    vstd::arithmetic::div_mod::lemma_div_pos_is_pos(x, 86400);
    let d = pt_divisor(maturity_ts, expected_apy, now);
    let p = pt_value(pt_token_amount, maturity_ts, expected_apy, now);
    vstd::arithmetic::div_mod::lemma_fundamental_div_mod(pt_token_amount as int, d);
    vstd::arithmetic::div_mod::lemma_mod_bound(pt_token_amount as int, d);
    vstd::arithmetic::mul::lemma_mul_is_commutative(d, p);
    vstd::arithmetic::mul::lemma_mul_is_distributive_add_other_way(d, p, 1);
}

} // verus!
