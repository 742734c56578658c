use vstd::prelude::*;

use crate::arith::{
    fits_i64, i64_as_u64, i64_sub_fits, u64_mul_fits, lemma_scaled_quotient_monotone, lemma_seconds_left_shrinks,
    reinterpret_as_u64, seconds_left, seconds_until,
};
use crate::asset::Asset;
use crate::cpi::{vault_net_inflow, AccountRole, TokenInstruction};
use crate::errors::ErrorCode;
use crate::user_yt_position::UserYtPosition;

verus! {

/// The refusal, if any, of a yield claim at `now`: the asset must be active and the clock must
/// have moved past the position's last settlement.
pub open spec fn claim_yield_check(asset: Asset, position: UserYtPosition, now: i64) -> Option<ErrorCode> {
    if !asset.is_active {
        Some(ErrorCode::Inactive)
    } else if now <= position.last_update_ts {
        Some(ErrorCode::InvalidTimestamp)
    } else {
        None
    }
}

/// The yield weight of a position: its yield tokens times the asset's expected rate.
pub open spec fn yield_weight(asset: Asset, position: UserYtPosition) -> int {
    position.total_yt_tokens * asset.expected_apy
}

/// The divisor that spreads yield over the asset's life: its duration read as a `u64`.
pub open spec fn yield_divisor(duration: i64) -> int {
    reinterpret_as_u64(duration as int)
}

/// The yield still to come at time `t` for a weight `weight`: the weight times the seconds left
/// until maturity, divided by the divisor (rounded down).
pub open spec fn remaining_yield(weight: int, maturity_ts: i64, t: i64, divisor: int) -> int {
    weight * seconds_left(maturity_ts, t) / divisor
}

/// The yield a position earns from its last settlement `last` until `now`: what remained at
/// `last` less what remains at `now`; once maturity is reached, all that remained at `last`.
pub open spec fn earned_between(weight: int, maturity_ts: i64, divisor: int, last: i64, now: i64) -> int {
    if now >= maturity_ts {
        remaining_yield(weight, maturity_ts, last, divisor)
    } else {
        remaining_yield(weight, maturity_ts, last, divisor) - remaining_yield(weight, maturity_ts, now, divisor)
    }
}

/// The yield that a claim at `now` settles on the position.
pub open spec fn claim_earned(asset: Asset, position: UserYtPosition, now: i64) -> int {
    earned_between(
        yield_weight(asset, position),
        asset.maturity_ts,
        yield_divisor(asset.duration),
        position.last_update_ts,
        now,
    )
}

/// Whether a claim that passes its checks can be computed: every difference fits `i64`, every
/// product and the new accrued balance fit `u64`, and the duration is not zero. Elsewhere the
/// claim aborts.
pub open spec fn claim_yield_fits(asset: Asset, position: UserYtPosition, now: i64) -> bool {
    let weight = yield_weight(asset, position);
    let m = asset.maturity_ts;
    let last = position.last_update_ts;
    claim_yield_check(asset, position, now) is None ==> {
        &&& fits_i64(m - last)
        &&& weight <= u64::MAX
        &&& weight * seconds_left(m, last) <= u64::MAX
        &&& asset.duration != 0
        &&& now < m ==> fits_i64(m - now) && weight * seconds_left(m, now) <= u64::MAX
        &&& position.accrued_yield + claim_earned(asset, position, now) <= u64::MAX
    }
}

/// The position after a claim at `now`: nothing accrued, settled up to `now`.
pub open spec fn claimed_position(position: UserYtPosition, now: i64) -> UserYtPosition {
    UserYtPosition { accrued_yield: 0, last_update_ts: now, ..position }
}

/// The payout of a claim: one transfer of `amount` from the vault to the user, signed by the
/// registry, when `amount` is positive, and nothing otherwise.
pub open spec fn claim_payout(amount: int) -> Seq<TokenInstruction> {
    if amount > 0 {
        seq![
            TokenInstruction::Transfer {
                from: AccountRole::Vault,
                to: AccountRole::UserTokenAccount,
                authority: AccountRole::Registry,
                amount: amount as u64,
            },
        ]
    } else {
        seq![]
    }
}

/// Before maturity the yield still to come never grows, so what a claim earns is never negative.
pub proof fn lemma_remaining_yield_shrinks(weight: int, maturity_ts: i64, divisor: int, earlier: i64, later: i64)
    requires
        0 <= weight,
        0 < divisor,
        earlier <= later <= maturity_ts,
    ensures
        0 <= remaining_yield(weight, maturity_ts, later, divisor) <= remaining_yield(
            weight,
            maturity_ts,
            earlier,
            divisor,
        ),
{
    lemma_seconds_left_shrinks(maturity_ts, earlier, later);
    lemma_scaled_quotient_monotone(
        weight,
        seconds_left(maturity_ts, later),
        seconds_left(maturity_ts, earlier),
        divisor,
    );
}

/// Whether a claim can be computed; the test that a caller makes before `claim_yield_handler`.
pub fn claim_yield_computable(asset: &Asset, position: &UserYtPosition, now: i64) -> (b: bool)
    ensures
        b == claim_yield_fits(*asset, *position, now),
{
    if !asset.is_active || now <= position.last_update_ts {
        return true;
    }
    let maturity_ts = asset.maturity_ts;
    let last_update_ts = position.last_update_ts;
    if !i64_sub_fits(maturity_ts, last_update_ts) {
        return false;
    }
    if !u64_mul_fits(position.total_yt_tokens, asset.expected_apy) {
        return false;
    }
    let total_tokens = position.total_yt_tokens * asset.expected_apy;
    let time_remaining_last = seconds_until(maturity_ts, last_update_ts);
    if !u64_mul_fits(total_tokens, time_remaining_last) {
        return false;
    }
    if asset.duration == 0 {
        return false;
    }
    let divisor = i64_as_u64(asset.duration);
    let value_last = total_tokens * time_remaining_last / divisor;
    let earned: u64 = if now >= maturity_ts {
        value_last
    } else {
        if !i64_sub_fits(maturity_ts, now) {
            return false;
        }
        let time_remaining_now = seconds_until(maturity_ts, now);
        if !u64_mul_fits(total_tokens, time_remaining_now) {
            return false;
        }
        let value_now = total_tokens * time_remaining_now / divisor;
        proof {
            lemma_remaining_yield_shrinks(total_tokens as int, maturity_ts, divisor as int, last_update_ts, now);
        }
        value_last - value_now
    };
    earned <= u64::MAX - position.accrued_yield
}

/// Settles the yield a position has earned since its last settlement and pays out everything
/// accrued. On success the position's accrued balance is zero and it is settled up to `now`;
/// the returned operation pays the accrued balance plus the newly earned yield, if positive.
/// On refusal nothing changes.
pub fn claim_yield_handler(asset: &Asset, position: &mut UserYtPosition, now: i64) -> (r: Result<
    Vec<TokenInstruction>,
    ErrorCode,
>)
    requires
        claim_yield_fits(*asset, *old(position), now),
    ensures
        match r {
            Err(e) => {
                &&& claim_yield_check(*asset, *old(position), now) == Some(e)
                &&& *final(position) == *old(position)
            },
            Ok(ix) => {
                &&& claim_yield_check(*asset, *old(position), now) is None
                &&& *final(position) == claimed_position(*old(position), now)
                &&& ix@ == claim_payout(
                    old(position).accrued_yield + claim_earned(*asset, *old(position), now),
                )
            },
        },
{
    let maturity_ts = asset.maturity_ts;
    let expected_apy = asset.expected_apy;
    let yt_token_amount = position.total_yt_tokens;

    if !asset.is_active {
        return Err(ErrorCode::Inactive);
    }
    let last_update_ts = position.last_update_ts;
    if !(now > last_update_ts) {
        return Err(ErrorCode::InvalidTimestamp);
    }

    let divisor = i64_as_u64(asset.duration);
    let total_tokens = yt_token_amount * expected_apy;
    let time_remaining_last = seconds_until(maturity_ts, last_update_ts);
    let value_last = total_tokens * time_remaining_last / divisor;
    let earned: u64 = if now >= maturity_ts {
        value_last
    } else {
        let time_remaining_now = seconds_until(maturity_ts, now);
        let value_now = total_tokens * time_remaining_now / divisor;
        proof {
            lemma_remaining_yield_shrinks(total_tokens as int, maturity_ts, divisor as int, last_update_ts, now);
        }
        value_last - value_now
    };
    position.accrued_yield = position.accrued_yield + earned;

    let mut ix: Vec<TokenInstruction> = Vec::new();
    if position.accrued_yield > 0 {
        ix.push(
            TokenInstruction::Transfer {
                from: AccountRole::Vault,
                to: AccountRole::UserTokenAccount,
                authority: AccountRole::Registry,
                amount: position.accrued_yield,
            },
        );
    }
    position.last_update_ts = now;
    position.accrued_yield = 0;
    Ok(ix)
}

/// Yield settled over consecutive periods adds up: earning from `last` to `mid` and then
/// from `mid` to `now` gives exactly what one period from `last` to `now` gives, as long as
/// `mid` comes before maturity.
pub proof fn lemma_earned_adds_up(weight: int, maturity_ts: i64, divisor: int, last: i64, mid: i64, now: i64)
    requires
        last < mid < now,
        mid < maturity_ts,
    ensures
        earned_between(weight, maturity_ts, divisor, last, mid) + earned_between(
            weight,
            maturity_ts,
            divisor,
            mid,
            now,
        ) == earned_between(weight, maturity_ts, divisor, last, now),
{
}

/// What a position earns between `last` and `now` is never negative and never more than the
/// yield still to come at `last`; once maturity is reached it is exactly that yield.
pub proof fn lemma_earned_within_remaining(weight: int, maturity_ts: i64, divisor: int, last: i64, now: i64)
    requires
        0 <= weight,
        0 < divisor,
        last <= now,
        last <= maturity_ts,
    ensures
        0 <= earned_between(weight, maturity_ts, divisor, last, now) <= remaining_yield(
            weight,
            maturity_ts,
            last,
            divisor,
        ),
        now >= maturity_ts ==> earned_between(weight, maturity_ts, divisor, last, now)
            == remaining_yield(weight, maturity_ts, last, divisor),
{
    if now >= maturity_ts {
        lemma_remaining_yield_shrinks(weight, maturity_ts, divisor, last, last);
    } else {
        lemma_remaining_yield_shrinks(weight, maturity_ts, divisor, last, now);
    }
}

/// The yield earned over a series of settlement times: the sum of what each consecutive pair
/// of times earns.
pub open spec fn earned_over(weight: int, maturity_ts: i64, divisor: int, times: Seq<i64>) -> int
    decreases times.len(),
{
    if times.len() < 2 {
        0
    } else {
        earned_over(weight, maturity_ts, divisor, times.drop_last()) + earned_between(
            weight,
            maturity_ts,
            divisor,
            times[times.len() - 2],
            times[times.len() - 1],
        )
    }
}

/// Claiming at many times pays in total exactly what one claim at the last time would: for
/// strictly increasing settlement times of which all but the last come before maturity, the
/// earnings of the consecutive periods add up to the earnings from the first time to the last.
pub proof fn lemma_claims_telescope(weight: int, maturity_ts: i64, divisor: int, times: Seq<i64>)
    requires
        times.len() >= 2,
        forall|i: int, j: int| 0 <= i < j < times.len() ==> times[i] < times[j],
        forall|i: int| 0 <= i < times.len() - 1 ==> times[i] < maturity_ts,
    ensures
        earned_over(weight, maturity_ts, divisor, times) == earned_between(
            weight,
            maturity_ts,
            divisor,
            times[0],
            times[times.len() - 1],
        ),
    decreases times.len(),
{
    let prefix = times.drop_last();
    if times.len() == 2 {
        assert(earned_over(weight, maturity_ts, divisor, prefix) == 0);
    } else {
        lemma_claims_telescope(weight, maturity_ts, divisor, prefix);
        assert(prefix[0] == times[0]);
        assert(prefix[prefix.len() - 1] == times[times.len() - 2]);
        lemma_earned_adds_up(
            weight,
            maturity_ts,
            divisor,
            times[0],
            times[times.len() - 2],
            times[times.len() - 1],
        );
    }
}

/// Two successive claims pay out together exactly what one claim at the later time would: the
/// first pays the accrued balance and the yield up to `first`, the second (from the settled
/// position) the yield from `first` to `second`.
pub proof fn lemma_two_claims_pay_as_one(asset: Asset, position: UserYtPosition, first: i64, second: i64)
    requires
        position.last_update_ts < first < second,
        first < asset.maturity_ts,
    ensures
        (position.accrued_yield + claim_earned(asset, position, first)) + (claimed_position(
            position,
            first,
        ).accrued_yield + claim_earned(asset, claimed_position(position, first), second))
            == position.accrued_yield + claim_earned(asset, position, second),
{
    lemma_earned_adds_up(
        yield_weight(asset, position),
        asset.maturity_ts,
        yield_divisor(asset.duration),
        position.last_update_ts,
        first,
        second,
    );
}

/// A position can be claimed at most once at any instant: after a claim at `now`, another
/// claim at `now` or earlier is refused because the clock has not moved.
pub proof fn lemma_claim_once_per_instant(asset: Asset, position: UserYtPosition, now: i64, again: i64)
    requires
        claim_yield_check(asset, position, now) is None,
        again <= now,
    ensures
        claim_yield_check(asset, claimed_position(position, now), again) == Some(ErrorCode::InvalidTimestamp),
{
}

/// A claim is refused exactly for an inactive asset or a clock that has not moved past the last
/// settlement, each with its own error; otherwise it is accepted.
pub proof fn lemma_claim_yield_refusals(asset: Asset, position: UserYtPosition, now: i64)
    ensures
        asset.is_active && now > position.last_update_ts ==> claim_yield_check(asset, position, now) is None,
        !asset.is_active ==> claim_yield_check(asset, position, now) == Some(ErrorCode::Inactive),
        asset.is_active && now <= position.last_update_ts ==> claim_yield_check(asset, position, now)
            == Some(ErrorCode::InvalidTimestamp),
{
}

/// Once maturity is reached, a claim settles the position's yield tokens times the rate times
/// the seconds from its last settlement to maturity, divided by the duration (rounded down);
/// nothing else about the asset, such as what it still holds, enters.
pub proof fn lemma_claim_after_maturity(asset: Asset, position: UserYtPosition, now: i64)
    requires
        asset.duration > 0,
        position.last_update_ts <= asset.maturity_ts <= now,
    ensures
        claim_earned(asset, position, now) == (position.total_yt_tokens * asset.expected_apy) * (
        asset.maturity_ts - position.last_update_ts) / (asset.duration as int),
{
    lemma_seconds_left_shrinks(asset.maturity_ts, position.last_update_ts, position.last_update_ts);
}

/// Before maturity, a claim settles the position's yield tokens times the rate times the seconds
/// left at its last settlement, divided by the duration, less the same with the seconds left
/// now (each rounded down); nothing else about the asset, such as what it still holds, enters.
pub proof fn lemma_claim_before_maturity(asset: Asset, position: UserYtPosition, now: i64)
    requires
        asset.duration > 0,
        position.last_update_ts <= now < asset.maturity_ts,
    ensures
        claim_earned(asset, position, now) == (position.total_yt_tokens * asset.expected_apy) * (
        asset.maturity_ts - position.last_update_ts) / (asset.duration as int) - (
        position.total_yt_tokens * asset.expected_apy) * (asset.maturity_ts - now) / (
        asset.duration as int),
{
    lemma_seconds_left_shrinks(asset.maturity_ts, position.last_update_ts, now);
    lemma_seconds_left_shrinks(asset.maturity_ts, now, now);
}

/// A claim pays out, in one transfer from the vault, exactly the amount it is given when that is
/// positive, and moves nothing otherwise.
pub proof fn lemma_claim_payout_pays_amount(amount: u64)
    ensures
        vault_net_inflow(claim_payout(amount as int)) == -(amount as int),
        amount == 0 ==> claim_payout(amount as int).len() == 0,
        amount > 0 ==> claim_payout(amount as int).len() == 1,
{
    reveal_with_fuel(vault_net_inflow, 2);
    if amount > 0 {
        assert(claim_payout(amount as int).drop_last() =~= Seq::empty());
    }
}

/// A claim can be computed whenever the duration is positive, the last settlement is not after
/// maturity with the seconds between them fitting `i64`, the position's yield tokens times the
/// rate times those seconds fits `u64`, and the accrued balance plus that product divided by the
/// duration fits `u64`.
pub proof fn lemma_claim_fits_without_overflow(asset: Asset, position: UserYtPosition, now: i64)
    requires
        asset.duration > 0,
        position.last_update_ts <= asset.maturity_ts,
        asset.maturity_ts - position.last_update_ts <= i64::MAX,
        position.total_yt_tokens * asset.expected_apy <= u64::MAX,
        (position.total_yt_tokens * asset.expected_apy) * (asset.maturity_ts - position.last_update_ts)
            <= u64::MAX,
        position.accrued_yield + (position.total_yt_tokens * asset.expected_apy) * (asset.maturity_ts
            - position.last_update_ts) / (asset.duration as int) <= u64::MAX,
    ensures
        claim_yield_fits(asset, position, now),
{
    let w = yield_weight(asset, position);
    let m = asset.maturity_ts;
    let last = position.last_update_ts;
    vstd::arithmetic::mul::lemma_mul_nonnegative(position.total_yt_tokens as int, asset.expected_apy as int);
    if claim_yield_check(asset, position, now) is None {
        lemma_seconds_left_shrinks(m, last, last);
        lemma_earned_within_remaining(w, m, yield_divisor(asset.duration), last, now);
        if now < m {
            lemma_seconds_left_shrinks(m, last, now);
            lemma_scaled_quotient_monotone(w, seconds_left(m, now), seconds_left(m, last), 1);
            vstd::arithmetic::div_mod::lemma_div_basics(w * seconds_left(m, now));
            vstd::arithmetic::div_mod::lemma_div_basics(w * seconds_left(m, last));
        }
    }
}

} // verus!
