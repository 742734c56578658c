use vstd::prelude::*;

use crate::arith::fits_i64;
use crate::asset::Asset;
use crate::pubkey::Pubkey;

verus! {

/// Whether listing at `now` for `duration` seconds can be computed: the maturity time fits
/// `i64`. Elsewhere listing aborts.
pub open spec fn list_asset_fits(duration: i64, now: i64) -> bool {
    fits_i64(now + duration)
}

/// Whether a listing can be computed; the test that a caller makes before `list_asset_handler`.
pub fn list_asset_computable(duration: i64, now: i64) -> (b: bool)
    ensures
        b == list_asset_fits(duration, now),
{
    if duration >= 0 {
        now <= i64::MAX - duration
    } else {
        now >= i64::MIN - duration
    }
}

/// Lists a new asset of the underlying mint `token_mint` at `now`: it is active, holds no
/// tokens, matures `duration` seconds from `now`, and has no oracle set (all zero).
pub fn list_asset_handler(
    asset_name: String,
    pt_mint: Pubkey,
    yt_mint: Pubkey,
    expected_apy: u64,
    yield_index: u64,
    duration: i64,
    token_mint: Pubkey,
    bump: u8,
    now: i64,
) -> (r: Asset)
    requires
        list_asset_fits(duration, now),
    ensures
        r.name == asset_name,
        r.token_mint == token_mint,
        r.pt_mint == pt_mint,
        r.yt_mint == yt_mint,
        r.expected_apy == expected_apy,
        r.total_tokens == 0,
        r.is_active,
        r.oracle.is_zero(),
        r.duration == duration,
        r.yield_index == yield_index,
        r.maturity_ts == now + duration,
        r.bump == bump,
{
    Asset {
        name: asset_name,
        token_mint,
        pt_mint,
        yt_mint,
        total_tokens: 0,
        is_active: true,
        oracle: Pubkey::default(),
        yield_index,
        maturity_ts: now + duration,
        bump,
        expected_apy,
        duration,
    }
}

/// Listing can be computed exactly when the maturity time is a value of `i64`.
pub proof fn lemma_list_asset_fits_in_range(duration: i64, now: i64)
    ensures
        list_asset_fits(duration, now) <==> i64::MIN <= now + duration <= i64::MAX,
{
}

} // verus!
