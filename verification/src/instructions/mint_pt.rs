use vstd::prelude::*;

use crate::arith::{i64_sub_fits, seconds_until, u64_mul_fits};
use crate::asset::Asset;
use crate::cpi::{AccountRole, TokenInstruction};
use crate::errors::ErrorCode;
use crate::utils::token_value::{calculate_pt_token_value, pt_value, pt_value_defined, SECONDS_PER_DAY};

verus! {

/// The refusal, if any, of minting against `amount` underlying tokens at `now`: the amount
/// must be positive, the asset active and not yet at maturity.
pub open spec fn mint_pt_check(asset: Asset, amount: u64, now: i64) -> Option<ErrorCode> {
    if amount == 0 {
        Some(ErrorCode::InvalidAmount)
    } else if !asset.is_active {
        Some(ErrorCode::Inactive)
    } else if now >= asset.maturity_ts {
        Some(ErrorCode::Expired)
    } else {
        None
    }
}

/// Whether a mint that passes its checks can be computed: the principal-token valuation at
/// `now` is defined. Elsewhere the mint aborts.
pub open spec fn mint_pt_fits(asset: Asset, amount: u64, now: i64) -> bool {
    mint_pt_check(asset, amount, now) is None ==> pt_value_defined(asset.maturity_ts, asset.expected_apy, now)
}

/// The token operations of a mint: the user deposits `amount` underlying tokens in the vault,
/// the registry mints `amount` yield tokens to the user's escrow and `amount` principal tokens
/// to the user, and `swap_amount` of the escrowed yield tokens are sold to the pool.
pub open spec fn mint_pt_instructions(amount: u64, swap_amount: u64) -> Seq<TokenInstruction> {
    seq![
        TokenInstruction::Transfer {
            from: AccountRole::UserTokenAccount,
            to: AccountRole::Vault,
            authority: AccountRole::User,
            amount,
        },
        TokenInstruction::MintTo {
            mint: AccountRole::YtMint,
            to: AccountRole::YtEscrow,
            authority: AccountRole::Registry,
            amount,
        },
        TokenInstruction::MintTo {
            mint: AccountRole::PtMint,
            to: AccountRole::UserPtAccount,
            authority: AccountRole::Registry,
            amount,
        },
        TokenInstruction::Swap { amount: swap_amount, a_to_b: true },
    ]
}

/// Whether a mint can be computed; the test that a caller makes before `mint_pt_handler`.
pub fn mint_pt_computable(asset: &Asset, amount: u64, now: i64) -> (b: bool)
    ensures
        b == mint_pt_fits(*asset, amount, now),
{
    if amount == 0 || !asset.is_active || now >= asset.maturity_ts {
        return true;
    }
    if !i64_sub_fits(asset.maturity_ts, now) {
        return false;
    }
    let time_remaining = seconds_until(asset.maturity_ts, now);
    if !u64_mul_fits(asset.expected_apy, time_remaining) {
        return false;
    }
    let mul = asset.expected_apy * time_remaining / SECONDS_PER_DAY;
    mul < u64::MAX
}

/// Mints principal tokens against `amount` underlying tokens and sells the matching yield
/// tokens to the pool. Nothing in the protocol's state changes; on success the returned
/// operations take the deposit, mint both tokens and swap the principal-token value of
/// `amount` at `now`. On refusal no operation is asked for.
pub fn mint_pt_handler(asset: &Asset, amount: u64, now: i64) -> (r: Result<Vec<TokenInstruction>, ErrorCode>)
    requires
        mint_pt_fits(*asset, amount, now),
    ensures
        match r {
            Err(e) => mint_pt_check(*asset, amount, now) == Some(e),
            Ok(ix) => {
                &&& mint_pt_check(*asset, amount, now) is None
                &&& ix@ == mint_pt_instructions(
                    amount,
                    pt_value(amount, asset.maturity_ts, asset.expected_apy, now) as u64,
                )
            },
        },
{
    if !(amount > 0) {
        return Err(ErrorCode::InvalidAmount);
    }
    if !asset.is_active {
        return Err(ErrorCode::Inactive);
    }
    if !(now < asset.maturity_ts) {
        return Err(ErrorCode::Expired);
    }
    let mut ix: Vec<TokenInstruction> = Vec::new();
    ix.push(
        TokenInstruction::Transfer {
            from: AccountRole::UserTokenAccount,
            to: AccountRole::Vault,
            authority: AccountRole::User,
            amount,
        },
    );
    ix.push(
        TokenInstruction::MintTo {
            mint: AccountRole::YtMint,
            to: AccountRole::YtEscrow,
            authority: AccountRole::Registry,
            amount,
        },
    );
    ix.push(
        TokenInstruction::MintTo {
            mint: AccountRole::PtMint,
            to: AccountRole::UserPtAccount,
            authority: AccountRole::Registry,
            amount,
        },
    );
    let swap_amount = calculate_pt_token_value(amount, asset.maturity_ts, asset.expected_apy, now);
    ix.push(TokenInstruction::Swap { amount: swap_amount, a_to_b: true });
    Ok(ix)
}

/// A mint is refused exactly for a zero amount, an inactive asset, or a time at or after
/// maturity, each with its own error; a positive amount on an active asset before maturity is
/// always accepted, whatever the asset holds.
pub proof fn lemma_mint_pt_refusals(asset: Asset, amount: u64, now: i64)
    ensures
        amount > 0 && asset.is_active && now < asset.maturity_ts ==> mint_pt_check(asset, amount, now) is None,
        amount == 0 ==> mint_pt_check(asset, amount, now) == Some(ErrorCode::InvalidAmount),
        amount > 0 && !asset.is_active ==> mint_pt_check(asset, amount, now) == Some(ErrorCode::Inactive),
        amount > 0 && asset.is_active && now >= asset.maturity_ts ==> mint_pt_check(asset, amount, now)
            == Some(ErrorCode::Expired),
{
}

/// A mint before maturity can be computed whenever the seconds left fit `i64` and the rate
/// times the seconds left fits `u64`.
pub proof fn lemma_mint_pt_fits_without_overflow(asset: Asset, amount: u64, now: i64)
    requires
        now < asset.maturity_ts,
        asset.maturity_ts - now <= i64::MAX,
        asset.expected_apy * (asset.maturity_ts - now) <= u64::MAX,
    ensures
        mint_pt_fits(asset, amount, now),
{
    crate::arith::lemma_seconds_left_reading(asset.maturity_ts, now);
    let x = asset.expected_apy * (asset.maturity_ts - now);
    vstd::arithmetic::mul::lemma_mul_nonnegative(asset.expected_apy as int, asset.maturity_ts - now);
    vstd::arithmetic::div_mod::lemma_div_is_ordered(x, u64::MAX as int, 86400);
}

} // verus!
