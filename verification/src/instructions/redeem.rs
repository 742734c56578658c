use vstd::prelude::*;

use crate::asset::Asset;
use crate::cpi::{AccountRole, TokenInstruction};
use crate::errors::ErrorCode;

verus! {

/// The refusal, if any, of redeeming `amount` principal tokens at `now`: the amount must be
/// positive, the asset active and past maturity.
pub open spec fn redeem_check(asset: Asset, amount: u64, now: i64) -> Option<ErrorCode> {
    if amount == 0 {
        Some(ErrorCode::InvalidAmount)
    } else if !asset.is_active {
        Some(ErrorCode::Inactive)
    } else if now <= asset.maturity_ts {
        Some(ErrorCode::NotMatured)
    } else {
        None
    }
}

/// Whether a redemption that passes its checks can be computed: the asset holds at least
/// `amount` tokens. Elsewhere the redemption aborts.
pub open spec fn redeem_fits(asset: Asset, amount: u64, now: i64) -> bool {
    redeem_check(asset, amount, now) is None ==> amount <= asset.total_tokens
}

/// The token operations of a redemption: the registry burns `amount` of the user's principal
/// tokens and pays `amount` underlying tokens from the vault to the user.
pub open spec fn redeem_instructions(amount: u64) -> Seq<TokenInstruction> {
    seq![
        TokenInstruction::Burn {
            mint: AccountRole::PtMint,
            from: AccountRole::UserPtAccount,
            authority: AccountRole::Registry,
            amount,
        },
        TokenInstruction::Transfer {
            from: AccountRole::Vault,
            to: AccountRole::UserTokenAccount,
            authority: AccountRole::Registry,
            amount,
        },
    ]
}

/// The asset after a redemption of `amount`: it holds `amount` fewer underlying tokens.
pub open spec fn redeem_asset(asset: Asset, amount: u64) -> Asset {
    Asset { total_tokens: (asset.total_tokens - amount) as u64, ..asset }
}

/// Whether a redemption can be computed; the test that a caller makes before `redeem_handler`.
pub fn redeem_computable(asset: &Asset, amount: u64, now: i64) -> (b: bool)
    ensures
        b == redeem_fits(*asset, amount, now),
{
    amount == 0 || !asset.is_active || now <= asset.maturity_ts || amount <= asset.total_tokens
}

/// Exchanges `amount` principal tokens for underlying tokens after maturity. On success the
/// asset holds `amount` fewer tokens and the returned operations burn the principal tokens and
/// pay the user. On refusal nothing changes.
pub fn redeem_handler(asset: &mut Asset, amount: u64, now: i64) -> (r: Result<Vec<TokenInstruction>, ErrorCode>)
    requires
        redeem_fits(*old(asset), amount, now),
    ensures
        match r {
            Err(e) => {
                &&& redeem_check(*old(asset), amount, now) == Some(e)
                &&& *final(asset) == *old(asset)
            },
            Ok(ix) => {
                &&& redeem_check(*old(asset), amount, now) is None
                &&& *final(asset) == redeem_asset(*old(asset), amount)
                &&& ix@ == redeem_instructions(amount)
            },
        },
{
    if !(amount > 0) {
        return Err(ErrorCode::InvalidAmount);
    }
    if !asset.is_active {
        return Err(ErrorCode::Inactive);
    }
    if !(now > asset.maturity_ts) {
        return Err(ErrorCode::NotMatured);
    }
    let mut ix: Vec<TokenInstruction> = Vec::new();
    ix.push(
        TokenInstruction::Burn {
            mint: AccountRole::PtMint,
            from: AccountRole::UserPtAccount,
            authority: AccountRole::Registry,
            amount,
        },
    );
    ix.push(
        TokenInstruction::Transfer {
            from: AccountRole::Vault,
            to: AccountRole::UserTokenAccount,
            authority: AccountRole::Registry,
            amount,
        },
    );
    asset.total_tokens = asset.total_tokens - amount;
    Ok(ix)
}

/// A redemption is refused exactly for a zero amount, an inactive asset, or a time at or before
/// maturity, each with its own error; a positive amount on an active asset after maturity is
/// always accepted.
pub proof fn lemma_redeem_refusals(asset: Asset, amount: u64, now: i64)
    ensures
        amount > 0 && asset.is_active && now > asset.maturity_ts ==> redeem_check(asset, amount, now) is None,
        amount == 0 ==> redeem_check(asset, amount, now) == Some(ErrorCode::InvalidAmount),
        amount > 0 && !asset.is_active ==> redeem_check(asset, amount, now) == Some(ErrorCode::Inactive),
        amount > 0 && asset.is_active && now <= asset.maturity_ts ==> redeem_check(asset, amount, now)
            == Some(ErrorCode::NotMatured),
{
}

/// A redemption takes exactly the redeemed amount off the asset's total and changes nothing else.
pub proof fn lemma_redeem_removes_amount(asset: Asset, amount: u64)
    requires
        amount <= asset.total_tokens,
    ensures
        redeem_asset(asset, amount).total_tokens == asset.total_tokens - amount,
        redeem_asset(asset, amount).maturity_ts == asset.maturity_ts,
        redeem_asset(asset, amount).is_active == asset.is_active,
        redeem_asset(asset, amount).expected_apy == asset.expected_apy,
        redeem_asset(asset, amount).duration == asset.duration,
{
}

/// Every redemption of at most what the asset holds can be computed.
pub proof fn lemma_redeem_fits_within_holdings(asset: Asset, amount: u64, now: i64)
    requires
        amount <= asset.total_tokens,
    ensures
        redeem_fits(asset, amount, now),
{
}

} // verus!
