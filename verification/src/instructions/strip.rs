use vstd::prelude::*;

use crate::asset::Asset;
use crate::cpi::{AccountRole, TokenInstruction};
use crate::errors::ErrorCode;
use crate::pubkey::Pubkey;
use crate::user_yt_position::UserYtPosition;

verus! {

/// The refusal, if any, of stripping `amount` underlying tokens at `now`: the amount must be
/// positive, the asset active and not yet at maturity.
pub open spec fn strip_check(asset: Asset, amount: u64, now: i64) -> Option<ErrorCode> {
    if amount == 0 {
        Some(ErrorCode::InvalidAmount)
    } else if !asset.is_active {
        Some(ErrorCode::Inactive)
    } else if now >= asset.maturity_ts {
        Some(ErrorCode::Expired)
    } else {
        None
    }
}

/// Whether a strip that passes its checks can be computed: the new totals of the asset and
/// the position fit `u64`. Elsewhere the strip aborts.
pub open spec fn strip_fits(asset: Asset, position: UserYtPosition, amount: u64, now: i64) -> bool {
    strip_check(asset, amount, now) is None ==> {
        &&& asset.total_tokens + amount <= u64::MAX
        &&& position.total_yt_tokens + amount <= u64::MAX
    }
}

/// The token operations of a strip: the user deposits `amount` underlying tokens in the vault,
/// and the registry mints `amount` principal tokens and `amount` yield tokens to the user.
pub open spec fn strip_instructions(amount: u64) -> Seq<TokenInstruction> {
    seq![
        TokenInstruction::Transfer {
            from: AccountRole::UserTokenAccount,
            to: AccountRole::Vault,
            authority: AccountRole::User,
            amount,
        },
        TokenInstruction::MintTo {
            mint: AccountRole::PtMint,
            to: AccountRole::UserPtAccount,
            authority: AccountRole::Registry,
            amount,
        },
        TokenInstruction::MintTo {
            mint: AccountRole::YtMint,
            to: AccountRole::UserYtAccount,
            authority: AccountRole::Registry,
            amount,
        },
    ]
}

/// The asset after a strip of `amount`: it holds `amount` more underlying tokens.
pub open spec fn strip_asset(asset: Asset, amount: u64) -> Asset {
    Asset { total_tokens: (asset.total_tokens + amount) as u64, ..asset }
}

/// The position after `user` strips `amount` at `now`: it belongs to `user`, holds `amount`
/// more yield tokens, keeps its accrued yield and is settled up to `now`.
pub open spec fn strip_position(position: UserYtPosition, user: Pubkey, bump: u8, amount: u64, now: i64) -> UserYtPosition {
    UserYtPosition {
        user,
        total_yt_tokens: (position.total_yt_tokens + amount) as u64,
        accrued_yield: position.accrued_yield,
        last_update_ts: now,
        bump,
    }
}

/// Whether a strip can be computed; the test that a caller makes before `strip_handler`.
pub fn strip_computable(asset: &Asset, position: &UserYtPosition, amount: u64, now: i64) -> (b: bool)
    ensures
        b == strip_fits(*asset, *position, amount, now),
{
    if amount == 0 || !asset.is_active || now >= asset.maturity_ts {
        true
    } else {
        amount <= u64::MAX - asset.total_tokens && amount <= u64::MAX - position.total_yt_tokens
    }
}

/// Splits `amount` underlying tokens into principal and yield tokens. On success the asset
/// holds `amount` more tokens, the position belongs to `user`, holds `amount` more yield
/// tokens and is settled up to `now`, and the returned operations move the deposit and mint
/// both tokens. On refusal nothing changes.
pub fn strip_handler(
    asset: &mut Asset,
    position: &mut UserYtPosition,
    user: Pubkey,
    bump: u8,
    amount: u64,
    now: i64,
) -> (r: Result<Vec<TokenInstruction>, ErrorCode>)
    requires
        strip_fits(*old(asset), *old(position), amount, now),
    ensures
        match r {
            Err(e) => {
                &&& strip_check(*old(asset), amount, now) == Some(e)
                &&& *final(asset) == *old(asset)
                &&& *final(position) == *old(position)
            },
            Ok(ix) => {
                &&& strip_check(*old(asset), amount, now) is None
                &&& *final(asset) == strip_asset(*old(asset), amount)
                &&& *final(position) == strip_position(*old(position), user, bump, amount, now)
                &&& ix@ == strip_instructions(amount)
            },
        },
{
    if !(amount > 0) {
        return Err(ErrorCode::InvalidAmount);
    }
    if !asset.is_active {
        return Err(ErrorCode::Inactive);
    }
    if !(now < asset.maturity_ts) {
        return Err(ErrorCode::Expired);
    }
    let mut ix: Vec<TokenInstruction> = Vec::new();
    ix.push(
        TokenInstruction::Transfer {
            from: AccountRole::UserTokenAccount,
            to: AccountRole::Vault,
            authority: AccountRole::User,
            amount,
        },
    );
    ix.push(
        TokenInstruction::MintTo {
            mint: AccountRole::PtMint,
            to: AccountRole::UserPtAccount,
            authority: AccountRole::Registry,
            amount,
        },
    );
    ix.push(
        TokenInstruction::MintTo {
            mint: AccountRole::YtMint,
            to: AccountRole::UserYtAccount,
            authority: AccountRole::Registry,
            amount,
        },
    );

    position.user = user;
    position.total_yt_tokens = position.total_yt_tokens + amount;
    position.last_update_ts = now;
    position.bump = bump;

    asset.total_tokens = asset.total_tokens + amount;
    Ok(ix)
}

/// A strip is refused exactly for a zero amount, an inactive asset, or a time at or after
/// maturity, each with its own error; a positive amount on an active asset before maturity is
/// always accepted, whatever the asset already holds.
pub proof fn lemma_strip_refusals(asset: Asset, amount: u64, now: i64)
    ensures
        amount > 0 && asset.is_active && now < asset.maturity_ts ==> strip_check(asset, amount, now) is None,
        amount == 0 ==> strip_check(asset, amount, now) == Some(ErrorCode::InvalidAmount),
        amount > 0 && !asset.is_active ==> strip_check(asset, amount, now) == Some(ErrorCode::Inactive),
        amount > 0 && asset.is_active && now >= asset.maturity_ts ==> strip_check(asset, amount, now)
            == Some(ErrorCode::Expired),
{
}

/// A strip adds exactly the deposit to the asset's total and to the position's yield tokens,
/// settles the position at `now` under `user`, and keeps its accrued yield and every other field
/// of the asset.
pub proof fn lemma_strip_records_deposit(
    asset: Asset,
    position: UserYtPosition,
    user: Pubkey,
    bump: u8,
    amount: u64,
    now: i64,
)
    requires
        asset.total_tokens + amount <= u64::MAX,
        position.total_yt_tokens + amount <= u64::MAX,
    ensures
        strip_asset(asset, amount).total_tokens == asset.total_tokens + amount,
        strip_asset(asset, amount).maturity_ts == asset.maturity_ts,
        strip_asset(asset, amount).is_active == asset.is_active,
        strip_asset(asset, amount).expected_apy == asset.expected_apy,
        strip_asset(asset, amount).duration == asset.duration,
        strip_position(position, user, bump, amount, now).total_yt_tokens == position.total_yt_tokens
            + amount,
        strip_position(position, user, bump, amount, now).accrued_yield == position.accrued_yield,
        strip_position(position, user, bump, amount, now).last_update_ts == now,
        strip_position(position, user, bump, amount, now).user == user,
{
}

/// Every strip whose new totals fit `u64` can be computed.
pub proof fn lemma_strip_fits_without_overflow(asset: Asset, position: UserYtPosition, amount: u64, now: i64)
    requires
        asset.total_tokens + amount <= u64::MAX,
        position.total_yt_tokens + amount <= u64::MAX,
    ensures
        strip_fits(asset, position, amount, now),
{
}

} // verus!
