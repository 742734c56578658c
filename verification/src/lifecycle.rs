use vstd::prelude::*;

use crate::asset::Asset;
use crate::cpi::{supply_change, vault_net_inflow, AccountRole};
use crate::instructions::mint_pt::mint_pt_check;
use crate::instructions::redeem::{redeem_asset, redeem_check, redeem_fits, redeem_instructions};
use crate::instructions::strip::{strip_asset, strip_check, strip_instructions};

verus! {

/// Stripping (and minting) is open only before maturity and redemption only after it: at no
/// time are both accepted for the same asset.
pub proof fn lemma_strip_and_redeem_never_both_open(asset: Asset, strip_amount: u64, redeem_amount: u64, now: i64)
    ensures
        !(strip_check(asset, strip_amount, now) is None && redeem_check(asset, redeem_amount, now) is None),
        !(mint_pt_check(asset, strip_amount, now) is None && redeem_check(asset, redeem_amount, now) is None),
{
}

/// Redeeming what was stripped returns the asset to where it was.
pub proof fn lemma_strip_then_redeem_restores(asset: Asset, amount: u64)
    requires
        asset.total_tokens + amount <= u64::MAX,
    ensures
        redeem_asset(strip_asset(asset, amount), amount) == asset,
{
}

/// Every accepted strip can be redeemed in full by any redemption after maturity.
pub proof fn lemma_stripped_deposit_redeemable(asset: Asset, amount: u64, strip_now: i64, redeem_now: i64)
    requires
        strip_check(asset, amount, strip_now) is None,
        asset.total_tokens + amount <= u64::MAX,
        redeem_now > asset.maturity_ts,
    ensures
        redeem_check(strip_asset(asset, amount), amount, redeem_now) is None,
        redeem_fits(strip_asset(asset, amount), amount, redeem_now),
{
}

/// A strip moves exactly the deposit into the vault, records exactly that much in the asset,
/// and mints as many principal tokens as yield tokens, both equal to the deposit.
pub proof fn lemma_strip_accounting(asset: Asset, amount: u64)
    requires
        asset.total_tokens + amount <= u64::MAX,
    ensures
        vault_net_inflow(strip_instructions(amount)) == strip_asset(asset, amount).total_tokens
            - asset.total_tokens,
        vault_net_inflow(strip_instructions(amount)) == amount,
        supply_change(strip_instructions(amount), AccountRole::PtMint) == amount,
        supply_change(strip_instructions(amount), AccountRole::YtMint) == amount,
{
    let ops = strip_instructions(amount);
    assert(ops.drop_last().drop_last().drop_last() =~= Seq::empty());
    reveal_with_fuel(vault_net_inflow, 4);
    reveal_with_fuel(supply_change, 4);
}

/// A redemption pays exactly the redeemed amount out of the vault, takes exactly that much off
/// the asset, and burns that many principal tokens.
pub proof fn lemma_redeem_accounting(asset: Asset, amount: u64)
    requires
        amount <= asset.total_tokens,
    ensures
        vault_net_inflow(redeem_instructions(amount)) == redeem_asset(asset, amount).total_tokens
            - asset.total_tokens,
        vault_net_inflow(redeem_instructions(amount)) == -(amount as int),
        supply_change(redeem_instructions(amount), AccountRole::PtMint) == -amount,
        supply_change(redeem_instructions(amount), AccountRole::YtMint) == 0,
{
    let ops = redeem_instructions(amount);
    assert(ops.drop_last().drop_last() =~= Seq::empty());
    reveal_with_fuel(vault_net_inflow, 3);
    reveal_with_fuel(supply_change, 3);
}

} // verus!
