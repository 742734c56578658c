use vstd::prelude::*;

use crate::pubkey::Pubkey;

verus! {

/// The protocol's global configuration; its program address signs every mint, burn and payout.
#[derive(Clone, Copy, Debug, PartialEq, Eq)]
pub struct Registry {
    /// The administrator that created the registry.
    pub admin: Pubkey,
    /// Mint of the liquid staking token (not set at creation).
    pub liquid_mint: Pubkey,
    /// Token account that receives protocol fees.
    pub fee_account: Pubkey,
    /// Protocol commission in basis points.
    pub commission_bps: u16,
    /// Bump seed of the registry's program address.
    pub bump: u8,
}

} // verus!
