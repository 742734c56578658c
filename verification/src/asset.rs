use vstd::prelude::*;

use crate::pubkey::Pubkey;

verus! {

/// A listed asset: an underlying token that can be stripped into a principal token (PT) and a
/// yield token (YT) until `maturity_ts`.
#[derive(Clone, Debug, PartialEq, Eq)]
pub struct Asset {
    /// Display name of the asset.
    pub name: String,
    /// Mint of the underlying token.
    pub token_mint: Pubkey,
    /// Mint of the principal token.
    pub pt_mint: Pubkey,
    /// Mint of the yield token.
    pub yt_mint: Pubkey,
    /// Underlying tokens held for stripped positions that have not been redeemed.
    pub total_tokens: u64,
    /// Whether the asset accepts instructions.
    pub is_active: bool,
    /// Price oracle of the asset (not set by listing).
    pub oracle: Pubkey,
    /// Yield index recorded at listing.
    pub yield_index: u64,
    /// Unix time at which the asset matures.
    pub maturity_ts: i64,
    /// Bump seed of the asset's program address.
    pub bump: u8,
    /// Expected yield rate. Token valuations read it per yield token per day left; yield
    /// claims read it per yield token over the whole `duration`.
    pub expected_apy: u64,
    /// Length of the asset's life in seconds; listing sets maturity this far ahead.
    pub duration: i64,
}

} // verus!
