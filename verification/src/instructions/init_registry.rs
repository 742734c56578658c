use vstd::prelude::*;

use crate::pubkey::Pubkey;
use crate::registry::Registry;

verus! {

/// The protocol's commission, in basis points (3%).
pub const DEFAULT_COMMISSION_BPS: u16 = 300;

/// Creates the registry: `admin` administers it, protocol fees go to `fee_account`, the
/// commission is 3%, and the liquid-staking mint is left unset (all zero).
pub fn init_registry_handler(admin: Pubkey, fee_account: Pubkey, bump: u8) -> (r: Registry)
    ensures
        r.admin == admin,
        r.liquid_mint.is_zero(),
        r.fee_account == fee_account,
        r.commission_bps == DEFAULT_COMMISSION_BPS,
        r.bump == bump,
{
    Registry {
        admin,
        liquid_mint: Pubkey::default(),
        fee_account,
        commission_bps: DEFAULT_COMMISSION_BPS,
        bump,
    }
}

} // verus!
