use vstd::prelude::*;

use crate::pubkey::Pubkey;

verus! {

/// A user's holding of yield tokens and the yield settled on it.
#[derive(Clone, Copy, Debug, PartialEq, Eq)]
pub struct UserYtPosition {
    /// Owner of the position.
    pub user: Pubkey,
    /// Yield tokens held in the position.
    pub total_yt_tokens: u64,
    /// Yield accrued and not yet paid out.
    pub accrued_yield: u64,
    /// Unix time up to which yield has been settled.
    pub last_update_ts: i64,
    /// Bump seed of the position's program address.
    pub bump: u8,
}

impl UserYtPosition {
    /// Whether every field is zero, as in a freshly created position account.
    pub open spec fn is_zeroed(self) -> bool {
        &&& self.user.is_zero()
        &&& self.total_yt_tokens == 0
        &&& self.accrued_yield == 0
        &&& self.last_update_ts == 0
        &&& self.bump == 0
    }
}

impl Default for UserYtPosition {
    /// A freshly created position account: every field zero.
    fn default() -> (r: Self)
        ensures
            r.is_zeroed(),
    {
        UserYtPosition {
            user: Pubkey::default(),
            total_yt_tokens: 0,
            accrued_yield: 0,
            last_update_ts: 0,
            bump: 0,
        }
    }
}

} // verus!
