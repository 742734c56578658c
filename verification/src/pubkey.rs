use vstd::prelude::*;

verus! {

/// A 32-byte account address, as the runtime names accounts.
#[derive(Clone, Copy, Debug, PartialEq, Eq)]
pub struct Pubkey {
    pub bytes: [u8; 32],
}

impl Pubkey {
    /// Whether every byte of the address is zero, as in a freshly allocated account.
    pub open spec fn is_zero(self) -> bool {
        forall|i: int| 0 <= i < 32 ==> #[trigger] self.bytes[i] == 0
    }
}

impl Default for Pubkey {
    /// The all-zero address, which every address field of a freshly created account holds.
    fn default() -> (r: Self)
        ensures
            r.is_zero(),
    {
        Pubkey { bytes: [0u8; 32] }
    }
}

} // verus!
