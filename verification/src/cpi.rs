use vstd::prelude::*;

verus! {

/// The accounts that an instruction names in the token operations it asks for.
#[derive(Clone, Copy, Debug, PartialEq, Eq, Structural)]
pub enum AccountRole {
    /// The signing user.
    User,
    /// The user's account of the underlying token.
    UserTokenAccount,
    /// The protocol's vault of the underlying token.
    Vault,
    /// The user's principal-token account.
    UserPtAccount,
    /// The user's yield-token account.
    UserYtAccount,
    /// The user's yield-token escrow, from which yield tokens are sold to the pool.
    YtEscrow,
    /// The principal-token mint.
    PtMint,
    /// The yield-token mint.
    YtMint,
    /// The registry, whose program address signs for the protocol.
    Registry,
}

/// A token operation that an instruction asks the runtime to perform, in the order given.
/// Where the authority is `Registry`, the registry's program address signs.
#[derive(Clone, Copy, Debug, PartialEq, Eq, Structural)]
pub enum TokenInstruction {
    /// Move `amount` tokens from `from` to `to`.
    Transfer { from: AccountRole, to: AccountRole, authority: AccountRole, amount: u64 },
    /// Create `amount` tokens of `mint` in `to`.
    MintTo { mint: AccountRole, to: AccountRole, authority: AccountRole, amount: u64 },
    /// Destroy `amount` tokens of `mint` held in `from`.
    Burn { mint: AccountRole, from: AccountRole, authority: AccountRole, amount: u64 },
    /// Sell `amount` of the pool's token A, taken from the YT escrow, for token B into the
    /// user's underlying account; `a_to_b` is the direction flag handed to the pool.
    Swap { amount: u64, a_to_b: bool },
}

/// How one operation changes the vault's balance of underlying tokens.
pub open spec fn vault_delta(op: TokenInstruction) -> int {
    match op {
        TokenInstruction::Transfer { from, to, amount, .. } => {
            (if to == AccountRole::Vault { amount as int } else { 0 }) - (if from == AccountRole::Vault {
                amount as int
            } else {
                0
            })
        },
        _ => 0,
    }
}

/// The net amount of underlying tokens that a series of operations moves into the vault.
pub open spec fn vault_net_inflow(ops: Seq<TokenInstruction>) -> int
    decreases ops.len(),
{
    if ops.len() == 0 {
        0
    } else {
        vault_net_inflow(ops.drop_last()) + vault_delta(ops.last())
    }
}

/// How many tokens of `mint` one operation creates (positive) or destroys (negative).
pub open spec fn supply_delta(op: TokenInstruction, mint: AccountRole) -> int {
    match op {
        TokenInstruction::MintTo { mint: m, amount, .. } => if m == mint { amount as int } else { 0 },
        TokenInstruction::Burn { mint: m, amount, .. } => if m == mint { -(amount as int) } else { 0 },
        _ => 0,
    }
}

/// The net change in the supply of `mint` over a series of operations.
pub open spec fn supply_change(ops: Seq<TokenInstruction>, mint: AccountRole) -> int
    decreases ops.len(),
{
    if ops.len() == 0 {
        0
    } else {
        supply_change(ops.drop_last(), mint) + supply_delta(ops.last(), mint)
    }
}

} // verus!
