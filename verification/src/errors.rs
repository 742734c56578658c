use vstd::prelude::*;

verus! {

/// The ways in which an instruction of the protocol refuses a request.
#[derive(Clone, Copy, Debug, PartialEq, Eq, Structural)]
pub enum ErrorCode {
    /// The amount asked for is zero.
    InvalidAmount,
    /// The asset has been switched off.
    Inactive,
    /// The asset has reached its maturity, so no new tokens can be stripped or minted.
    Expired,
    /// The asset has not yet passed its maturity, so principal cannot be redeemed.
    NotMatured,
    /// The clock has not moved since the position was last settled.
    InvalidTimestamp,
}

impl ErrorCode {
    /// The number under which the runtime reports the error: the custom error numbers start at
    /// 6000 and follow the order in which the variants are declared.
    pub open spec fn number(self) -> u32 {
        match self {
            ErrorCode::InvalidAmount => 6000,
            ErrorCode::Inactive => 6001,
            ErrorCode::Expired => 6002,
            ErrorCode::NotMatured => 6003,
            ErrorCode::InvalidTimestamp => 6004,
        }
    }

    /// The human-readable message that goes with the error.
    pub open spec fn text(self) -> Seq<char> {
        match self {
            ErrorCode::InvalidAmount => "Invalid amount"@,
            ErrorCode::Inactive => "Asset is inactive"@,
            ErrorCode::Expired => "Asset has expired"@,
            ErrorCode::NotMatured => "Asset is not matured"@,
            ErrorCode::InvalidTimestamp => "Invalid timestamp"@,
        }
    }

    /// The error number reported to the caller of the instruction.
    pub fn code(&self) -> (r: u32)
        ensures
            r == self.number(),
    {
        match self {
            ErrorCode::InvalidAmount => 6000,
            ErrorCode::Inactive => 6001,
            ErrorCode::Expired => 6002,
            ErrorCode::NotMatured => 6003,
            ErrorCode::InvalidTimestamp => 6004,
        }
    }

    /// The message reported with the error.
    pub fn message(&self) -> (r: &'static str)
        ensures
            r@ == self.text(),
    {
        match self {
            ErrorCode::InvalidAmount => "Invalid amount",
            ErrorCode::Inactive => "Asset is inactive",
            ErrorCode::Expired => "Asset has expired",
            ErrorCode::NotMatured => "Asset is not matured",
            ErrorCode::InvalidTimestamp => "Invalid timestamp",
        }
    }
}

} // verus!
