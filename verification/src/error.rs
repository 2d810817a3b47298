//! The errors that the contract answers with.

use vstd::prelude::*;

verus! {

/// Why a call was refused.
#[derive(Copy, Clone, Debug, PartialEq, Eq, PartialOrd, Ord, Structural)]
pub enum EscrowError {
    /// The escrow has been set up before.
    AlreadyInitialized,
    /// The funds have been paid out before.
    AlreadyClaimed,
    /// The unlock time has not come.
    StillLocked,
    /// The escrow has not been set up.
    NotInitialized,
    /// Reserved for access control.
    Unauthorized,
    /// Reserved for cancellation.
    AlreadyCancelled,
    /// The amount is below the minimum.
    InvalidAmount,
    /// The unlock time is too close, or past.
    InvalidUnlockTime,
}

impl EscrowError {
    /// The number that stands for the error on the ledger.
    pub open spec fn number(self) -> u32 {
        match self {
            EscrowError::AlreadyInitialized => 1,
            EscrowError::AlreadyClaimed => 2,
            EscrowError::StillLocked => 3,
            EscrowError::NotInitialized => 4,
            EscrowError::Unauthorized => 5,
            EscrowError::AlreadyCancelled => 6,
            EscrowError::InvalidAmount => 7,
            EscrowError::InvalidUnlockTime => 8,
        }
    }

    /// The number that stands for the error on the ledger.
    pub fn code(self) -> (code: u32)
        ensures
            code == self.number(),
    {
        match self {
            EscrowError::AlreadyInitialized => 1,
            EscrowError::AlreadyClaimed => 2,
            EscrowError::StillLocked => 3,
            EscrowError::NotInitialized => 4,
            EscrowError::Unauthorized => 5,
            EscrowError::AlreadyCancelled => 6,
            EscrowError::InvalidAmount => 7,
            EscrowError::InvalidUnlockTime => 8,
        }
    }
}

} // verus!
