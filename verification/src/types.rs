//! The types of the contract: what it stores, under which keys, and how it fails.

use vstd::prelude::*;

use crate::address::Address;

verus! {

/// What a sender has spent in the current 24-hour window.
#[derive(Clone, Copy, Debug, PartialEq, Eq, Structural)]
pub struct UserSpending {
    /// Ledger time at which the window was opened.
    pub last_reset_time: u64,
    /// Amounts accepted since then, added up.
    pub accumulated_amount: i128,
}

/// One payment of a batch.
#[derive(Clone, Copy, Debug, PartialEq, Eq)]
pub struct Payment {
    pub sender: Address,
    pub recipient: Address,
    pub token_address: Address,
    pub amount: i128,
}

/// The keys under which the contract keeps its data. Those without an address lie in instance
/// storage, those with one in persistent storage.
#[derive(Clone, Copy, Debug, PartialEq, Eq)]
pub enum DataKey {
    Admin,
    PlatformTreasury,
    FeeBps,
    FeeCap,
    Paused,
    MaxAmount,
    UserVolume(Address),
    UserSpending(Address),
    Blacklist(Address),
}

/// Contract-level errors returned instead of panicking, so callers get a
/// specific, stable error code to branch on rather than an opaque trap.
#[derive(Clone, Copy, Debug, PartialEq, Eq, PartialOrd, Ord, Structural)]
pub enum Error {
    /// Caller is not authorized to perform this action (e.g. not the admin).
    Unauthorized,
    /// Sender's token balance is lower than the requested payment amount.
    InsufficientBalance,
    /// Requested amount is outside allowed bounds, or a spending limit was exceeded.
    LimitExceeded,
    /// `initialize` was called on a contract that already has an admin set.
    AlreadyInitialized,
    /// An admin-configured value (treasury, fee, admin) was read before `initialize`.
    NotInitialized,
    /// The router is paused.
    Paused,
    /// A fee rate is not acceptable.
    InvalidFeeRate,
    /// Sender and recipient addresses are the same (self-routing not allowed).
    InvalidRecipient,
    /// Recipient address is blacklisted.
    Blacklisted,
}

/// The number by which callers of the contract know an error.
pub open spec fn error_code(error: Error) -> u32 {
    match error {
        Error::Unauthorized => 1,
        Error::InsufficientBalance => 2,
        Error::LimitExceeded => 3,
        Error::AlreadyInitialized => 4,
        Error::NotInitialized => 5,
        Error::Paused => 6,
        Error::InvalidFeeRate => 7,
        Error::InvalidRecipient => 8,
        Error::Blacklisted => 9,
    }
}

impl Error {
    /// The stable number of the error.
    pub fn code(self) -> (code: u32)
        ensures
            code == error_code(self),
    {
        match self {
            Error::Unauthorized => 1,
            Error::InsufficientBalance => 2,
            Error::LimitExceeded => 3,
            Error::AlreadyInitialized => 4,
            Error::NotInitialized => 5,
            Error::Paused => 6,
            Error::InvalidFeeRate => 7,
            Error::InvalidRecipient => 8,
            Error::Blacklisted => 9,
        }
    }
}

/// Why a payment, or the batch that it belongs to, comes to a stop.
#[derive(Clone, Copy, Debug, PartialEq, Eq, Structural)]
pub enum Halt {
    /// The contract answers with this error.
    Refused(Error),
    /// A sum, difference or product left the range of its type: the contract traps.
    Overflow,
}

} // verus!
