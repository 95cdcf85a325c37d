//! Why an operation is refused.

use vstd::prelude::*;

verus! {

/// An input that breaks one of the registry's own rules. The operation is
/// refused before anything changes.
#[derive(Clone, Copy, Debug, PartialEq, Eq, Structural)]
pub enum ErrorCode {
    /// The location has more than fifty characters.
    LocationTooLong,
    /// The planting date is zero or negative.
    InvalidDate,
    /// The amount to transfer is not exactly one.
    InvalidAmount,
}

/// A refusal that comes from the ledger rather than from the registry's rules.
#[derive(Clone, Copy, Debug, PartialEq, Eq, Structural)]
pub enum LedgerError {
    /// A record already lives at the address where one was to be created.
    AlreadyExists,
    /// No registry stands behind the request as the minting authority.
    Unauthorized,
    /// The ledger knows no asset of that identity.
    AssetNotFound,
    /// The source does not hold the unit that was to be moved.
    InsufficientBalance,
    /// The seeds of the record derive no address.
    NoAddress,
    /// The registry does not show the count on which the request was made,
    /// as when another issue came first. The request can be made again on
    /// the count that the registry shows now.
    OrderingFailure,
}

/// Any reason for which an operation on the ledger fails.
#[derive(Clone, Copy, Debug, PartialEq, Eq, Structural)]
pub enum Error {
    Validation(ErrorCode),
    Ledger(LedgerError),
}

impl ErrorCode {
    /// The text that describes the error.
    pub open spec fn spec_message(self) -> Seq<char> {
        match self {
            ErrorCode::LocationTooLong => "Location string is too long"@,
            ErrorCode::InvalidDate => "Invalid planting date"@,
            ErrorCode::InvalidAmount => "Invalid transfer amount"@,
        }
    }

    /// The text that describes the error.
    pub fn message(&self) -> (text: &'static str)
        ensures
            text@ == self.spec_message(),
    {
        match self {
            ErrorCode::LocationTooLong => "Location string is too long",
            ErrorCode::InvalidDate => "Invalid planting date",
            ErrorCode::InvalidAmount => "Invalid transfer amount",
        }
    }
}

} // verus!
