//! Why an operation on the ledger is refused.

use vstd::prelude::*;

verus! {

/// The reasons for which an operation fails. A failed operation changes
/// nothing.
#[derive(Clone, Copy, Debug, PartialEq, Eq, Structural)]
pub enum ErrorCode {
    /// A cumulative counter would exceed its maximum.
    Overflow,
    /// The caller is not the authority of the ledger.
    Unauthorized,
    /// The token selector names no tracked token.
    InvalidTokenType,
    /// The singleton state exists already.
    AlreadyInitialized,
    /// An account exists already at the derived address.
    DuplicateKey,
    /// No run or record exists at the derived address.
    NotFound,
    /// The seeds derive no address.
    InvalidSeeds,
}

impl ErrorCode {
    /// The text that describes the error.
    pub open spec fn message_spec(self) -> Seq<char> {
        match self {
            ErrorCode::Overflow => "Arithmetic overflow when updating total"@,
            ErrorCode::Unauthorized => "Unauthorized: signer is not the authority"@,
            ErrorCode::InvalidTokenType => "Invalid token type: must be 0 (XNM) or 1 (XBLK)"@,
            ErrorCode::AlreadyInitialized => "Global state is already initialized"@,
            ErrorCode::DuplicateKey => "An account already exists at this address"@,
            ErrorCode::NotFound => "No account exists at this address"@,
            ErrorCode::InvalidSeeds => "The seeds derive no program address"@,
        }
    }

    /// The text that describes the error.
    pub fn message(&self) -> (text: &'static str)
        ensures
            text@ == self.message_spec(),
    {
        match self {
            ErrorCode::Overflow => "Arithmetic overflow when updating total",
            ErrorCode::Unauthorized => "Unauthorized: signer is not the authority",
            ErrorCode::InvalidTokenType => "Invalid token type: must be 0 (XNM) or 1 (XBLK)",
            ErrorCode::AlreadyInitialized => "Global state is already initialized",
            ErrorCode::DuplicateKey => "An account already exists at this address",
            ErrorCode::NotFound => "No account exists at this address",
            ErrorCode::InvalidSeeds => "The seeds derive no program address",
        }
    }
}

} // verus!
