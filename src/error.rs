//! Why a transition aborts.
use vstd::prelude::*;

verus! {

/// The failures that the escrow logic itself reports.
#[derive(Clone, Copy, Debug, PartialEq, Eq, Structural)]
pub enum EscrowError {
    InsufficentOfferMakerBalance,
    InsufficentOfferTakerBalance,
    InvalidTokenMint,
    InvalidAmount,
    FailedVaultWithdrawal,
    FailedVaultClosure,
    FailedRefund,
}

impl EscrowError {
    /// The message shown for this error.
    pub fn message(&self) -> (r: &'static str) {
        match self {
            EscrowError::InsufficentOfferMakerBalance => "Insufficent token balance in offer maker's account",
            EscrowError::InsufficentOfferTakerBalance => "Insufficient token balance in offer taker's account",
            EscrowError::InvalidTokenMint => "Demanded token must be different from offered token",
            EscrowError::InvalidAmount => "Amount must be greater than zero",
            EscrowError::FailedVaultWithdrawal => "Failed to withdraw tokens from vault",
            EscrowError::FailedVaultClosure => "Failed to close vault account",
            EscrowError::FailedRefund => "Failed to refund tokens from vault",
        }
    }
}

/// Why a transition request was refused: its accounts do not fit the
/// ledger, or the escrow logic rejected it.
#[derive(Clone, Copy, Debug, PartialEq, Eq, Structural)]
pub enum TransitionError {
    /// An account that the request names does not exist.
    AccountNotInitialized,
    /// An account that the request would create exists already.
    AccountAlreadyInUse,
    /// The request names a party or asset type other than the one the
    /// offer records.
    ConstraintHasOne,
    Escrow(EscrowError),
}

/// The failure of a token-ledger primitive.
#[derive(Clone, Copy, Debug, PartialEq, Eq, Structural)]
pub enum TokenError {
    /// The source holds less than the amount.
    InsufficientFunds,
    /// The destination would exceed the largest balance.
    Overflow,
    /// Only an empty token account can be closed.
    NonZeroBalance,
}

} // verus!
