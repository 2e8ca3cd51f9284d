//! Error kinds of the exchange protocol.
//!
//! Every error aborts the whole operation: no partial settlement is ever
//! kept, and callers are expected to re-submit with corrected inputs.

use vstd::prelude::*;

verus! {

/// The reasons an operation of the exchange protocol can be refused.
#[derive(Clone, Copy, Debug, PartialEq, Eq, Structural)]
pub enum Wen3ExError {
    /// A deposit exceeds the available balance, or a supplied amount
    /// violates a variant's minimum.
    InvalidAmount,
    /// The caller is not the recorded creator on an operation that
    /// requires it.
    InvalidAuthority,
    InvalidExtractAttempt,
    InvalidBurnType,
    InvalidTransferCrankProcess,
    NoTakerTokenAccount,
    IncorrectTakerTokenAccount,
    /// The counterparty receiving account required for an asset leg is
    /// missing.
    NoCreatorTokenAccount,
    /// The counterparty receiving account is not owned by the recorded
    /// creator.
    IncorrectCreatorTokenAccount,
    /// A supplied vault authority does not match the value reproduced by
    /// authority derivation.
    IncorrectVaultAuthorityAccount,
    /// A checked arithmetic step on native-currency balances would
    /// underflow or overflow.
    NumericalOverflowError,
}

impl Wen3ExError {
    /// A short description of the error, for reporting outside the
    /// protocol.
    pub fn message(&self) -> &'static str {
        match self {
            Wen3ExError::InvalidAmount => "InvalidAmount take",
            Wen3ExError::InvalidAuthority => {
                "Current owner is not the authority of the parent token"
            },
            Wen3ExError::InvalidExtractAttempt => {
                "Only Reversible Synthetic Tokens can be extracted"
            },
            Wen3ExError::InvalidBurnType => {
                "Wrong type of burn instruction for the token"
            },
            Wen3ExError::InvalidTransferCrankProcess => {
                "Wrong opration of crank process instruction for the token"
            },
            Wen3ExError::NoTakerTokenAccount => "NoTakerTokenAccount",
            Wen3ExError::IncorrectTakerTokenAccount => "IncorrectTakerTokenAccount",
            Wen3ExError::NoCreatorTokenAccount => "NoCreatorTokenAccount",
            Wen3ExError::IncorrectCreatorTokenAccount => "IncorrectCreatorTokenAccount",
            Wen3ExError::IncorrectVaultAuthorityAccount => "IncorrectVaultAuthorityAccount",
            Wen3ExError::NumericalOverflowError => "NumericalOverflowError",
        }
    }
}

} // verus!
