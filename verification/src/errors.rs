//! The conditions on which an operation is refused.

use vstd::prelude::*;

verus! {

/// Why an operation of the program was refused. A refused operation changes
/// nothing and emits nothing.
#[derive(Clone, Copy, Debug, PartialEq, Eq, Structural)]
pub enum ChainSignaturesError {
    /// The payer's balance does not cover the required deposit.
    InsufficientDeposit,
    /// The two arrays of a batch differ in length.
    InvalidInputLength,
    /// The caller is not the admin.
    Unauthorized,
    /// The pool does not hold the amount to withdraw.
    InsufficientFunds,
    /// The recipient of a withdrawal is the null identity.
    InvalidRecipient,
    /// The transaction of a bidirectional request is empty.
    InvalidTransaction,
    /// The instruction sysvar account is missing.
    MissingInstructionSysvar,
}

/// Why a configuration was not set up.
#[derive(Clone, Copy, Debug, PartialEq, Eq, Structural)]
pub enum InitializeError {
    /// The account holds a configuration already. A configuration is set up
    /// once and its admin stays.
    AlreadyInitialized,
}

/// Why the party that verifies a response does not accept it.
#[derive(Clone, Copy, Debug, PartialEq, Eq, Structural)]
pub enum VerificationError {
    /// The signature does not recover to the expected identity.
    InvalidSignature,
}

impl ChainSignaturesError {
    /// The text that goes with the condition.
    pub fn message(&self) -> (text: &'static str)
        ensures
            text@ == match *self {
                ChainSignaturesError::InsufficientDeposit => "Insufficient deposit amount"@,
                ChainSignaturesError::InvalidInputLength => "Arrays must have the same length"@,
                ChainSignaturesError::Unauthorized => "Unauthorized access"@,
                ChainSignaturesError::InsufficientFunds => "Insufficient funds for withdrawal"@,
                ChainSignaturesError::InvalidRecipient => "Invalid recipient address"@,
                ChainSignaturesError::InvalidTransaction => "Invalid transaction data"@,
                ChainSignaturesError::MissingInstructionSysvar => "Missing instruction sysvar"@,
            },
    {
        match self {
            ChainSignaturesError::InsufficientDeposit => "Insufficient deposit amount",
            ChainSignaturesError::InvalidInputLength => "Arrays must have the same length",
            ChainSignaturesError::Unauthorized => "Unauthorized access",
            ChainSignaturesError::InsufficientFunds => "Insufficient funds for withdrawal",
            ChainSignaturesError::InvalidRecipient => "Invalid recipient address",
            ChainSignaturesError::InvalidTransaction => "Invalid transaction data",
            ChainSignaturesError::MissingInstructionSysvar => "Missing instruction sysvar",
        }
    }
}

} // verus!
