//! The records that the operations emit.
//!
//! A record is a fact that, once emitted, never changes. The program keeps
//! none of them: whoever is interested follows the stream of records.

use crate::pubkey::Pubkey;
use crate::signature::Signature;
use vstd::prelude::*;

verus! {

/// A signature over a 32-byte payload was requested.
#[derive(Clone, Debug, PartialEq, Eq)]
pub struct SignatureRequestedEvent {
    /// The requester.
    pub sender: Pubkey,
    /// The payload to sign, as a rule the hash of a transaction.
    pub payload: [u8; 32],
    /// The epoch of the root key to derive from.
    pub key_version: u32,
    /// The deposit that was paid, in lamports.
    pub deposit: u64,
    /// The CAIP-2 identifier of the ledger the request was made on.
    pub chain_id: String,
    /// The derivation path of the requester's signing key.
    pub path: String,
    /// The signing algorithm. Passed on as it came.
    pub algo: String,
    /// The destination of the response. Passed on as it came.
    pub dest: String,
    /// Further parameters. Passed on as they came.
    pub params: String,
    /// Who paid the deposit, where it was not the requester.
    pub fee_payer: Option<Pubkey>,
}

/// A signature over a transaction for another ledger was requested, together
/// with a report of what the transaction does there.
#[derive(Clone, Debug, PartialEq, Eq)]
pub struct SignBidirectionalEvent {
    /// The requester.
    pub sender: Pubkey,
    /// The unsigned transaction, serialized for the destination ledger.
    pub serialized_transaction: Vec<u8>,
    /// The CAIP-2 identifier of the destination ledger.
    pub caip2_id: String,
    /// The epoch of the root key to derive from.
    pub key_version: u32,
    /// The deposit that was paid, in lamports.
    pub deposit: u64,
    /// The derivation path of the requester's signing key.
    pub path: String,
    /// The signing algorithm. Passed on as it came.
    pub algo: String,
    /// The destination of the response. Passed on as it came.
    pub dest: String,
    /// Further parameters. Passed on as they came.
    pub params: String,
    /// The program to call back. Passed on as it came.
    pub program_id: Pubkey,
    /// How the signer is to read what the destination ledger returns.
    pub output_deserialization_schema: Vec<u8>,
    /// How the signer is to serialize the result for the requester.
    pub respond_serialization_schema: Vec<u8>,
}

/// A signature was submitted for a request.
///
/// Anyone can cause this record. The signature is what counts, not the
/// responder.
#[derive(Clone, Copy, Debug, PartialEq, Eq)]
pub struct SignatureRespondedEvent {
    /// The identifier of the request that the signature answers.
    pub request_id: [u8; 32],
    /// Who submitted the signature.
    pub responder: Pubkey,
    /// The signature.
    pub signature: Signature,
}

/// A failure was reported for a request.
///
/// Anyone can cause this record and nothing authenticates it: it informs,
/// and no decision may rest on it.
#[derive(Clone, Debug, PartialEq, Eq)]
pub struct SignatureErrorEvent {
    /// The identifier of the failed request.
    pub request_id: [u8; 32],
    /// Who submitted the report.
    pub responder: Pubkey,
    /// A description for a human reader.
    pub error: String,
}

/// The result of a bidirectional request was submitted.
///
/// Anyone can cause this record. The signature, which covers the request's
/// identifier and the output, is what counts.
#[derive(Clone, Debug, PartialEq, Eq)]
pub struct RespondBidirectionalEvent {
    /// The identifier of the request.
    pub request_id: [u8; 32],
    /// Who submitted the result.
    pub responder: Pubkey,
    /// What the transaction returned, or the mark of its failure.
    pub serialized_output: Vec<u8>,
    /// The signature over the identifier and the output.
    pub signature: Signature,
}

/// The admin changed the required deposit.
#[derive(Clone, Copy, Debug, PartialEq, Eq)]
pub struct DepositUpdatedEvent {
    /// The deposit before the change, in lamports.
    pub old_deposit: u64,
    /// The deposit after the change, in lamports.
    pub new_deposit: u64,
}

/// The admin withdrew funds from the pool.
#[derive(Clone, Copy, Debug, PartialEq, Eq)]
pub struct FundsWithdrawnEvent {
    /// The amount withdrawn, in lamports.
    pub amount: u64,
    /// The account that received it.
    pub recipient: Pubkey,
}

} // verus!
