//! Deposit-gated signature requests with authenticated responses.
//!
//! A requester pays a fixed deposit into a pool and thereby registers a
//! request for a signature from an external signing network. Every request
//! has an identifier that both sides compute from the request's fields, the
//! network answers with a signature, and, for the bidirectional flow, with a
//! signed report of what the signed transaction did on its destination
//! ledger. Anyone may submit such answers, so an answer counts only if its
//! signature recovers to the key derived for the reserved response path.
//!
//! The ledger itself is not part of this crate: the operations in
//! [`chain_signatures`] work on plain values that stand for the accounts of
//! one operation, say in their contracts how balances and configuration
//! change, and hand back the records that the operation emits.

pub mod accounts;
pub mod chain_signatures;
pub mod derivation;
pub mod errors;
pub mod escrow;
pub mod events;
pub mod flow;
pub mod keccak;
pub mod outcome;
pub mod packed;
pub mod pubkey;
pub mod request_id;
pub mod response;
pub mod setup;
pub mod signature;
pub mod state;

pub use accounts::{
    Account, AccountInfo, AdminOnly, GetSignatureDeposit, Initialize, ReadRespond, Respond,
    RespondError, Sign, SignBidirectional, Signer, WithdrawFunds,
};
pub use errors::{ChainSignaturesError, InitializeError, VerificationError};
pub use events::{
    DepositUpdatedEvent, FundsWithdrawnEvent, RespondBidirectionalEvent, SignBidirectionalEvent,
    SignatureErrorEvent, SignatureRequestedEvent, SignatureRespondedEvent,
};
pub use outcome::Outcome;
pub use pubkey::Pubkey;
pub use setup::SetupOptions;
pub use signature::{AffinePoint, ErrorResponse, Signature};
pub use state::ProgramState;
