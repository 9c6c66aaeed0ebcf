//! The course of a request, as its records tell it.
//!
//! A request is registered, then signed, and, in the bidirectional flow,
//! its transaction is then observed on the destination ledger to have
//! succeeded or failed:
//!
//! ```text
//! Requested -> Signed -> ObservedSuccess | ObservedFailure
//! ```
//!
//! The direct flow ends with the signature. The program keeps no state of a
//! request; whoever follows the records can keep it with the functions
//! here. Only authenticated records may move a request on: a report of an
//! error is not authenticated and moves nothing.

use crate::outcome::{is_error_response, is_failure};
use vstd::prelude::*;

verus! {

/// The two flows of a request.
#[derive(Clone, Copy, Debug, PartialEq, Eq, Structural)]
pub enum Flow {
    /// A signature over a payload, and no more.
    Direct,
    /// A signature over a transaction, and then a report of what the
    /// transaction did.
    Bidirectional,
}

/// How far a request has come.
#[derive(Clone, Copy, Debug, PartialEq, Eq, Structural)]
pub enum RequestState {
    /// The request is registered and the deposit is paid.
    Requested,
    /// The signature has been submitted.
    Signed,
    /// The transaction was observed to have succeeded.
    ObservedSuccess,
    /// The transaction was observed to have failed.
    ObservedFailure,
}

/// Whether a request of `flow` in `state` has come to its end.
pub open spec fn terminal(flow: Flow, state: RequestState) -> bool {
    match state {
        RequestState::Requested => false,
        RequestState::Signed => flow == Flow::Direct,
        RequestState::ObservedSuccess => true,
        RequestState::ObservedFailure => true,
    }
}

/// The state that a signature brings a request in `state` to, if any.
pub open spec fn after_signature(state: RequestState) -> Option<RequestState> {
    match state {
        RequestState::Requested => Some(RequestState::Signed),
        _ => None,
    }
}

/// The state that a result with the output `serialized_output` brings a
/// request of `flow` in `state` to, if any.
pub open spec fn after_result(flow: Flow, state: RequestState, serialized_output: Seq<u8>) -> Option<
    RequestState,
> {
    if flow == Flow::Bidirectional && state == RequestState::Signed {
        if is_failure(serialized_output) {
            Some(RequestState::ObservedFailure)
        } else {
            Some(RequestState::ObservedSuccess)
        }
    } else {
        None
    }
}

/// Tells whether a request of `flow` in `state` has come to its end.
pub fn is_terminal(flow: Flow, state: RequestState) -> (ended: bool)
    ensures
        ended == terminal(flow, state),
{
    match state {
        RequestState::Requested => false,
        RequestState::Signed => flow == Flow::Direct,
        RequestState::ObservedSuccess => true,
        RequestState::ObservedFailure => true,
    }
}

/// Moves a request on by an authenticated signature. Only a request that
/// is not yet signed takes one.
pub fn on_signature(state: RequestState) -> (next: Option<RequestState>)
    ensures
        next == after_signature(state),
{
    match state {
        RequestState::Requested => Some(RequestState::Signed),
        _ => None,
    }
}

/// Moves a request on by an authenticated result. Only a signed request of
/// the bidirectional flow takes one, and the output decides between success
/// and failure.
pub fn on_result(flow: Flow, state: RequestState, serialized_output: &[u8]) -> (next: Option<
    RequestState,
>)
    ensures
        next == after_result(flow, state, serialized_output@),
{
    if flow == Flow::Bidirectional && state == RequestState::Signed {
        if is_error_response(serialized_output) {
            Some(RequestState::ObservedFailure)
        } else {
            Some(RequestState::ObservedSuccess)
        }
    } else {
        None
    }
}

/// A request that has come to its end moves no further, and a result ends
/// the request that takes it.
pub proof fn lemma_flow_ends(flow: Flow, state: RequestState, serialized_output: Seq<u8>)
    ensures
        terminal(flow, state) ==> after_signature(state) is None && after_result(
            flow,
            state,
            serialized_output,
        ) is None,
        after_result(flow, state, serialized_output) matches Some(next) ==> terminal(flow, next),
        terminal(Flow::Direct, RequestState::Signed),
        !terminal(Flow::Bidirectional, RequestState::Signed),
{
}

} // verus!
