//! The operations of the program.
//!
//! Each operation takes the accounts it works on and its arguments, and
//! either takes effect as a whole or is refused and changes nothing. What it
//! emits, it returns.

use crate::accounts::{
    AdminOnly, GetSignatureDeposit, Initialize, ReadRespond, Respond, RespondError, Sign,
    SignBidirectional, WithdrawFunds,
};
use crate::errors::{ChainSignaturesError, InitializeError};
use crate::escrow::{collect, configure, withdraw, withdrawal_refused};
use crate::events::{
    DepositUpdatedEvent, FundsWithdrawnEvent, RespondBidirectionalEvent, SignBidirectionalEvent,
    SignatureErrorEvent, SignatureRequestedEvent, SignatureRespondedEvent,
};
use crate::pubkey::Pubkey;
use crate::signature::{ErrorResponse, Signature};
use crate::state::ProgramState;
use vstd::prelude::*;

verus! {

/// Sets up the configuration of a fresh account: the signer becomes the
/// admin, and the deposit and the ledger's identifier are as given.
///
/// A configuration is set up once. An account that holds one is left as it
/// is, whoever asks and whatever the arguments.
pub fn initialize(ctx: &mut Initialize, signature_deposit: u64, chain_id: String) -> (done: Result<
    (),
    InitializeError,
>)
    ensures
        match done {
            Ok(_) => {
                &&& old(ctx).fresh()
                &&& *final(ctx) == old(ctx).after_initialization(signature_deposit, chain_id)
            },
            Err(error) => {
                &&& !old(ctx).fresh()
                &&& error == InitializeError::AlreadyInitialized
                &&& *final(ctx) == *old(ctx)
            },
        },
{
    if ctx.program_state.data.is_some() {
        return Err(InitializeError::AlreadyInitialized);
    }
    ctx.program_state.data = Some(
        ProgramState { admin: ctx.admin.key, signature_deposit, chain_id },
    );
    Ok(())
}

/// Replaces the required deposit. Only the admin may do so.
pub fn update_deposit(ctx: &mut AdminOnly, new_deposit: u64) -> (emitted: Result<
    DepositUpdatedEvent,
    ChainSignaturesError,
>)
    ensures
        final(ctx).admin == old(ctx).admin,
        final(ctx).program_state.lamports == old(ctx).program_state.lamports,
        final(ctx).program_state.data.admin == old(ctx).program_state.data.admin,
        final(ctx).program_state.data.chain_id == old(ctx).program_state.data.chain_id,
        match emitted {
            Ok(event) => {
                &&& old(ctx).authorized()
                &&& final(ctx).program_state.data.signature_deposit == new_deposit
                &&& event == (DepositUpdatedEvent {
                    old_deposit: old(ctx).program_state.data.signature_deposit,
                    new_deposit,
                })
            },
            Err(error) => {
                &&& !old(ctx).authorized()
                &&& error == ChainSignaturesError::Unauthorized
                &&& *final(ctx) == *old(ctx)
            },
        },
{
    match configure(&mut ctx.program_state.data, &ctx.admin.key, new_deposit) {
        Ok(old_deposit) => Ok(DepositUpdatedEvent { old_deposit, new_deposit }),
        Err(error) => Err(error),
    }
}

/// Pays `amount` out of the pool to the recipient. Only the admin may do
/// so.
///
/// The withdrawal is refused where the signer is not the admin, else where
/// the pool holds less than `amount`, else where the recipient is the null
/// identity.
pub fn withdraw_funds(ctx: &mut WithdrawFunds, amount: u64) -> (emitted: Result<
    FundsWithdrawnEvent,
    ChainSignaturesError,
>)
    requires
        withdrawal_refused(
            old(ctx).program_state.data.admin,
            old(ctx).program_state.lamports,
            old(ctx).admin.key,
            old(ctx).recipient.key,
            amount,
        ) is None ==> old(ctx).recipient.lamports + amount <= u64::MAX,
    ensures
        amount > old(ctx).program_state.lamports ==> emitted is Err,
        old(ctx).recipient.key.is_null() ==> emitted is Err,
        match emitted {
            Ok(event) => {
                &&& old(ctx).authorized()
                &&& old(ctx).program_state.lamports >= amount
                &&& !old(ctx).recipient.key.is_null()
                &&& *final(ctx) == old(ctx).after_withdrawal(amount)
                &&& event == (FundsWithdrawnEvent { amount, recipient: old(ctx).recipient.key })
            },
            Err(error) => {
                &&& *final(ctx) == *old(ctx)
                &&& Some(error) == withdrawal_refused(
                    old(ctx).program_state.data.admin,
                    old(ctx).program_state.lamports,
                    old(ctx).admin.key,
                    old(ctx).recipient.key,
                    amount,
                )
            },
        },
{
    match withdraw(&mut ctx.program_state, &ctx.admin.key, &mut ctx.recipient, amount) {
        Ok(()) => Ok(FundsWithdrawnEvent { amount, recipient: ctx.recipient.key }),
        Err(error) => Err(error),
    }
}

/// Requests a signature over a 32-byte payload.
///
/// The deposit moves from the fee payer, or from the requester where there
/// is no fee payer, to the pool. The request is refused where the payer's
/// balance does not cover the deposit.
pub fn sign(
    ctx: &mut Sign,
    payload: [u8; 32],
    key_version: u32,
    path: String,
    algo: String,
    dest: String,
    params: String,
) -> (emitted: Result<SignatureRequestedEvent, ChainSignaturesError>)
    requires
        old(ctx).payer().lamports >= old(ctx).deposit() ==> old(ctx).program_state.lamports + old(
            ctx,
        ).deposit() <= u64::MAX,
    ensures
        match emitted {
            Ok(event) => {
                &&& old(ctx).payer().lamports >= old(ctx).deposit()
                &&& *final(ctx) == old(ctx).after_deposit()
                &&& event == (SignatureRequestedEvent {
                    sender: old(ctx).requester.key,
                    payload,
                    key_version,
                    deposit: old(ctx).deposit(),
                    chain_id: old(ctx).program_state.data.chain_id,
                    path,
                    algo,
                    dest,
                    params,
                    fee_payer: match old(ctx).fee_payer {
                        Some(fee_payer) => Some(fee_payer.key),
                        None => None,
                    },
                })
            },
            Err(error) => {
                &&& old(ctx).payer().lamports < old(ctx).deposit()
                &&& error == ChainSignaturesError::InsufficientDeposit
                &&& *final(ctx) == *old(ctx)
            },
        },
{
    let paid = match &mut ctx.fee_payer {
        Some(fee_payer) => collect(&mut ctx.program_state, fee_payer),
        None => collect(&mut ctx.program_state, &mut ctx.requester),
    };
    match paid {
        Ok(deposit) => Ok(
            SignatureRequestedEvent {
                sender: ctx.requester.key,
                payload,
                key_version,
                deposit,
                chain_id: ctx.program_state.data.chain_id.clone(),
                path,
                algo,
                dest,
                params,
                fee_payer: match &ctx.fee_payer {
                    Some(fee_payer) => Some(fee_payer.key),
                    None => None,
                },
            },
        ),
        Err(error) => Err(error),
    }
}

/// Requests a signature over a transaction for another ledger, and a signed
/// report of what that transaction does there.
///
/// The deposit moves from the fee payer, or from the requester where there
/// is no fee payer, to the pool. The request is refused where the payer's
/// balance does not cover the deposit, and else where the transaction is
/// empty.
pub fn sign_bidirectional(
    ctx: &mut SignBidirectional,
    serialized_transaction: Vec<u8>,
    caip2_id: String,
    key_version: u32,
    path: String,
    algo: String,
    dest: String,
    params: String,
    program_id: Pubkey,
    output_deserialization_schema: Vec<u8>,
    respond_serialization_schema: Vec<u8>,
) -> (emitted: Result<SignBidirectionalEvent, ChainSignaturesError>)
    requires
        old(ctx).payer().lamports >= old(ctx).deposit() && serialized_transaction@.len() > 0
            ==> old(ctx).program_state.lamports + old(ctx).deposit() <= u64::MAX,
    ensures
        match emitted {
            Ok(event) => {
                &&& old(ctx).payer().lamports >= old(ctx).deposit()
                &&& serialized_transaction@.len() > 0
                &&& *final(ctx) == old(ctx).after_deposit()
                &&& event == (SignBidirectionalEvent {
                    sender: old(ctx).requester.key,
                    serialized_transaction,
                    caip2_id,
                    key_version,
                    deposit: old(ctx).deposit(),
                    path,
                    algo,
                    dest,
                    params,
                    program_id,
                    output_deserialization_schema,
                    respond_serialization_schema,
                })
            },
            Err(error) => {
                &&& *final(ctx) == *old(ctx)
                &&& if old(ctx).payer().lamports < old(ctx).deposit() {
                    error == ChainSignaturesError::InsufficientDeposit
                } else {
                    &&& serialized_transaction@.len() == 0
                    &&& error == ChainSignaturesError::InvalidTransaction
                }
            },
        },
{
    let deposit: u64 = ctx.program_state.data.signature_deposit;
    let balance: u64 = match &ctx.fee_payer {
        Some(fee_payer) => fee_payer.lamports,
        None => ctx.requester.lamports,
    };
    if balance < deposit {
        return Err(ChainSignaturesError::InsufficientDeposit);
    }
    if serialized_transaction.len() == 0 {
        return Err(ChainSignaturesError::InvalidTransaction);
    }
    let paid = match &mut ctx.fee_payer {
        Some(fee_payer) => collect(&mut ctx.program_state, fee_payer),
        None => collect(&mut ctx.program_state, &mut ctx.requester),
    };
    match paid {
        Ok(deposit) => Ok(
            SignBidirectionalEvent {
                sender: ctx.requester.key,
                serialized_transaction,
                caip2_id,
                key_version,
                deposit,
                path,
                algo,
                dest,
                params,
                program_id,
                output_deserialization_schema,
                respond_serialization_schema,
            },
        ),
        Err(error) => Err(error),
    }
}

/// The records that a batch of signatures gives: one for each pair of an
/// identifier and a signature, in the order of the batch.
pub open spec fn signature_records(
    responder: Pubkey,
    request_ids: Seq<[u8; 32]>,
    signatures: Seq<Signature>,
) -> Seq<SignatureRespondedEvent> {
    Seq::new(
        request_ids.len(),
        |i: int|
            SignatureRespondedEvent {
                request_id: request_ids[i],
                responder,
                signature: signatures[i],
            },
    )
}

/// Submits signatures for a batch of requests.
///
/// The batch is refused as a whole where there are not as many signatures
/// as identifiers. Anyone may submit: nothing here tells whether a signature
/// is valid.
pub fn respond(ctx: Respond, request_ids: Vec<[u8; 32]>, signatures: Vec<Signature>) -> (emitted:
    Result<Vec<SignatureRespondedEvent>, ChainSignaturesError>)
    ensures
        match emitted {
            Ok(events) => {
                &&& request_ids@.len() == signatures@.len()
                &&& events@ == signature_records(ctx.responder.key, request_ids@, signatures@)
            },
            Err(error) => {
                &&& request_ids@.len() != signatures@.len()
                &&& error == ChainSignaturesError::InvalidInputLength
            },
        },
{
    if request_ids.len() != signatures.len() {
        return Err(ChainSignaturesError::InvalidInputLength);
    }
    let mut events: Vec<SignatureRespondedEvent> = Vec::new();
    let mut i: usize = 0;
    while i < request_ids.len()
        invariant
            i <= request_ids@.len(),
            request_ids@.len() == signatures@.len(),
            events@.len() == i,
            forall|j: int|
                0 <= j < i ==> events@[j] == signature_records(
                    ctx.responder.key,
                    request_ids@,
                    signatures@,
                )[j],
        decreases request_ids@.len() - i,
    {
        events.push(
            SignatureRespondedEvent {
                request_id: request_ids[i],
                responder: ctx.responder.key,
                signature: signatures[i],
            },
        );
        i += 1;
    }
    assert(events@ =~= signature_records(ctx.responder.key, request_ids@, signatures@));
    Ok(events)
}

/// The records that a batch of error reports gives: one for each report, in
/// the order of the batch.
pub open spec fn error_records(responder: Pubkey, errors: Seq<ErrorResponse>) -> Seq<
    SignatureErrorEvent,
> {
    Seq::new(
        errors.len(),
        |i: int|
            SignatureErrorEvent {
                request_id: errors[i].request_id,
                responder,
                error: errors[i].error_message,
            },
    )
}

/// Reports failures for a batch of requests.
///
/// Anyone may submit and nothing is checked: the records inform, and no
/// decision may rest on them.
pub fn respond_error(ctx: RespondError, errors: Vec<ErrorResponse>) -> (emitted: Result<
    Vec<SignatureErrorEvent>,
    ChainSignaturesError,
>)
    ensures
        emitted matches Ok(events) && events@ == error_records(ctx.responder.key, errors@),
{
    let mut events: Vec<SignatureErrorEvent> = Vec::new();
    let mut i: usize = 0;
    while i < errors.len()
        invariant
            i <= errors@.len(),
            events@.len() == i,
            forall|j: int|
                0 <= j < i ==> events@[j] == error_records(ctx.responder.key, errors@)[j],
        decreases errors@.len() - i,
    {
        events.push(
            SignatureErrorEvent {
                request_id: errors[i].request_id,
                responder: ctx.responder.key,
                error: errors[i].error_message.clone(),
            },
        );
        i += 1;
    }
    assert(events@ =~= error_records(ctx.responder.key, errors@));
    Ok(events)
}

/// The deposit that a signature request has to pay at present.
pub fn get_signature_deposit(ctx: &GetSignatureDeposit) -> (deposit: Result<
    u64,
    ChainSignaturesError,
>)
    ensures
        deposit == Ok::<u64, ChainSignaturesError>(ctx.program_state.data.signature_deposit),
{
    Ok(ctx.program_state.data.signature_deposit)
}

/// Submits the result of a bidirectional request.
///
/// Anyone may submit, and the signature is not checked here: whoever reads
/// the record has to authenticate it before trusting the output.
pub fn respond_bidirectional(
    ctx: ReadRespond,
    request_id: [u8; 32],
    serialized_output: Vec<u8>,
    signature: Signature,
) -> (emitted: Result<RespondBidirectionalEvent, ChainSignaturesError>)
    ensures
        emitted == Ok::<RespondBidirectionalEvent, ChainSignaturesError>(
            RespondBidirectionalEvent {
                request_id,
                responder: ctx.responder.key,
                serialized_output,
                signature,
            },
        ),
{
    Ok(
        RespondBidirectionalEvent {
            request_id,
            responder: ctx.responder.key,
            serialized_output,
            signature,
        },
    )
}

} // verus!
