use signet::accounts::{ReadRespond, Respond, RespondError, SignBidirectional};
use signet::chain_signatures::{respond, respond_bidirectional, respond_error, sign_bidirectional};
use signet::events::{
    RespondBidirectionalEvent, SignBidirectionalEvent, SignatureErrorEvent,
    SignatureRespondedEvent,
};
use signet::signature::{AffinePoint, ErrorResponse, Signature};
use signet::{Account, ChainSignaturesError, ProgramState, Pubkey, Signer};

fn signature(byte: u8) -> Signature {
    Signature {
        big_r: AffinePoint { x: [byte; 32], y: [byte.wrapping_add(1); 32] },
        s: [byte.wrapping_add(2); 32],
        recovery_id: byte % 2,
    }
}

fn responder() -> Signer {
    Signer { key: Pubkey::new_from_array([0x42; 32]), lamports: 3 }
}

fn accounts(deposit: u64, requester_lamports: u64, fee_payer: Option<u64>) -> SignBidirectional {
    SignBidirectional {
        program_state: Account {
            lamports: 100,
            data: ProgramState {
                admin: Pubkey::new_from_array([7; 32]),
                signature_deposit: deposit,
                chain_id: "solana:localnet".to_string(),
            },
        },
        requester: Signer { key: Pubkey::new_from_array([1; 32]), lamports: requester_lamports },
        fee_payer: fee_payer
            .map(|lamports| Signer { key: Pubkey::new_from_array([2; 32]), lamports }),
    }
}

fn request(
    ctx: &mut SignBidirectional,
    transaction: Vec<u8>,
) -> Result<SignBidirectionalEvent, ChainSignaturesError> {
    sign_bidirectional(
        ctx,
        transaction,
        "eip155:1".to_string(),
        5,
        "my_vault".to_string(),
        "secp256k1".to_string(),
        "ethereum".to_string(),
        "{}".to_string(),
        Pubkey::new_from_array([9; 32]),
        vec![1, 2, 3],
        vec![4, 5],
    )
}

#[test]
fn bidirectional_request_pays_and_records_its_fields() {
    let mut ctx = accounts(1000, 1000, None);
    let event = request(&mut ctx, vec![0x02, 0xf8]).unwrap();
    assert_eq!(ctx.program_state.lamports, 1100);
    assert_eq!(ctx.requester.lamports, 0);
    assert_eq!(
        event,
        SignBidirectionalEvent {
            sender: Pubkey::new_from_array([1; 32]),
            serialized_transaction: vec![0x02, 0xf8],
            caip2_id: "eip155:1".to_string(),
            key_version: 5,
            deposit: 1000,
            path: "my_vault".to_string(),
            algo: "secp256k1".to_string(),
            dest: "ethereum".to_string(),
            params: "{}".to_string(),
            program_id: Pubkey::new_from_array([9; 32]),
            output_deserialization_schema: vec![1, 2, 3],
            respond_serialization_schema: vec![4, 5],
        }
    );
}

#[test]
fn bidirectional_request_takes_the_deposit_from_the_fee_payer() {
    let mut ctx = accounts(1000, 10, Some(1001));
    let event = request(&mut ctx, vec![1]).unwrap();
    assert_eq!(event.sender, Pubkey::new_from_array([1; 32]));
    assert_eq!(event.deposit, 1000);
    assert_eq!(ctx.program_state.lamports, 1100);
    assert_eq!(ctx.requester.lamports, 10);
    assert_eq!(ctx.fee_payer.unwrap().lamports, 1);
}

#[test]
fn bidirectional_request_without_funds_is_refused() {
    let mut ctx = accounts(1000, 999, None);
    assert_eq!(request(&mut ctx, vec![1]), Err(ChainSignaturesError::InsufficientDeposit));
    assert_eq!(ctx.program_state.lamports, 100);
    assert_eq!(ctx.requester.lamports, 999);
}

#[test]
fn bidirectional_request_with_empty_transaction_is_refused() {
    let mut ctx = accounts(1000, 5000, None);
    assert_eq!(request(&mut ctx, Vec::new()), Err(ChainSignaturesError::InvalidTransaction));
    assert_eq!(ctx.program_state.lamports, 100);
    assert_eq!(ctx.requester.lamports, 5000);
}

#[test]
fn missing_funds_are_reported_before_an_empty_transaction() {
    let mut ctx = accounts(1000, 999, None);
    assert_eq!(request(&mut ctx, Vec::new()), Err(ChainSignaturesError::InsufficientDeposit));
}

#[test]
fn batch_of_three_identifiers_and_two_signatures_is_refused() {
    let ctx = Respond { responder: responder() };
    let refused = respond(ctx, vec![[1; 32], [2; 32], [3; 32]], vec![signature(1), signature(2)]);
    assert_eq!(refused, Err(ChainSignaturesError::InvalidInputLength));
    let refused = respond(ctx, vec![[1; 32]], vec![signature(1), signature(2)]);
    assert_eq!(refused, Err(ChainSignaturesError::InvalidInputLength));
    let refused = respond(ctx, Vec::new(), vec![signature(1)]);
    assert_eq!(refused, Err(ChainSignaturesError::InvalidInputLength));
}

#[test]
fn batch_gives_one_record_per_pair_in_order() {
    let ctx = Respond { responder: responder() };
    let events =
        respond(ctx, vec![[1; 32], [2; 32], [3; 32]], vec![signature(10), signature(20), signature(30)])
            .unwrap();
    assert_eq!(
        events,
        vec![
            SignatureRespondedEvent {
                request_id: [1; 32],
                responder: responder().key,
                signature: signature(10),
            },
            SignatureRespondedEvent {
                request_id: [2; 32],
                responder: responder().key,
                signature: signature(20),
            },
            SignatureRespondedEvent {
                request_id: [3; 32],
                responder: responder().key,
                signature: signature(30),
            },
        ]
    );
}

#[test]
fn empty_batch_gives_no_record() {
    let ctx = Respond { responder: responder() };
    assert_eq!(respond(ctx, Vec::new(), Vec::new()), Ok(Vec::new()));
}

#[test]
fn error_reports_give_one_record_each_in_order() {
    let ctx = RespondError { responder: responder() };
    let errors = vec![
        ErrorResponse { request_id: [1; 32], error_message: "timed out".to_string() },
        ErrorResponse { request_id: [2; 32], error_message: String::new() },
    ];
    assert_eq!(
        respond_error(ctx, errors),
        Ok(vec![
            SignatureErrorEvent {
                request_id: [1; 32],
                responder: responder().key,
                error: "timed out".to_string(),
            },
            SignatureErrorEvent {
                request_id: [2; 32],
                responder: responder().key,
                error: String::new(),
            },
        ])
    );
    assert_eq!(respond_error(ctx, Vec::new()), Ok(Vec::new()));
}

#[test]
fn result_is_recorded_as_submitted() {
    let ctx = ReadRespond { responder: responder() };
    let output = vec![0xde, 0xad, 0xbe, 0xef, 0x01];
    assert_eq!(
        respond_bidirectional(ctx, [8; 32], output.clone(), signature(5)),
        Ok(RespondBidirectionalEvent {
            request_id: [8; 32],
            responder: responder().key,
            serialized_output: output,
            signature: signature(5),
        })
    );
}
