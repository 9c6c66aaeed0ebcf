//! Telling an authentic response from a forged one.
//!
//! Anyone may submit a response, so who submitted it says nothing. A
//! response is authentic if its signature, taken over the hash of the
//! request's identifier and the output, recovers to the identity that is
//! expected to have signed: the address of the key derived for the response
//! path.

use crate::errors::VerificationError;
use crate::events::RespondBidirectionalEvent;
use crate::keccak::{hash, keccak256};
use crate::outcome::{is_failure, parse_response, payload_of, Outcome};
use crate::packed::append;
use crate::signature::Signature;
use vstd::prelude::*;

verus! {

/// The public key that a signature over `message_hash` recovers to, as the
/// 64 bytes of its two coordinates, or `None` where it recovers to none.
/// `signature` is the compact form of the signature.
///
/// The key is recovered outside this crate and nothing is proved of it
/// here: the name stands for what the recovery returns.
pub uninterp spec fn recovered_key(message_hash: Seq<u8>, recovery_id: u8, signature: Seq<u8>) -> Option<
    Seq<u8>,
>;

/// Recovers a public key with `secp256k1_recover` of `solana_program`, as
/// `anchor_lang` hands it on. Whether a key comes out, and which, depends on
/// the three arguments alone; a refusal of whatever kind gives `None`.
#[verifier::external_body]
fn recover(message_hash: &[u8; 32], recovery_id: u8, signature: &[u8; 64]) -> (key: Option<
    [u8; 64],
>)
    ensures
        recovered_key(message_hash@, recovery_id, signature@) == match key {
            Some(bytes) => Some(bytes@),
            None => None,
        },
{
    match anchor_lang::solana_program::secp256k1_recover::secp256k1_recover(
        message_hash,
        recovery_id,
        signature,
    ) {
        Ok(key) => Some(key.to_bytes()),
        Err(_) => None,
    }
}

/// The address that goes with a digest of a public key: its last 20 bytes.
pub open spec fn address_of_digest(digest: Seq<u8>) -> Seq<u8> {
    digest.subrange(12, 32)
}

/// The address of a public key: the last 20 bytes of the hash of its two
/// coordinates.
pub open spec fn address_of_key(key: Seq<u8>) -> Seq<u8> {
    address_of_digest(keccak256(key))
}

/// The hash that the signature of a response covers.
pub open spec fn response_hash(request_id: Seq<u8>, serialized_output: Seq<u8>) -> Seq<u8> {
    keccak256(request_id + serialized_output)
}

/// The address that `signature` over `message_hash` recovers to.
pub open spec fn recovered_address(message_hash: Seq<u8>, signature: Signature) -> Option<Seq<u8>> {
    match recovered_key(message_hash, signature.recovery_id, signature.compact()) {
        Some(key) => Some(address_of_key(key)),
        None => None,
    }
}

/// Whether `signature` over `message_hash` is that of `address`.
pub open spec fn authentic(message_hash: Seq<u8>, signature: Signature, address: Seq<u8>) -> bool {
    recovered_address(message_hash, signature) == Some(address)
}

/// Takes the address out of the digest of a public key.
pub fn address_from_digest(digest: &[u8; 32]) -> (address: [u8; 20])
    ensures
        address@ == address_of_digest(digest@),
{
    let mut address: [u8; 20] = [0u8; 20];
    let mut i: usize = 0;
    while i < 20
        invariant
            i <= 20,
            forall|j: int| 0 <= j < i ==> address@[j] == digest@[12 + j],
        decreases 20 - i,
    {
        address[i] = digest[12 + i];
        i += 1;
    }
    assert(address@ =~= address_of_digest(digest@));
    address
}

/// The address of the public key with the coordinates `key`.
pub fn ethereum_address(key: &[u8; 64]) -> (address: [u8; 20])
    ensures
        address@ == address_of_key(key@),
{
    let digest = hash(key.as_slice());
    address_from_digest(&digest)
}

/// Hashes the identifier of a request together with the output.
pub fn hash_response(request_id: &[u8; 32], serialized_output: &[u8]) -> (message_hash: [u8; 32])
    ensures
        message_hash@ == response_hash(request_id@, serialized_output@),
{
    let mut data: Vec<u8> = Vec::new();
    append(&mut data, request_id.as_slice());
    append(&mut data, serialized_output);
    hash(data.as_slice())
}

/// Decides on a response from the address that its signature recovered to:
/// the response is accepted if there is such an address and it is the
/// expected one.
pub fn accept_address(recovered: Option<[u8; 20]>, expected: &[u8; 20]) -> (accepted: Result<
    (),
    VerificationError,
>)
    ensures
        accepted is Ok <==> (recovered matches Some(address) && address@ == expected@),
        accepted is Err ==> accepted == Err::<(), VerificationError>(
            VerificationError::InvalidSignature,
        ),
{
    match recovered {
        None => Err(VerificationError::InvalidSignature),
        Some(address) => {
            let mut i: usize = 0;
            while i < 20
                invariant
                    i <= 20,
                    recovered == Some(address),
                    forall|j: int| 0 <= j < i ==> address@[j] == expected@[j],
                decreases 20 - i,
            {
                if address[i] != expected[i] {
                    return Err(VerificationError::InvalidSignature);
                }
                i += 1;
            }
            assert(address@ =~= expected@);
            Ok(())
        },
    }
}

/// Checks that `signature` over `message_hash` is that of
/// `expected_address`.
pub fn verify_signature(
    message_hash: &[u8; 32],
    signature: &Signature,
    expected_address: &[u8; 20],
) -> (accepted: Result<(), VerificationError>)
    ensures
        accepted is Ok <==> authentic(message_hash@, *signature, expected_address@),
        accepted is Err ==> accepted == Err::<(), VerificationError>(
            VerificationError::InvalidSignature,
        ),
{
    let compact = signature.to_compact();
    let recovered = match recover(message_hash, signature.recovery_id, &compact) {
        Some(key) => Some(ethereum_address(&key)),
        None => None,
    };
    accept_address(recovered, expected_address)
}

/// Authenticates a response and reads its output.
///
/// The response is accepted if its signature over the hash of the
/// identifier and the output is that of `expected_address`. An accepted
/// response is then read as a failure or as a success with its payload.
pub fn verify_response(
    request_id: &[u8; 32],
    serialized_output: &[u8],
    signature: &Signature,
    expected_address: &[u8; 20],
) -> (verified: Result<Outcome, VerificationError>)
    ensures
        match verified {
            Ok(Outcome::Failure) => {
                &&& authentic(
                    response_hash(request_id@, serialized_output@),
                    *signature,
                    expected_address@,
                )
                &&& is_failure(serialized_output@)
            },
            Ok(Outcome::Success(payload)) => {
                &&& authentic(
                    response_hash(request_id@, serialized_output@),
                    *signature,
                    expected_address@,
                )
                &&& !is_failure(serialized_output@)
                &&& payload@ == payload_of(serialized_output@)
            },
            Err(error) => {
                &&& !authentic(
                    response_hash(request_id@, serialized_output@),
                    *signature,
                    expected_address@,
                )
                &&& error == VerificationError::InvalidSignature
            },
        },
{
    let message_hash = hash_response(request_id, serialized_output);
    match verify_signature(&message_hash, signature, expected_address) {
        Ok(()) => Ok(parse_response(serialized_output)),
        Err(error) => Err(error),
    }
}

impl RespondBidirectionalEvent {
    /// Authenticates the record and reads its output, as `verify_response`
    /// does.
    pub fn verify(&self, expected_address: &[u8; 20]) -> (verified: Result<
        Outcome,
        VerificationError,
    >)
        ensures
            match verified {
                Ok(Outcome::Failure) => {
                    &&& authentic(
                        response_hash(self.request_id@, self.serialized_output@),
                        self.signature,
                        expected_address@,
                    )
                    &&& is_failure(self.serialized_output@)
                },
                Ok(Outcome::Success(payload)) => {
                    &&& authentic(
                        response_hash(self.request_id@, self.serialized_output@),
                        self.signature,
                        expected_address@,
                    )
                    &&& !is_failure(self.serialized_output@)
                    &&& payload@ == payload_of(self.serialized_output@)
                },
                Err(error) => {
                    &&& !authentic(
                        response_hash(self.request_id@, self.serialized_output@),
                        self.signature,
                        expected_address@,
                    )
                    &&& error == VerificationError::InvalidSignature
                },
            },
    {
        verify_response(
            &self.request_id,
            self.serialized_output.as_slice(),
            &self.signature,
            expected_address,
        )
    }
}

/// A signature over a message is that of one address at most: what is
/// authentic for one address is not authentic for another.
pub proof fn lemma_authentic_for_one_address(
    message_hash: Seq<u8>,
    signature: Signature,
    address: Seq<u8>,
    other: Seq<u8>,
)
    requires
        authentic(message_hash, signature, address),
        other != address,
    ensures
        !authentic(message_hash, signature, other),
{
}

} // verus!
