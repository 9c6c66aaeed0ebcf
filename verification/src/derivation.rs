//! Keys derived from the signer's root key.
//!
//! Every requester has, for every purpose, a key of its own under the one
//! root key of the signing network:
//!
//! ```text
//! epsilon = derive_epsilon(key_version, requester, path)
//! derived = root + epsilon * G
//! ```
//!
//! where `G` is the generator of secp256k1. The purpose is named by the
//! path. A requester's own paths name the keys that sign its transactions;
//! one reserved path names the key that signs the responses made out to it.
//! The paths keep the two kinds of key apart, so that nothing signed for a
//! transaction passes for a response.
//!
//! Here `epsilon` is the Keccak-256 digest of the key version, the
//! requester and the path, packed in this order.

use crate::errors::VerificationError;
use crate::keccak::{hash, keccak256};
use crate::outcome::{is_failure, payload_of, Outcome};
use crate::packed::{append, be_bytes, lemma_be_bytes_injective, lemma_packed_apart, to_be_bytes};
use crate::pubkey::Pubkey;
use crate::response::{
    address_of_key, authentic, ethereum_address, lemma_authentic_for_one_address, response_hash,
    verify_response,
};
use crate::signature::Signature;
use vstd::prelude::*;
use vstd::utf8::{decode_utf8, encode_utf8, encode_utf8_decode_utf8};

verus! {

/// The path of the key that signs responses.
pub const RESPONSE_DERIVATION_PATH: &'static str = "solana response key";

/// The point `root + tweak * G` of secp256k1, where `root` is a public key
/// as the 64 bytes of its two coordinates and `tweak` a scalar of 32 bytes,
/// or `None` where there is no such key.
///
/// The point is computed outside this crate and nothing is proved of it
/// here: the name stands for what the curve arithmetic returns.
pub uninterp spec fn tweaked_key(root: Seq<u8>, tweak: Seq<u8>) -> Option<Seq<u8>>;

/// Adds `tweak * G` to the public key `root` with `tweak_add_assign` of
/// `libsecp256k1::PublicKey`, having parsed `root` as a raw public key and
/// `tweak` as a secret key. Whether a key comes out, and which, depends on
/// the two arguments alone; a refusal of whatever kind gives `None`.
#[verifier::external_body]
fn tweak_add(root: &[u8; 64], tweak: &[u8; 32]) -> (key: Option<[u8; 64]>)
    ensures
        tweaked_key(root@, tweak@) == match key {
            Some(bytes) => Some(bytes@),
            None => None,
        },
{
    let format = Some(libsecp256k1::PublicKeyFormat::Raw);
    let mut point = libsecp256k1::PublicKey::parse_slice(root, format).ok()?;
    let scalar = libsecp256k1::SecretKey::parse(tweak).ok()?;
    point.tweak_add_assign(&scalar).ok()?;
    let mut bytes = [0u8; 64];
    bytes.copy_from_slice(&point.serialize()[1..65]);
    Some(bytes)
}

/// The bytes that are hashed to `epsilon`: the key version as four bytes,
/// the 32 bytes of the requester, and the path as UTF-8.
pub open spec fn epsilon_input_of(key_version: u32, requester: Seq<u8>, path: Seq<char>) -> Seq<u8> {
    be_bytes(key_version) + requester + encode_utf8(path)
}

/// The scalar `epsilon` of a requester's key for a path.
pub open spec fn epsilon_of(key_version: u32, requester: Seq<u8>, path: Seq<char>) -> Seq<u8> {
    keccak256(epsilon_input_of(key_version, requester, path))
}

/// The key of a requester for a path under the root key `root`.
pub open spec fn derived_key(
    root: Seq<u8>,
    key_version: u32,
    requester: Seq<u8>,
    path: Seq<char>,
) -> Option<Seq<u8>> {
    tweaked_key(root, epsilon_of(key_version, requester, path))
}

/// The address of the key of a requester for a path.
pub open spec fn derived_address(
    root: Seq<u8>,
    key_version: u32,
    requester: Seq<u8>,
    path: Seq<char>,
) -> Option<Seq<u8>> {
    match derived_key(root, key_version, requester, path) {
        Some(key) => Some(address_of_key(key)),
        None => None,
    }
}

/// Packs what `epsilon` is the digest of.
pub fn epsilon_input(key_version: u32, requester: &Pubkey, path: &str) -> (packed: Vec<u8>)
    ensures
        packed@ == epsilon_input_of(key_version, requester@, path@),
{
    let mut packed: Vec<u8> = Vec::new();
    let version = to_be_bytes(key_version);
    append(&mut packed, version.as_slice());
    append(&mut packed, requester.0.as_slice());
    append(&mut packed, path.as_bytes());
    packed
}

/// Computes the scalar `epsilon` of a requester's key for a path.
pub fn derive_epsilon(key_version: u32, requester: &Pubkey, path: &str) -> (epsilon: [u8; 32])
    ensures
        epsilon@ == epsilon_of(key_version, requester@, path@),
{
    let packed = epsilon_input(key_version, requester, path);
    hash(packed.as_slice())
}

/// Derives the key of a requester for a path: `root + epsilon * G`.
///
/// There is no such key where `root` is not a point of the curve, where
/// `epsilon` is zero or not less than the order of the curve's group, or
/// where the sum is the point at infinity.
pub fn derive_public_key(root: &[u8; 64], key_version: u32, requester: &Pubkey, path: &str) -> (key:
    Option<[u8; 64]>)
    ensures
        derived_key(root@, key_version, requester@, path@) == match key {
            Some(bytes) => Some(bytes@),
            None => None,
        },
{
    let epsilon = derive_epsilon(key_version, requester, path);
    tweak_add(root, &epsilon)
}

/// Derives the address of the key of a requester for a path.
pub fn derive_address(root: &[u8; 64], key_version: u32, requester: &Pubkey, path: &str) -> (address:
    Option<[u8; 20]>)
    ensures
        derived_address(root@, key_version, requester@, path@) == match address {
            Some(bytes) => Some(bytes@),
            None => None,
        },
{
    match derive_public_key(root, key_version, requester, path) {
        Some(key) => Some(ethereum_address(&key)),
        None => None,
    }
}

/// Derives the address of the key that signs the responses made out to a
/// requester.
pub fn response_address(root: &[u8; 64], key_version: u32, requester: &Pubkey) -> (address: Option<
    [u8; 20],
>)
    ensures
        derived_address(root@, key_version, requester@, RESPONSE_DERIVATION_PATH@) == match address {
            Some(bytes) => Some(bytes@),
            None => None,
        },
{
    derive_address(root, key_version, requester, RESPONSE_DERIVATION_PATH)
}

/// Whether a response to a request of `requester` is authentic: whether its
/// signature over the hash of the identifier and the output is that of the
/// requester's response key.
pub open spec fn authentic_response(
    root: Seq<u8>,
    key_version: u32,
    requester: Seq<u8>,
    request_id: Seq<u8>,
    serialized_output: Seq<u8>,
    signature: Signature,
) -> bool {
    match derived_address(root, key_version, requester, RESPONSE_DERIVATION_PATH@) {
        Some(address) => authentic(
            response_hash(request_id, serialized_output),
            signature,
            address,
        ),
        None => false,
    }
}

/// Authenticates a response to a request of `requester` and reads its
/// output.
///
/// The expected signer is the key derived from `root` for the requester,
/// the key version and the response path. A response that it has not
/// signed, or for which there is no such key, is refused; an accepted one is
/// read as a failure or as a success with its payload.
pub fn authenticate_response(
    root: &[u8; 64],
    key_version: u32,
    requester: &Pubkey,
    request_id: &[u8; 32],
    serialized_output: &[u8],
    signature: &Signature,
) -> (verified: Result<Outcome, VerificationError>)
    ensures
        match verified {
            Ok(Outcome::Failure) => {
                &&& authentic_response(
                    root@,
                    key_version,
                    requester@,
                    request_id@,
                    serialized_output@,
                    *signature,
                )
                &&& is_failure(serialized_output@)
            },
            Ok(Outcome::Success(payload)) => {
                &&& authentic_response(
                    root@,
                    key_version,
                    requester@,
                    request_id@,
                    serialized_output@,
                    *signature,
                )
                &&& !is_failure(serialized_output@)
                &&& payload@ == payload_of(serialized_output@)
            },
            Err(error) => {
                &&& !authentic_response(
                    root@,
                    key_version,
                    requester@,
                    request_id@,
                    serialized_output@,
                    *signature,
                )
                &&& error == VerificationError::InvalidSignature
            },
        },
{
    match response_address(root, key_version, requester) {
        Some(address) => verify_response(request_id, serialized_output, signature, &address),
        None => Err(VerificationError::InvalidSignature),
    }
}

/// Different key versions, requesters or paths are hashed from different
/// bytes, so that only a collision of the hash can give them one `epsilon`.
pub proof fn lemma_epsilon_input_injective(
    key_version: u32,
    requester: Seq<u8>,
    path: Seq<char>,
    other_version: u32,
    other_requester: Seq<u8>,
    other_path: Seq<char>,
)
    requires
        requester.len() == 32,
        other_requester.len() == 32,
        epsilon_input_of(key_version, requester, path) == epsilon_input_of(
            other_version,
            other_requester,
            other_path,
        ),
    ensures
        key_version == other_version,
        requester == other_requester,
        path == other_path,
{
    lemma_packed_apart(
        be_bytes(key_version) + requester,
        encode_utf8(path),
        be_bytes(other_version) + other_requester,
        encode_utf8(other_path),
    );
    lemma_packed_apart(be_bytes(key_version), requester, be_bytes(other_version), other_requester);
    lemma_be_bytes_injective(key_version, other_version);
    encode_utf8_decode_utf8(path);
    encode_utf8_decode_utf8(other_path);
    assert(path == decode_utf8(encode_utf8(path)));
}

/// A signature made with the key for one path does not pass for the key of
/// another path with another address, be the requester and the key version
/// the same.
pub proof fn lemma_signature_bound_to_path(
    root: Seq<u8>,
    key_version: u32,
    requester: Seq<u8>,
    path: Seq<char>,
    other_path: Seq<char>,
    message_hash: Seq<u8>,
    signature: Signature,
)
    requires
        derived_address(root, key_version, requester, path) matches Some(address) && authentic(
            message_hash,
            signature,
            address,
        ),
        derived_address(root, key_version, requester, other_path) != derived_address(
            root,
            key_version,
            requester,
            path,
        ),
    ensures
        derived_address(root, key_version, requester, other_path) matches Some(other) ==> !authentic(
            message_hash,
            signature,
            other,
        ),
{
    if let Some(other) = derived_address(root, key_version, requester, other_path) {
        lemma_authentic_for_one_address(
            message_hash,
            signature,
            derived_address(root, key_version, requester, path)->0,
            other,
        );
    }
}

} // verus!
