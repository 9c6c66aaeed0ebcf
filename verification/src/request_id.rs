//! The identifier of a request.
//!
//! The identifier is the Keccak-256 digest of the request's fields, packed
//! one after the other in a fixed order. Requester and signer compute it
//! each on their own, so both must pack the very same bytes.
//!
//! Packed fields carry no lengths. Two requests whose fields differ can
//! therefore pack to the same bytes, where text moves from the end of one
//! field to the start of the next; requests whose fields agree in length
//! cannot.

use crate::events::{SignBidirectionalEvent, SignatureRequestedEvent};
use crate::keccak::{hash, keccak256};
use crate::packed::{append, be_bytes, lemma_be_bytes_injective, lemma_packed_apart, to_be_bytes};
use crate::pubkey::{base58_text, Pubkey};
use vstd::prelude::*;
use vstd::utf8::{decode_utf8, encode_utf8, encode_utf8_decode_utf8};

verus! {

/// One where `holds`, else zero.
pub open spec fn one_if(holds: bool) -> nat {
    if holds {
        1
    } else {
        0
    }
}

/// The fields of a request that its identifier covers.
pub struct RequestFields {
    /// The requester, as base58 text.
    pub sender: Seq<char>,
    /// The payload of a direct request, or the serialized transaction of a
    /// bidirectional one.
    pub data: Seq<u8>,
    /// The CAIP-2 identifier of the ledger of a direct request, or of the
    /// destination ledger of a bidirectional one.
    pub chain_id: Seq<char>,
    /// The epoch of the root key.
    pub key_version: u32,
    /// The derivation path.
    pub path: Seq<char>,
    /// The signing algorithm.
    pub algo: Seq<char>,
    /// The destination of the response.
    pub dest: Seq<char>,
    /// Further parameters.
    pub params: Seq<char>,
}

impl RequestFields {
    /// The fields packed: the bytes of each field follow those of the field
    /// before. Text is packed as its UTF-8 bytes, the key version as four
    /// bytes, the most significant first.
    pub open spec fn packed(self) -> Seq<u8> {
        encode_utf8(self.sender) + self.data + encode_utf8(self.chain_id) + be_bytes(
            self.key_version,
        ) + encode_utf8(self.path) + encode_utf8(self.algo) + encode_utf8(self.dest)
            + encode_utf8(self.params)
    }

    /// The identifier of the request with these fields.
    pub open spec fn request_id(self) -> Seq<u8> {
        keccak256(self.packed())
    }

    /// In how many of the eight fields `self` and `other` differ.
    pub open spec fn fields_differing(self, other: RequestFields) -> nat {
        one_if(self.sender != other.sender) + one_if(self.data != other.data) + one_if(
            self.chain_id != other.chain_id,
        ) + one_if(self.key_version != other.key_version) + one_if(self.path != other.path)
            + one_if(self.algo != other.algo) + one_if(self.dest != other.dest) + one_if(
            self.params != other.params,
        )
    }

    /// Whether each field takes as many bytes as the same field of `other`.
    pub open spec fn same_layout(self, other: RequestFields) -> bool {
        &&& encode_utf8(self.sender).len() == encode_utf8(other.sender).len()
        &&& self.data.len() == other.data.len()
        &&& encode_utf8(self.chain_id).len() == encode_utf8(other.chain_id).len()
        &&& encode_utf8(self.path).len() == encode_utf8(other.path).len()
        &&& encode_utf8(self.algo).len() == encode_utf8(other.algo).len()
        &&& encode_utf8(self.dest).len() == encode_utf8(other.dest).len()
        &&& encode_utf8(self.params).len() == encode_utf8(other.params).len()
    }
}

/// Packs the fields of a request into the bytes that are hashed.
pub fn pack_fields(
    sender: &str,
    data: &[u8],
    chain_id: &str,
    key_version: u32,
    path: &str,
    algo: &str,
    dest: &str,
    params: &str,
) -> (packed: Vec<u8>)
    ensures
        packed@ == (RequestFields {
            sender: sender@,
            data: data@,
            chain_id: chain_id@,
            key_version,
            path: path@,
            algo: algo@,
            dest: dest@,
            params: params@,
        }).packed(),
{
    let mut packed: Vec<u8> = Vec::new();
    append(&mut packed, sender.as_bytes());
    append(&mut packed, data);
    append(&mut packed, chain_id.as_bytes());
    let version = to_be_bytes(key_version);
    append(&mut packed, version.as_slice());
    append(&mut packed, path.as_bytes());
    append(&mut packed, algo.as_bytes());
    append(&mut packed, dest.as_bytes());
    append(&mut packed, params.as_bytes());
    packed
}

/// Computes the identifier of a request.
///
/// `transaction_data` is the payload of a direct request or the serialized
/// transaction of a bidirectional one, and `caip2_id` names the ledger of
/// the request or the destination ledger accordingly. The sender goes in as
/// base58 text.
pub fn generate_request_id(
    sender: &Pubkey,
    transaction_data: &[u8],
    caip2_id: &str,
    key_version: u32,
    path: &str,
    algo: &str,
    dest: &str,
    params: &str,
) -> (id: [u8; 32])
    ensures
        id@ == (RequestFields {
            sender: base58_text(sender@),
            data: transaction_data@,
            chain_id: caip2_id@,
            key_version,
            path: path@,
            algo: algo@,
            dest: dest@,
            params: params@,
        }).request_id(),
{
    let sender_text = sender.to_base58();
    let packed = pack_fields(
        sender_text.as_str(),
        transaction_data,
        caip2_id,
        key_version,
        path,
        algo,
        dest,
        params,
    );
    hash(packed.as_slice())
}

impl SignatureRequestedEvent {
    /// The fields of the request that its identifier covers.
    pub open spec fn fields(self) -> RequestFields {
        RequestFields {
            sender: base58_text(self.sender@),
            data: self.payload@,
            chain_id: self.chain_id@,
            key_version: self.key_version,
            path: self.path@,
            algo: self.algo@,
            dest: self.dest@,
            params: self.params@,
        }
    }

    /// Two records that agree in requester, payload, ledger, key version,
    /// path, algorithm, destination and parameters register requests with
    /// one identifier, whatever was paid and whoever paid it.
    pub proof fn lemma_request_id_by_request(self, other: SignatureRequestedEvent)
        requires
            self.sender == other.sender,
            self.payload == other.payload,
            self.chain_id@ == other.chain_id@,
            self.key_version == other.key_version,
            self.path@ == other.path@,
            self.algo@ == other.algo@,
            self.dest@ == other.dest@,
            self.params@ == other.params@,
        ensures
            self.fields() == other.fields(),
            self.fields().request_id() == other.fields().request_id(),
    {
    }

    /// The identifier of the request that this record registers.
    pub fn request_id(&self) -> (id: [u8; 32])
        ensures
            id@ == self.fields().request_id(),
    {
        generate_request_id(
            &self.sender,
            self.payload.as_slice(),
            self.chain_id.as_str(),
            self.key_version,
            self.path.as_str(),
            self.algo.as_str(),
            self.dest.as_str(),
            self.params.as_str(),
        )
    }
}

impl SignBidirectionalEvent {
    /// The fields of the request that its identifier covers.
    pub open spec fn fields(self) -> RequestFields {
        RequestFields {
            sender: base58_text(self.sender@),
            data: self.serialized_transaction@,
            chain_id: self.caip2_id@,
            key_version: self.key_version,
            path: self.path@,
            algo: self.algo@,
            dest: self.dest@,
            params: self.params@,
        }
    }

    /// Two records that agree in requester, transaction, destination
    /// ledger, key version, path, algorithm, destination and parameters
    /// register requests with one identifier, whatever was paid and whatever
    /// the schemas and the program to call back.
    pub proof fn lemma_request_id_by_request(self, other: SignBidirectionalEvent)
        requires
            self.sender == other.sender,
            self.serialized_transaction@ == other.serialized_transaction@,
            self.caip2_id@ == other.caip2_id@,
            self.key_version == other.key_version,
            self.path@ == other.path@,
            self.algo@ == other.algo@,
            self.dest@ == other.dest@,
            self.params@ == other.params@,
        ensures
            self.fields() == other.fields(),
            self.fields().request_id() == other.fields().request_id(),
    {
    }

    /// The identifier of the request that this record registers.
    pub fn request_id(&self) -> (id: [u8; 32])
        ensures
            id@ == self.fields().request_id(),
    {
        generate_request_id(
            &self.sender,
            self.serialized_transaction.as_slice(),
            self.caip2_id.as_str(),
            self.key_version,
            self.path.as_str(),
            self.algo.as_str(),
            self.dest.as_str(),
            self.params.as_str(),
        )
    }
}

/// Text is given by its UTF-8 bytes.
proof fn lemma_text_by_bytes(a: Seq<char>, b: Seq<char>)
    requires
        encode_utf8(a) == encode_utf8(b),
    ensures
        a == b,
{
    encode_utf8_decode_utf8(a);
    encode_utf8_decode_utf8(b);
    assert(a == decode_utf8(encode_utf8(a)));
}

/// The identifier depends on the fields alone: requests with the same
/// fields have the same identifier.
pub proof fn lemma_request_id_by_fields(a: RequestFields, b: RequestFields)
    requires
        a == b,
    ensures
        a.request_id() == b.request_id(),
{
}

/// A request that differs from another in exactly one field, be it by one
/// byte, is packed to different bytes, so that only a collision of the hash
/// can give the two one identifier.
pub proof fn lemma_one_field_changes_packed(a: RequestFields, b: RequestFields)
    requires
        a.fields_differing(b) == 1,
    ensures
        a.packed() != b.packed(),
{
    if a.packed() == b.packed() {
        assert(a.packed().len() == b.packed().len());
        assert(be_bytes(a.key_version).len() == be_bytes(b.key_version).len());
        assert(a.same_layout(b));
        lemma_packed_fields_injective(a, b);
        assert(a.fields_differing(b) == 0);
    }
}

/// Requests whose fields agree in length and differ in content are packed
/// to different bytes, so that only a collision of the hash can give them
/// one identifier.
pub proof fn lemma_packed_fields_injective(a: RequestFields, b: RequestFields)
    requires
        a.same_layout(b),
        a.packed() == b.packed(),
    ensures
        a == b,
{
    let a1 = encode_utf8(a.sender);
    let a2 = a1 + a.data;
    let a3 = a2 + encode_utf8(a.chain_id);
    let a4 = a3 + be_bytes(a.key_version);
    let a5 = a4 + encode_utf8(a.path);
    let a6 = a5 + encode_utf8(a.algo);
    let a7 = a6 + encode_utf8(a.dest);
    let b1 = encode_utf8(b.sender);
    let b2 = b1 + b.data;
    let b3 = b2 + encode_utf8(b.chain_id);
    let b4 = b3 + be_bytes(b.key_version);
    let b5 = b4 + encode_utf8(b.path);
    let b6 = b5 + encode_utf8(b.algo);
    let b7 = b6 + encode_utf8(b.dest);
    lemma_packed_apart(a7, encode_utf8(a.params), b7, encode_utf8(b.params));
    lemma_packed_apart(a6, encode_utf8(a.dest), b6, encode_utf8(b.dest));
    lemma_packed_apart(a5, encode_utf8(a.algo), b5, encode_utf8(b.algo));
    lemma_packed_apart(a4, encode_utf8(a.path), b4, encode_utf8(b.path));
    lemma_packed_apart(a3, be_bytes(a.key_version), b3, be_bytes(b.key_version));
    lemma_packed_apart(a2, encode_utf8(a.chain_id), b2, encode_utf8(b.chain_id));
    lemma_packed_apart(a1, a.data, b1, b.data);
    lemma_be_bytes_injective(a.key_version, b.key_version);
    lemma_text_by_bytes(a.sender, b.sender);
    lemma_text_by_bytes(a.chain_id, b.chain_id);
    lemma_text_by_bytes(a.path, b.path);
    lemma_text_by_bytes(a.algo, b.algo);
    lemma_text_by_bytes(a.dest, b.dest);
    lemma_text_by_bytes(a.params, b.params);
}

} // verus!
