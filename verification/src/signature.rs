//! Signatures as the signing network hands them over.

use vstd::prelude::*;

verus! {

/// A point of the secp256k1 curve in affine coordinates. The `R` of a
/// signature is such a point; it takes 64 bytes.
#[derive(Clone, Copy, Debug, PartialEq, Eq)]
pub struct AffinePoint {
    /// The x coordinate, big-endian.
    pub x: [u8; 32],
    /// The y coordinate, big-endian.
    pub y: [u8; 32],
}

/// An ECDSA signature over secp256k1, 97 bytes in all.
///
/// The usual `r` of the signature is the x coordinate of `big_r`.
#[derive(Clone, Copy, Debug, PartialEq, Eq)]
pub struct Signature {
    /// The point `R` of the signature.
    pub big_r: AffinePoint,
    /// The scalar `s`, big-endian.
    pub s: [u8; 32],
    /// Which of the candidate public keys the signature recovers to.
    pub recovery_id: u8,
}

impl Signature {
    /// The signature in its compact form of 64 bytes: the x coordinate of
    /// `R`, then `s`.
    pub open spec fn compact(self) -> Seq<u8> {
        self.big_r.x@ + self.s@
    }

    /// Writes the signature in its compact form.
    pub fn to_compact(&self) -> (bytes: [u8; 64])
        ensures
            bytes@ == self.compact(),
    {
        let mut bytes: [u8; 64] = [0u8; 64];
        let mut i: usize = 0;
        while i < 32
            invariant
                i <= 32,
                forall|j: int| 0 <= j < i ==> bytes@[j] == self.big_r.x@[j],
                forall|j: int| 0 <= j < i ==> bytes@[32 + j] == self.s@[j],
            decreases 32 - i,
        {
            bytes[i] = self.big_r.x[i];
            bytes[32 + i] = self.s[i];
            i += 1;
        }
        assert(bytes@ =~= self.compact());
        bytes
    }
}

/// What the signing network reports of a request that it could not serve.
#[derive(Clone, Debug, PartialEq, Eq)]
pub struct ErrorResponse {
    /// The identifier of the failed request.
    pub request_id: [u8; 32],
    /// A description for a human reader.
    pub error_message: String,
}

} // verus!
