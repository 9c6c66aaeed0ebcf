//! How the output of a remote action tells success from failure.
//!
//! A failed action is reported as an output that begins with four reserved
//! bytes. Any other output reports success and is the payload, in the form
//! that the request's response schema describes. A successful action that
//! returns nothing, such as a plain transfer of value, has an empty payload;
//! so has every output of fewer than four bytes.

use vstd::prelude::*;

verus! {

/// The four bytes that begin the output of a failed action.
pub const MAGIC_ERROR_PREFIX: [u8; 4] = [0xde, 0xad, 0xbe, 0xef];

/// The reserved bytes, as a sequence.
pub open spec fn magic_prefix() -> Seq<u8> {
    MAGIC_ERROR_PREFIX@
}

/// Whether `output` reports a failed action: whether it begins with the
/// reserved bytes.
pub open spec fn is_failure(output: Seq<u8>) -> bool {
    output.len() >= 4 && output.subrange(0, 4) == magic_prefix()
}

/// The payload of an output that reports success.
pub open spec fn payload_of(output: Seq<u8>) -> Seq<u8> {
    if output.len() < 4 {
        Seq::empty()
    } else {
        output
    }
}

/// What a remote action came to.
#[derive(Clone, Debug, PartialEq, Eq)]
pub enum Outcome {
    /// The action succeeded and returned this payload.
    Success(Vec<u8>),
    /// The action failed.
    Failure,
}

/// Tells whether `output` reports a failed action.
pub fn is_error_response(output: &[u8]) -> (failed: bool)
    ensures
        failed == is_failure(output@),
{
    if output.len() < 4 {
        return false;
    }
    let failed = output[0] == MAGIC_ERROR_PREFIX[0] && output[1] == MAGIC_ERROR_PREFIX[1]
        && output[2] == MAGIC_ERROR_PREFIX[2] && output[3] == MAGIC_ERROR_PREFIX[3];
    assert(failed == (output@.subrange(0, 4) =~= magic_prefix())) by {
        let head = output@.subrange(0, 4);
        assert(head[0] == output@[0] && head[1] == output@[1] && head[2] == output@[2] && head[3]
            == output@[3]);
    }
    failed
}

/// Reads an output: failure first, and only then the payload.
pub fn parse_response(output: &[u8]) -> (outcome: Outcome)
    ensures
        match outcome {
            Outcome::Failure => is_failure(output@),
            Outcome::Success(payload) => !is_failure(output@) && payload@ == payload_of(output@),
        },
{
    if is_error_response(output) {
        return Outcome::Failure;
    }
    let mut payload: Vec<u8> = Vec::new();
    if output.len() >= 4 {
        let mut i: usize = 0;
        while i < output.len()
            invariant
                i <= output@.len(),
                payload@ == output@.subrange(0, i as int),
            decreases output@.len() - i,
        {
            payload.push(output[i]);
            i += 1;
        }
        assert(output@.subrange(0, output@.len() as int) == output@);
    }
    Outcome::Success(payload)
}

/// An output that begins with the reserved bytes reports failure, whatever
/// follows them.
pub proof fn lemma_magic_prefix_is_failure(rest: Seq<u8>)
    ensures
        is_failure(magic_prefix() + rest),
{
    assert((magic_prefix() + rest).subrange(0, 4) =~= magic_prefix());
}

/// An output of fewer than four bytes, the empty one among them, reports
/// success with an empty payload.
pub proof fn lemma_short_output_is_success(output: Seq<u8>)
    requires
        output.len() < 4,
    ensures
        !is_failure(output),
        payload_of(output) == Seq::<u8>::empty(),
{
}

/// An output reports failure exactly if its first four bytes are the
/// reserved ones, so bytes after the fourth never change what it reports.
pub proof fn lemma_failure_by_first_four_bytes(a: Seq<u8>, b: Seq<u8>)
    requires
        a.len() >= 4,
        b.len() >= 4,
        a.subrange(0, 4) == b.subrange(0, 4),
    ensures
        is_failure(a) == is_failure(b),
{
}

} // verus!
