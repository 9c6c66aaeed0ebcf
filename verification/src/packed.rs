//! Packing values into the bytes that are hashed.
//!
//! Packed values follow one another with nothing in between: no value is
//! preceded by its length, and nothing separates two values.

use vstd::prelude::*;

verus! {

/// The four bytes of `value`, the most significant first.
pub open spec fn be_bytes(value: u32) -> Seq<u8> {
    seq![
        (value / 0x100_0000) as u8,
        (value / 0x1_0000 % 0x100) as u8,
        (value / 0x100 % 0x100) as u8,
        (value % 0x100) as u8,
    ]
}

/// Writes `value` as four bytes, the most significant first.
pub fn to_be_bytes(value: u32) -> (bytes: [u8; 4])
    ensures
        bytes@ == be_bytes(value),
{
    let bytes: [u8; 4] = [
        (value / 0x100_0000) as u8,
        (value / 0x1_0000 % 0x100) as u8,
        (value / 0x100 % 0x100) as u8,
        (value % 0x100) as u8,
    ];
    assert(bytes@ =~= be_bytes(value));
    bytes
}

/// Appends `bytes` to `buffer`.
pub fn append(buffer: &mut Vec<u8>, bytes: &[u8])
    ensures
        final(buffer)@ == old(buffer)@ + bytes@,
{
    let mut i: usize = 0;
    while i < bytes.len()
        invariant
            i <= bytes@.len(),
            buffer@ == old(buffer)@ + bytes@.subrange(0, i as int),
        decreases bytes@.len() - i,
    {
        buffer.push(bytes[i]);
        i += 1;
    }
    assert(bytes@.subrange(0, bytes@.len() as int) == bytes@);
}

/// Different values have different bytes.
pub proof fn lemma_be_bytes_injective(a: u32, b: u32)
    requires
        be_bytes(a) == be_bytes(b),
    ensures
        a == b,
{
    assert(be_bytes(a)[0] == be_bytes(b)[0]);
    assert(be_bytes(a)[1] == be_bytes(b)[1]);
    assert(be_bytes(a)[2] == be_bytes(b)[2]);
    assert(be_bytes(a)[3] == be_bytes(b)[3]);
}

/// Where two values are packed behind two others of one length, the packed
/// bytes agree only if the values do.
pub proof fn lemma_packed_apart(head: Seq<u8>, tail: Seq<u8>, other_head: Seq<u8>, other_tail: Seq<u8>)
    requires
        head.len() == other_head.len(),
        head + tail == other_head + other_tail,
    ensures
        head == other_head,
        tail == other_tail,
{
    let packed = head + tail;
    let other = other_head + other_tail;
    assert(packed.len() == other.len());
    assert(tail.len() == other_tail.len());
    assert forall|i: int| 0 <= i < head.len() implies head[i] == other_head[i] by {
        assert(packed[i] == head[i]);
        assert(other[i] == other_head[i]);
    }
    assert(head =~= other_head);
    assert forall|i: int| 0 <= i < tail.len() implies tail[i] == other_tail[i] by {
        assert(packed[head.len() + i] == tail[i]);
        assert(other[other_head.len() + i] == other_tail[i]);
    }
    assert(tail =~= other_tail);
}

} // verus!
