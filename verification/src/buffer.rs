//! The per-connection buffer: a fixed-length byte array, freshly zeroed for
//! each connection and filled by a single read.

use vstd::prelude::*;

verus! {

/// Length in bytes of the per-connection buffer.
pub const BUFFER_LEN: usize = 1024;

/// The buffer after a single read delivered `data`: its first
/// `min(|data|, BUFFER_LEN)` bytes are the corresponding bytes of `data`,
/// and every byte after those is zero.
pub open spec fn buffer_model(data: Seq<u8>) -> Seq<u8> {
    Seq::new(BUFFER_LEN as nat, |i: int| if i < data.len() { data[i] } else { 0u8 })
}

/// Build the connection buffer for a read that delivered `data`.
pub fn fill_connection_buffer(data: &[u8]) -> (buf: Vec<u8>)
    ensures
        buf@ == buffer_model(data@),
{
    let mut buf: Vec<u8> = Vec::new();
    let mut i: usize = 0;
    while i < BUFFER_LEN
        invariant
            i <= BUFFER_LEN,
            buf@.len() == i,
            forall|j: int| 0 <= j < i ==> buf@[j] == buffer_model(data@)[j],
        decreases BUFFER_LEN - i,
    {
        if i < data.len() {
            buf.push(data[i]);
        } else {
            buf.push(0u8);
        }
        i = i + 1;
    }
    proof {
        assert(buf@ =~= buffer_model(data@));
    }
    buf
}

/// A payload that fits in the buffer is captured whole: the buffer's first
/// `|data|` bytes equal the payload and the rest of its `BUFFER_LEN` bytes
/// are zero.
pub proof fn lemma_buffer_short_payload(data: Seq<u8>)
    requires
        data.len() <= BUFFER_LEN,
    ensures
        buffer_model(data).len() == BUFFER_LEN,
        forall|i: int| 0 <= i < data.len() ==> buffer_model(data)[i] == data[i],
        forall|i: int| data.len() <= i < BUFFER_LEN ==> buffer_model(data)[i] == 0u8,
{
}

/// A payload longer than the buffer is truncated: the buffer holds exactly
/// the first `BUFFER_LEN` bytes sent, with no padding.
pub proof fn lemma_buffer_long_payload(data: Seq<u8>)
    requires
        data.len() >= BUFFER_LEN,
    ensures
        buffer_model(data) == data.subrange(0, BUFFER_LEN as int),
{
    assert(buffer_model(data) =~= data.subrange(0, BUFFER_LEN as int));
}

} // verus!
