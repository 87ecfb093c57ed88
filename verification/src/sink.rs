//! The writer capture adapter: an in-memory sink for the native library's
//! push-style write callback. The native save routine hands the callback
//! chunks in order; the sink appends each chunk at the end, so the final
//! byte sequence is the chunks' concatenation with no reordering and no
//! gaps, however many times the callback runs (including none).

use vstd::prelude::*;

verus! {

/// A growable byte sequence fed by the serialization callback.
pub struct SaveSink {
    buffer: Vec<u8>,
}

impl SaveSink {
    /// The bytes accepted so far, in arrival order.
    pub closed spec fn bytes(self) -> Seq<u8> {
        self.buffer@
    }

    /// An empty sink.
    pub fn new() -> (s: SaveSink)
        ensures
            s.bytes() == Seq::<u8>::empty(),
    {
        SaveSink { buffer: Vec::new() }
    }

    /// Accept one chunk: the sink's bytes afterwards are exactly the old
    /// bytes followed by the chunk. An empty chunk changes nothing.
    pub fn accept(&mut self, chunk: &[u8])
        ensures
            final(self).bytes() == old(self).bytes() + chunk@,
    {
        self.buffer.extend_from_slice(chunk);
    }

    /// How many bytes have been accepted.
    pub fn len(&self) -> (n: usize)
        ensures
            n == self.bytes().len(),
    {
        self.buffer.len()
    }

    /// Hand the accumulated byte sequence out, consuming the sink.
    pub fn into_bytes(self) -> (r: Vec<u8>)
        ensures
            r@ == self.bytes(),
    {
        self.buffer
    }
}

/// Feeding a sink two chunks in order accumulates their concatenation:
/// chunks are never reordered and nothing is inserted between them.
pub proof fn lemma_sink_accumulates_in_order(
    s0: SaveSink,
    s1: SaveSink,
    s2: SaveSink,
    c1: Seq<u8>,
    c2: Seq<u8>,
)
    requires
        s1.bytes() == s0.bytes() + c1,
        s2.bytes() == s1.bytes() + c2,
    ensures
        s2.bytes() == s0.bytes() + (c1 + c2),
{
    assert((s0.bytes() + c1) + c2 =~= s0.bytes() + (c1 + c2));
}

} // verus!
