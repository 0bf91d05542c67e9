//! A byte channel that collects everything written to it in an
//! internal `BytesMut` object.

use crate::buffers::{bytes_contents, bytes_mut_contents, freeze, new_bytes_mut, put_slice};
use vstd::prelude::*;

verus! {

/// A byte channel that collects everything written to it
pub struct BytesMutChannel {
    bytes: bytes::BytesMut,
}

impl BytesMutChannel {
    /// Everything written so far, in order.
    pub closed spec fn written(&self) -> Seq<u8> {
        bytes_mut_contents(self.bytes)
    }

    /// A channel that holds nothing yet.
    pub fn new() -> (t: Self)
        ensures
            t.written() == Seq::<u8>::empty(),
    {
        Self { bytes: new_bytes_mut() }
    }

    /// Everything written, as `Bytes`.
    pub fn into_bytes(self) -> (b: bytes::Bytes)
        ensures
            bytes_contents(b) == self.written(),
    {
        freeze(self.bytes)
    }

    /// `io::Write::write`: appends all of `buf` and reports its length.
    pub fn write(&mut self, buf: &[u8]) -> (r: Result<usize, std::io::Error>)
        requires
            old(self).written().len() + buf@.len() <= usize::MAX,
        ensures
            final(self).written() == old(self).written() + buf@,
            r matches Ok(n) && n == buf@.len(),
    {
        put_slice(&mut self.bytes, buf);
        Ok(buf.len())
    }

    /// `io::Write::flush`: nothing is buffered, so nothing happens.
    pub fn flush(&mut self) -> (r: Result<(), std::io::Error>)
        ensures
            final(self).written() == old(self).written(),
            r is Ok,
    {
        Ok(())
    }
}

/// After any number of writes to a channel that held nothing, with any
/// flushes between them (they change nothing), it holds the written bytes
/// joined in order: `states[i]` is the channel after the first `i` writes.
pub proof fn law_channel_collects_writes(states: Seq<BytesMutChannel>, writes: Seq<Seq<u8>>)
    requires
        states.len() == writes.len() + 1,
        states[0].written() == Seq::<u8>::empty(),
        forall|i: int|
            0 <= i < writes.len() ==> states[i + 1].written() == states[i].written()
                + #[trigger] writes[i],
    ensures
        states.last().written() == writes.flatten(),
{
    let n = writes.len() as int;
    assert forall|k: int| 0 <= k <= n implies #[trigger] states[k].written() == writes.take(
        k,
    ).flatten_alt() by {
        lemma_channel_prefix(states, writes, k);
    }
    assert(writes.take(n) =~= writes);
    writes.lemma_flatten_and_flatten_alt_are_equivalent();
}

proof fn lemma_channel_prefix(states: Seq<BytesMutChannel>, writes: Seq<Seq<u8>>, k: int)
    requires
        states.len() == writes.len() + 1,
        states[0].written() == Seq::<u8>::empty(),
        forall|i: int|
            0 <= i < writes.len() ==> states[i + 1].written() == states[i].written()
                + #[trigger] writes[i],
        0 <= k <= writes.len(),
    ensures
        states[k].written() == writes.take(k).flatten_alt(),
    decreases k,
{
    if k > 0 {
        lemma_channel_prefix(states, writes, k - 1);
        let t = writes.take(k);
        assert(t.drop_last() =~= writes.take(k - 1));
        assert(t.last() == writes[k - 1]);
        assert(states[k].written() == states[k - 1].written() + writes[k - 1]);
    } else {
        assert(writes.take(0).len() == 0);
    }
}

} // verus!
