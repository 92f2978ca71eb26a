//! Request ingest: accumulating streamed body chunks into one contiguous
//! buffer, in arrival order, under a configured payload-size bound.

use vstd::prelude::*;

verus! {

/// Why ingest failed for a part.
#[derive(Clone, Copy, PartialEq, Eq, Structural, Debug)]
pub enum IngestError {
    /// The accumulated bytes would exceed the configured maximum.
    PayloadTooLarge,
    /// The client disconnected before the part's body ended.
    ConnectionDropped,
}

/// A per-part accumulation buffer bounded by `max_bytes`.
pub struct IngestBuffer {
    pub bytes: Vec<u8>,
    pub max_bytes: usize,
}

impl IngestBuffer {
    /// An empty buffer that accepts at most `max_bytes` bytes in total.
    pub fn new(max_bytes: usize) -> (r: Self)
        ensures
            r.bytes@ == Seq::<u8>::empty(),
            r.max_bytes == max_bytes,
    {
        IngestBuffer { bytes: Vec::new(), max_bytes }
    }

    /// Appends one arrived chunk, or rejects the whole part with
    /// `PayloadTooLarge` (leaving the buffer unchanged) exactly when the
    /// accumulated length would exceed the bound.
    pub fn push_chunk(&mut self, chunk: &Vec<u8>) -> (r: Result<(), IngestError>)
        ensures
            (r is Ok) <==> old(self).bytes@.len() + chunk@.len() <= old(self).max_bytes,
            r is Ok ==> final(self).bytes@ == old(self).bytes@ + chunk@,
            r is Err ==> *final(self) == *old(self),
            r matches Err(e) ==> e == IngestError::PayloadTooLarge,
            final(self).max_bytes == old(self).max_bytes,
    {
        if self.bytes.len() > self.max_bytes || chunk.len() > self.max_bytes - self.bytes.len() {
            return Err(IngestError::PayloadTooLarge);
        }
        let mut i: usize = 0;
        while i < chunk.len()
            invariant
                i <= chunk@.len(),
                self.bytes@ == old(self).bytes@ + chunk@.take(i as int),
                self.max_bytes == old(self).max_bytes,
                old(self).bytes@.len() + chunk@.len() <= old(self).max_bytes,
            decreases chunk@.len() - i,
        {
            self.bytes.push(chunk[i]);
            i = i + 1;
            proof {
                assert(old(self).bytes@ + chunk@.take(i as int) =~= (old(self).bytes@
                    + chunk@.take(i as int - 1)).push(chunk@[i as int - 1]));
            }
        }
        proof {
            assert(old(self).bytes@ + chunk@.take(chunk@.len() as int) =~= old(self).bytes@
                + chunk@);
        }
        Ok(())
    }

    /// Hands the accumulated bytes over, ending the part's ingest.
    pub fn into_bytes(self) -> (r: Vec<u8>)
        ensures
            r == self.bytes,
    {
        self.bytes
    }
}

} // verus!
