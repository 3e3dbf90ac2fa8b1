//! Byte buffers: the shared body of a prepared request, and a body that is
//! collected under a cap.

use bytes::Bytes;
use vstd::prelude::*;

verus! {

#[verifier::external_type_specification]
#[verifier::external_body]
pub struct ExBytes(bytes::Bytes);

/// The bytes that a `bytes::Bytes` holds.
pub uninterp spec fn bytes_of(buffer: bytes::Bytes) -> Seq<u8>;

/// `bytes::Bytes::new`: an empty buffer.
pub assume_specification[ bytes::Bytes::new ]() -> (buffer: Bytes)
    ensures
        bytes_of(buffer) == Seq::<u8>::empty(),
;

/// `bytes::Bytes::clone`: a buffer with the same bytes.
pub assume_specification[ <Bytes as Clone>::clone ](buffer: &Bytes) -> (copy: Bytes)
    ensures
        bytes_of(copy) == bytes_of(*buffer),
;

/// `bytes::Bytes::from` on a vector: a buffer with the bytes of the vector.
#[verifier::external_body]
pub(crate) fn freeze(bytes: Vec<u8>) -> (buffer: Bytes)
    ensures
        bytes_of(buffer) == bytes@,
{
    Bytes::from(bytes)
}

/// `bytes::Bytes::as_ref`: the bytes of the buffer.
#[verifier::external_body]
pub(crate) fn buffer_bytes(buffer: &Bytes) -> (bytes: &[u8])
    ensures
        bytes@ == bytes_of(*buffer),
{
    buffer.as_ref()
}

/// A body that is read chunk by chunk and never grows past its cap.
pub struct BoundedBody {
    collected: Vec<u8>,
    limit: usize,
}

/// What is collected once `chunks` have arrived under a cap of `limit` bytes, and
/// nothing once a chunk was refused.
pub open spec fn collected_from(chunks: Seq<Seq<u8>>, limit: nat) -> Option<Seq<u8>>
    decreases chunks.len(),
{
    if chunks.len() == 0 {
        Some(seq![])
    } else {
        match collected_from(chunks.drop_last(), limit) {
            Some(before) => grown(before, chunks.last(), limit),
            None => None,
        }
    }
}

/// `collected` with `chunk` behind it, where both fit in `limit` bytes.
pub open spec fn grown(collected: Seq<u8>, chunk: Seq<u8>, limit: nat) -> Option<Seq<u8>> {
    if collected.len() + chunk.len() <= limit {
        Some(collected + chunk)
    } else {
        None
    }
}

impl BoundedBody {
    /// Nothing collected is longer than the cap.
    #[verifier::type_invariant]
    pub closed spec fn well_formed(self) -> bool {
        self.collected@.len() <= self.limit
    }

    /// The cap.
    pub closed spec fn cap(self) -> nat {
        self.limit as nat
    }

    /// The bytes collected so far.
    pub closed spec fn view(self) -> Seq<u8> {
        self.collected@
    }

    /// An empty body under a cap of `limit` bytes.
    pub fn new(limit: usize) -> (body: Self)
        ensures
            body@ == Seq::<u8>::empty(),
            body.cap() == limit,
    {
        BoundedBody { collected: Vec::new(), limit }
    }

    /// Appends a chunk, or refuses it and keeps the body as it is.
    pub fn accept(&mut self, chunk: &[u8]) -> (accepted: bool)
        ensures
            final(self).cap() == old(self).cap(),
            accepted == (grown(old(self)@, chunk@, old(self).cap()) is Some),
            accepted ==> final(self)@ == old(self)@ + chunk@,
            !accepted ==> final(self)@ == old(self)@,
    {
        proof {
            use_type_invariant(&*self);
        }
        if chunk.len() > self.limit - self.collected.len() {
            return false;
        }
        let mut collected: Vec<u8> = Vec::new();
        std::mem::swap(&mut collected, &mut self.collected);
        let ghost before = collected@;
        collected.extend_from_slice(chunk);
        proof {
            assert(collected@ =~= before + chunk@);
        }
        self.collected = collected;
        true
    }

    /// The cap in bytes.
    pub fn limit(&self) -> (limit: usize)
        ensures
            limit == self.cap(),
    {
        self.limit
    }

    /// Hands the collected bytes out.
    pub fn into_bytes(self) -> (bytes: Vec<u8>)
        ensures
            bytes@ == self@,
            bytes@.len() <= self.cap(),
    {
        proof {
            use_type_invariant(&self);
        }
        self.collected
    }
}

/// All chunks together, one behind the other.
pub open spec fn concatenated(chunks: Seq<Seq<u8>>) -> Seq<u8>
    decreases chunks.len(),
{
    if chunks.len() == 0 {
        seq![]
    } else {
        concatenated(chunks.drop_last()) + chunks.last()
    }
}

/// A body is collected exactly when all its chunks together fit in the cap, and
/// it is then those chunks one behind the other.
pub proof fn law_collected_is_everything_within_the_cap(chunks: Seq<Seq<u8>>, limit: nat)
    ensures
        collected_from(chunks, limit) == (if concatenated(chunks).len() <= limit {
            Some(concatenated(chunks))
        } else {
            None
        }),
    decreases chunks.len(),
{
    if chunks.len() > 0 {
        law_collected_is_everything_within_the_cap(chunks.drop_last(), limit);
    }
}

} // verus!
