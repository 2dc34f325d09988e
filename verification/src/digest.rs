//! Streaming content-digest accumulator.
//!
//! The fingerprint is the 64-bit xxh3 content hash: it detects accidental
//! corruption or truncation during a transfer, and is not meant to resist
//! adversarial collisions.  The accumulator consumes byte chunks in order;
//! the finalized digest depends only on the concatenation of the chunks,
//! never on where the chunk boundaries fell.

use vstd::prelude::*;
use xxhash_rust::xxh3::Xxh3;

verus! {

/// The 64-bit fingerprint that the xxh3 algorithm (with its default seed and
/// secret) assigns to a byte sequence.  The algorithm itself is not restated
/// here; the only facts used are those stated by the trusted wrappers below.
pub uninterp spec fn xxh3_of(bytes: Seq<u8>) -> u64;

/// The ordered stream of bytes a hasher has absorbed since it was created.
/// This is the mathematical content of an `Xxh3` value: its state is a
/// function of the bytes fed to `update` (plus the fixed default seed), as
/// the crate's source shows.
pub uninterp spec fn absorbed(h: Xxh3) -> Seq<u8>;

#[verifier::external_type_specification]
#[verifier::external_body]
pub struct ExXxh3(Xxh3);

/// Relies on `xxhash_rust::xxh3::Xxh3::new`: a hasher in the start state,
/// with nothing absorbed yet.
#[verifier::external_body]
fn hasher_new() -> (h: Xxh3)
    ensures
        absorbed(h) == Seq::<u8>::empty(),
{
    Xxh3::new()
}

/// Relies on `xxhash_rust::xxh3::Xxh3::update`: folds the chunk into the
/// state, appending it to the absorbed stream; it never fails.
#[verifier::external_body]
fn hasher_update(h: &mut Xxh3, chunk: &[u8])
    ensures
        absorbed(*final(h)) == absorbed(*old(h)) + chunk@,
{
    h.update(chunk);
}

/// Relies on `xxhash_rust::xxh3::Xxh3::digest`: the 64-bit fingerprint of
/// the absorbed stream, a function of those bytes alone (the streaming state
/// is deterministic in its input, and `digest` reads only that state).
#[verifier::external_body]
fn hasher_digest(h: &Xxh3) -> (d: u64)
    ensures
        d == xxh3_of(absorbed(*h)),
{
    h.digest()
}

/// A streaming digest accumulator: feed byte chunks in order with `update`,
/// then obtain the fingerprint of everything fed with `finalize`.  A
/// finalized engine is spent; hashing again takes a fresh instance.
pub struct DigestEngine {
    hasher: Xxh3,
}

impl View for DigestEngine {
    type V = Seq<u8>;

    /// The bytes consumed so far, in order.
    closed spec fn view(&self) -> Seq<u8> {
        absorbed(self.hasher)
    }
}

impl DigestEngine {
    /// A fresh accumulator that has consumed nothing.
    pub fn new() -> (e: Self)
        ensures
            e@ == Seq::<u8>::empty(),
    {
        DigestEngine { hasher: hasher_new() }
    }

    /// Folds one chunk into the accumulator.  Pure in the bytes consumed so
    /// far; there is no failure mode.
    pub fn update(&mut self, chunk: &[u8])
        ensures
            final(self)@ == old(self)@ + chunk@,
    {
        hasher_update(&mut self.hasher, chunk);
    }

    /// The fingerprint of every byte consumed, in order.  Consumes the
    /// engine: a fresh instance is required to hash again.
    pub fn finalize(self) -> (d: u64)
        ensures
            d == xxh3_of(self@),
    {
        hasher_digest(&self.hasher)
    }
}

/// The digest an engine reports after consuming `chunks` one `update` at a
/// time: the fingerprint of their concatenation, wherever the boundaries lie.
pub open spec fn digest_of_chunks(chunks: Seq<Seq<u8>>) -> u64 {
    xxh3_of(chunks.flatten())
}

/// Chunk-boundary independence: any two chunkings of the same byte sequence
/// yield the same digest.  In particular a digest computed via chunked
/// updates equals the digest of the whole sequence in a single update.
pub proof fn lemma_digest_chunk_independence(c1: Seq<Seq<u8>>, c2: Seq<Seq<u8>>)
    requires
        c1.flatten() == c2.flatten(),
    ensures
        digest_of_chunks(c1) == digest_of_chunks(c2),
{
}

/// A single-chunk chunking digests to the fingerprint of that chunk.
pub proof fn lemma_digest_single_chunk(s: Seq<u8>)
    ensures
        digest_of_chunks(seq![s]) == xxh3_of(s),
{
    seq![s].lemma_flatten_one_element();
}

/// Hashes `data` in one pass of bounded-size reads: the standalone
/// read-and-hash primitive, used both by the verification phase and as a
/// general integrity check.
pub fn digest_bytes(data: &[u8], chunk_size: usize) -> (d: u64)
    requires
        chunk_size >= 1,
    ensures
        d == xxh3_of(data@),
{
    let mut engine = DigestEngine::new();
    let len: usize = data.len();
    let mut pos: usize = 0;
    while pos < len
        invariant
            pos <= len,
            len == data@.len(),
            chunk_size >= 1,
            engine@ == data@.subrange(0, pos as int),
        decreases len - pos,
    {
        let end: usize = if len - pos < chunk_size {
            len
        } else {
            pos + chunk_size
        };
        let chunk = vstd::slice::slice_subrange(data, pos, end);
        engine.update(chunk);
        proof {
            assert(data@.subrange(0, pos as int) + data@.subrange(pos as int, end as int) =~= data@.subrange(0, end as int));
        }
        pos = end;
    }
    proof {
        assert(data@.subrange(0, len as int) =~= data@);
    }
    engine.finalize()
}

/// Hashes an explicit list of chunks through one engine, one `update` per
/// chunk: the digest of their concatenation.
pub fn digest_chunk_list(chunks: &Vec<Vec<u8>>) -> (d: u64)
    ensures
        d == digest_of_chunks(chunks@.map_values(|c: Vec<u8>| c@)),
{
    let ghost views = chunks@.map_values(|c: Vec<u8>| c@);
    let mut engine = DigestEngine::new();
    let mut i: usize = 0;
    while i < chunks.len()
        invariant
            i <= chunks@.len(),
            views == chunks@.map_values(|c: Vec<u8>| c@),
            engine@ == views.take(i as int).flatten(),
        decreases chunks@.len() - i,
    {
        engine.update(chunks[i].as_slice());
        proof {
            views.take(i as int).lemma_flatten_push(views[i as int]);
            assert(views.take(i as int).push(views[i as int]) =~= views.take(i + 1));
        }
        i = i + 1;
    }
    proof {
        assert(views.take(chunks@.len() as int) =~= views);
    }
    engine.finalize()
}

} // verus!
