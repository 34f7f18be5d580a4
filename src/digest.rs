//! Content digests of serialized batches.
use vstd::prelude::*;

verus! {

/// Width of a batch digest in bytes.
pub const DIGEST_LEN: usize = 32;

/// The SHA-512 hash of a byte sequence.
pub uninterp spec fn sha512_of(b: Seq<u8>) -> Seq<u8>;

/// Relies on `ed25519_dalek::Sha512` (sha2's SHA-512) through the `Digest`
/// trait: the 64-byte hash of the input, a function of the bytes alone.
#[verifier::external_body]
fn sha512(bytes: &[u8]) -> (r: Vec<u8>)
    ensures
        r@ == sha512_of(bytes@),
        r@.len() == 64,
{
    <ed25519_dalek::Sha512 as ed25519_dalek::Digest>::digest(bytes).to_vec()
}

/// The digest of a batch: the first 32 bytes of the SHA-512 hash of its exact
/// serialized bytes.
pub open spec fn digest_of(b: Seq<u8>) -> Seq<u8> {
    sha512_of(b).subrange(0, DIGEST_LEN as int)
}

/// A fixed-width content digest, used as store key and batch identifier.
#[derive(Clone, Copy, Debug)]
pub struct Digest(pub [u8; 32]);

impl View for Digest {
    type V = Seq<u8>;

    open spec fn view(&self) -> Seq<u8> {
        self.0@
    }
}

impl Digest {
    /// Wraps 32 raw digest bytes.
    pub fn new(bytes: [u8; 32]) -> (d: Digest)
        ensures
            d@ == bytes@,
    {
        Digest(bytes)
    }

    /// The raw digest bytes.
    pub fn as_bytes(&self) -> (r: [u8; 32])
        ensures
            r@ == self@,
    {
        self.0
    }

    /// The digest bytes as a vector, the form in which it keys the store.
    pub fn to_vec(&self) -> (r: Vec<u8>)
        ensures
            r@ == self@,
    {
        let mut r: Vec<u8> = Vec::with_capacity(DIGEST_LEN);
        let mut i: usize = 0;
        while i < DIGEST_LEN
            invariant
                i <= DIGEST_LEN,
                self@.len() == DIGEST_LEN,
                r@ == self@.subrange(0, i as int),
            decreases DIGEST_LEN - i,
        {
            r.push(self.0[i]);
            i += 1;
        }
        assert(r@ == self@);
        r
    }
}

/// Computes the digest of a serialized batch.
pub fn batch_digest(batch: &[u8]) -> (d: Digest)
    ensures
        d@ == digest_of(batch@),
{
    let hash = sha512(batch);
    let mut bytes: [u8; 32] = [0u8; 32];
    let mut i: usize = 0;
    while i < DIGEST_LEN
        invariant
            i <= DIGEST_LEN,
            hash@ == sha512_of(batch@),
            hash@.len() == 64,
            bytes@.len() == DIGEST_LEN,
            forall|k: int| 0 <= k < i ==> bytes@[k] == hash@[k],
        decreases DIGEST_LEN - i,
    {
        bytes[i] = hash[i];
        i += 1;
    }
    assert(bytes@ == digest_of(batch@));
    Digest(bytes)
}

/// The digest is a function of the batch bytes alone: equal byte sequences
/// have equal 32-byte digests.
pub proof fn lemma_digest_deterministic(a: Seq<u8>, b: Seq<u8>)
    requires
        a == b,
    ensures
        digest_of(a) == digest_of(b),
{
}

} // verus!
