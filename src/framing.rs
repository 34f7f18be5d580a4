//! The shared message framing: the batch message that workers exchange and
//! the digest notifications that a worker sends to its primary.
use crate::digest::Digest;
use vstd::prelude::*;

verus! {

/// Identifier of a worker within its node.
pub type WorkerId = u32;

/// Variant index of the batch message in the worker message framing.
pub const BATCH_TAG: u32 = 0;

/// Variant index of a notification for a batch that this node assembled.
pub const OWN_BATCH_TAG: u32 = 0;

/// Variant index of a notification for a batch received from a peer.
pub const FOREIGN_BATCH_TAG: u32 = 1;

#[verifier::external_type_specification]
#[verifier::external_body]
pub struct ExBincodeErrorKind(bincode::ErrorKind);

/// Little-endian bytes of a 32-bit integer.
pub open spec fn le32(x: u32) -> Seq<u8> {
    seq![
        (x % 256) as u8,
        ((x / 256) % 256) as u8,
        ((x / 65536) % 256) as u8,
        ((x / 16777216) % 256) as u8,
    ]
}

/// Relies on `bincode::serialize` (fixed-width little-endian integers, tuples
/// and arrays without a length prefix) applied to `(tag, digest, worker)`.
/// With no byte limit and a `Vec` as destination it does not fail on this
/// value.
#[verifier::external_body]
fn bincode_encode_tagged_digest(tag: u32, digest: [u8; 32], worker: u32) -> (r: Result<
    Vec<u8>,
    Box<bincode::ErrorKind>,
>)
    ensures
        r is Ok,
        r->Ok_0@ == le32(tag) + digest@ + le32(worker),
{
    bincode::serialize(&(tag, digest, worker))
}

/// Little-endian bytes of a 64-bit length.
pub open spec fn le64(x: nat) -> Seq<u8> {
    seq![
        (x % 0x100) as u8,
        ((x / 0x100) % 0x100) as u8,
        ((x / 0x10000) % 0x100) as u8,
        ((x / 0x1000000) % 0x100) as u8,
        ((x / 0x100000000) % 0x100) as u8,
        ((x / 0x10000000000) % 0x100) as u8,
        ((x / 0x1000000000000) % 0x100) as u8,
        ((x / 0x100000000000000) % 0x100) as u8,
    ]
}

/// Whether the number of byte strings and each of their lengths fit in the
/// 64-bit length prefixes of the framing.
pub open spec fn lengths_fit(txs: Seq<Seq<u8>>) -> bool {
    &&& txs.len() < 0x10000000000000000
    &&& forall|i: int| 0 <= i < txs.len() ==> #[trigger] txs[i].len() < 0x10000000000000000
}

/// The byte strings one after the other, each behind its 64-bit length.
pub open spec fn items_frame(txs: Seq<Seq<u8>>) -> Seq<u8>
    decreases txs.len(),
{
    if txs.len() == 0 {
        seq![]
    } else {
        items_frame(txs.drop_last()) + le64(txs.last().len()) + txs.last()
    }
}

/// A worker message with variant index `tag` holding the byte strings `txs`:
/// the index, the number of strings, then the strings.
pub open spec fn tagged_batch_frame(tag: u32, txs: Seq<Seq<u8>>) -> Seq<u8> {
    le32(tag) + le64(txs.len()) + items_frame(txs)
}

/// What `bincode::deserialize::<(u32, Vec<Vec<u8>>)>` makes of a byte
/// sequence: `None` where it fails.
pub uninterp spec fn tagged_batch_decoding(b: Seq<u8>) -> Option<(u32, Seq<Seq<u8>>)>;

/// Relies on `bincode::deserialize` of a variant index followed by a sequence
/// of byte strings; its result depends on the bytes alone. Integers are
/// fixed-width little-endian, sequences carry a 64-bit length, and bytes after
/// the value are allowed.
#[verifier::external_body]
fn bincode_decode_tagged_batch(bytes: &[u8]) -> (r: Result<
    (u32, Vec<Vec<u8>>),
    Box<bincode::ErrorKind>,
>)
    ensures
        match r {
            Ok(v) => tagged_batch_decoding(bytes@) == Some((v.0, v.1.deep_view())),
            Err(_) => tagged_batch_decoding(bytes@) is None,
        },
        forall|tag: u32, txs: Seq<Seq<u8>>|
            #![trigger tagged_batch_frame(tag, txs)]
            lengths_fit(txs) && tagged_batch_frame(tag, txs).is_prefix_of(bytes@) ==> r is Ok
                && r->Ok_0.0 == tag && r->Ok_0.1.deep_view() == txs,
{
    bincode::deserialize(bytes)
}

/// Failures of the message framing.
#[derive(Clone, Copy, Debug, PartialEq, Eq, Structural)]
pub enum FramingError {
    /// A message could not be serialized.
    Encode,
    /// The bytes are not a well-formed worker message.
    Decode,
    /// The bytes decode to a worker message other than a batch; holds its
    /// variant index.
    UnexpectedVariant(u32),
}

/// The ordered transactions of a serialized batch message, or `None` where
/// the bytes are not one.
pub open spec fn batch_transactions(b: Seq<u8>) -> Option<Seq<Seq<u8>>> {
    match tagged_batch_decoding(b) {
        Some(m) => if m.0 == BATCH_TAG {
            Some(m.1)
        } else {
            None
        },
        None => None,
    }
}

/// The variant index of a decodable worker message.
pub open spec fn decoded_tag(b: Seq<u8>) -> Option<u32> {
    match tagged_batch_decoding(b) {
        Some(m) => Some(m.0),
        None => None,
    }
}

/// Decodes a serialized batch message into its ordered transactions.
pub fn decode_batch(bytes: &[u8]) -> (r: Result<Vec<Vec<u8>>, FramingError>)
    ensures
        r is Ok <==> batch_transactions(bytes@) is Some,
        match r {
            Ok(txs) => batch_transactions(bytes@) == Some(txs.deep_view()),
            Err(FramingError::Decode) => tagged_batch_decoding(bytes@) is None,
            Err(FramingError::UnexpectedVariant(t)) => decoded_tag(bytes@) == Some(t) && t
                != BATCH_TAG,
            Err(FramingError::Encode) => false,
        },
        forall|txs: Seq<Seq<u8>>|
            #![trigger tagged_batch_frame(BATCH_TAG, txs)]
            lengths_fit(txs) && tagged_batch_frame(BATCH_TAG, txs).is_prefix_of(bytes@) ==> r is Ok
                && r->Ok_0.deep_view() == txs,
{
    match bincode_decode_tagged_batch(bytes) {
        Ok(m) => if m.0 == BATCH_TAG {
            Ok(m.1)
        } else {
            Err(FramingError::UnexpectedVariant(m.0))
        },
        Err(_) => Err(FramingError::Decode),
    }
}

/// The notification that announces a stored batch to the primary.
#[derive(Clone, Copy, Debug)]
pub enum DigestNotification {
    /// A batch that this node assembled.
    OwnBatch(Digest, WorkerId),
    /// A batch received from another node.
    ForeignBatch(Digest, WorkerId),
}

impl DigestNotification {
    /// Whether the notification is for a batch of this node.
    pub open spec fn is_own(self) -> bool {
        self is OwnBatch
    }

    /// The announced digest.
    pub open spec fn digest_view(self) -> Seq<u8> {
        match self {
            DigestNotification::OwnBatch(d, _) => d@,
            DigestNotification::ForeignBatch(d, _) => d@,
        }
    }

    /// The worker that stored the batch.
    pub open spec fn worker_view(self) -> WorkerId {
        match self {
            DigestNotification::OwnBatch(_, w) => w,
            DigestNotification::ForeignBatch(_, w) => w,
        }
    }

    /// The variant index under which the notification is framed.
    pub open spec fn tag(self) -> u32 {
        if self.is_own() {
            OWN_BATCH_TAG
        } else {
            FOREIGN_BATCH_TAG
        }
    }

    /// The serialized notification: variant index, digest, worker id.
    pub open spec fn frame(self) -> Seq<u8> {
        le32(self.tag()) + self.digest_view() + le32(self.worker_view())
    }

    /// Builds the notification for a batch of this node (`own`) or of a peer.
    pub fn new(own: bool, digest: Digest, worker: WorkerId) -> (n: DigestNotification)
        ensures
            n.is_own() == own,
            n.digest_view() == digest@,
            n.worker_view() == worker,
    {
        if own {
            DigestNotification::OwnBatch(digest, worker)
        } else {
            DigestNotification::ForeignBatch(digest, worker)
        }
    }

    /// Whether the notification is for a batch of this node.
    pub fn is_own_batch(&self) -> (r: bool)
        ensures
            r == self.is_own(),
    {
        match self {
            DigestNotification::OwnBatch(_, _) => true,
            DigestNotification::ForeignBatch(_, _) => false,
        }
    }

    /// The announced digest.
    pub fn digest(&self) -> (d: Digest)
        ensures
            d@ == self.digest_view(),
    {
        match self {
            DigestNotification::OwnBatch(d, _) => *d,
            DigestNotification::ForeignBatch(d, _) => *d,
        }
    }

    /// The worker that stored the batch.
    pub fn worker(&self) -> (w: WorkerId)
        ensures
            w == self.worker_view(),
    {
        match self {
            DigestNotification::OwnBatch(_, w) => *w,
            DigestNotification::ForeignBatch(_, w) => *w,
        }
    }

    /// Serializes the notification into its frame.
    pub fn encode(&self) -> (r: Result<Vec<u8>, FramingError>)
        ensures
            r is Ok,
            match r {
                Ok(bytes) => bytes@ == self.frame(),
                Err(e) => e == FramingError::Encode,
            },
    {
        let tag = if self.is_own_batch() {
            OWN_BATCH_TAG
        } else {
            FOREIGN_BATCH_TAG
        };
        let digest = self.digest();
        match bincode_encode_tagged_digest(tag, digest.0, self.worker()) {
            Ok(bytes) => Ok(bytes),
            Err(_) => Err(FramingError::Encode),
        }
    }
}

} // verus!
