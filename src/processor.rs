//! The batch digest processor: what a worker does with each batch it
//! receives. Each batch yields, in order, a write of the batch into the store
//! under its digest and the announcement of that digest to the primary.
use crate::digest::{batch_digest, digest_of, Digest};
use crate::framing::{
    batch_transactions, le32, DigestNotification, FramingError, WorkerId, FOREIGN_BATCH_TAG,
    OWN_BATCH_TAG,
};
use vstd::prelude::*;

verus! {

/// An action that the processor asks its runner to perform, in order.
#[derive(Debug)]
pub enum Effect {
    /// Write `value` into the store under the key `key`, and await the write.
    Persist { key: Digest, value: Vec<u8> },
    /// Send the serialized notification `message` to the primary.
    Announce { notification: DigestNotification, message: Vec<u8> },
}

/// The mathematical content of an [`Effect`].
pub enum EffectView {
    Persist { key: Seq<u8>, value: Seq<u8> },
    Announce { own: bool, digest: Seq<u8>, worker: WorkerId, message: Seq<u8> },
}

impl View for Effect {
    type V = EffectView;

    open spec fn view(&self) -> EffectView {
        match self {
            Effect::Persist { key, value } => EffectView::Persist { key: key@, value: value@ },
            Effect::Announce { notification, message } => EffectView::Announce {
                own: notification.is_own(),
                digest: notification.digest_view(),
                worker: notification.worker_view(),
                message: message@,
            },
        }
    }
}

/// The variant index of a notification for own (`true`) or foreign batches.
pub open spec fn notification_tag(own: bool) -> u32 {
    if own {
        OWN_BATCH_TAG
    } else {
        FOREIGN_BATCH_TAG
    }
}

/// What a processor of worker `worker`, configured for own batches or not,
/// does with the batch `b`: store it under its digest, then announce it.
pub open spec fn batch_effects(worker: WorkerId, own: bool, b: Seq<u8>) -> Seq<EffectView> {
    let d = digest_of(b);
    seq![
        EffectView::Persist { key: d, value: b },
        EffectView::Announce {
            own,
            digest: d,
            worker,
            message: le32(notification_tag(own)) + d + le32(worker),
        },
    ]
}

/// Hashes and stores batches, then announces their digests.
#[derive(Clone, Copy, Debug)]
pub struct Processor {
    /// The worker that this processor belongs to.
    pub id: WorkerId,
    /// Whether the batches are this node's own or those of other nodes.
    pub own_digest: bool,
}

impl Processor {
    /// A processor for worker `id`, handling own batches when `own_digest`.
    pub fn new(id: WorkerId, own_digest: bool) -> (p: Processor)
        ensures
            p.id == id,
            p.own_digest == own_digest,
    {
        Processor { id, own_digest }
    }

    /// The effects of one received batch, in the order in which they must be
    /// performed. Every batch is processed, whether it decodes or not.
    pub fn process(&self, batch: Vec<u8>) -> (r: Result<Vec<Effect>, FramingError>)
        ensures
            r is Ok,
            match r {
                Ok(effects) => effects@.map_values(|e: Effect| e@) == batch_effects(
                    self.id,
                    self.own_digest,
                    batch@,
                ),
                Err(e) => e == FramingError::Encode,
            },
    {
        let digest = batch_digest(batch.as_slice());
        let notification = DigestNotification::new(self.own_digest, digest, self.id);
        let message = match notification.encode() {
            Ok(m) => m,
            Err(e) => {
                return Err(e);
            },
        };
        let ghost b = batch@;
        let mut effects: Vec<Effect> = Vec::with_capacity(2);
        effects.push(Effect::Persist { key: digest, value: batch });
        effects.push(Effect::Announce { notification, message });
        assert(effects@.map_values(|e: Effect| e@) =~= batch_effects(self.id, self.own_digest, b));
        Ok(effects)
    }
}

/// Store before announce: among the effects of a batch, every announcement
/// of a digest comes after a write of the batch's exact bytes under that
/// digest, so a reader that saw the announcement finds the batch.
pub proof fn lemma_store_before_announce(worker: WorkerId, own: bool, b: Seq<u8>)
    ensures
        forall|i: int|
            #![trigger batch_effects(worker, own, b)[i]]
            0 <= i < batch_effects(worker, own, b).len() && batch_effects(worker, own, b)[i] is Announce
                ==> exists|j: int|
                0 <= j < i && batch_effects(worker, own, b)[j] == (EffectView::Persist {
                    key: batch_effects(worker, own, b)[i]->Announce_digest,
                    value: b,
                }),
{
    let e = batch_effects(worker, own, b);
    assert forall|i: int| 0 <= i < e.len() && e[i] is Announce implies exists|j: int|
        0 <= j < i && e[j] == (EffectView::Persist { key: e[i]->Announce_digest, value: b }) by {
        assert(i == 1);
        assert(e[0] == (EffectView::Persist { key: e[i]->Announce_digest, value: b }));
    }
}

/// The own/foreign tag of an announcement comes from the processor's
/// configuration alone: for any two batches, a processor for own batches
/// announces `OwnBatch` and one for foreign batches `ForeignBatch`, with the
/// same digest and worker, and the frames differ only in the variant index.
pub proof fn lemma_tag_follows_configuration(worker: WorkerId, a: Seq<u8>, b: Seq<u8>)
    ensures
        batch_effects(worker, true, a)[1] is Announce,
        batch_effects(worker, true, a)[1]->Announce_own,
        batch_effects(worker, false, b)[1] is Announce,
        !batch_effects(worker, false, b)[1]->Announce_own,
        batch_effects(worker, true, a)[1]->Announce_message == le32(OWN_BATCH_TAG) + digest_of(a)
            + le32(worker),
        batch_effects(worker, false, b)[1]->Announce_message == le32(FOREIGN_BATCH_TAG)
            + digest_of(b) + le32(worker),
        batch_effects(worker, true, a)[1]->Announce_digest == digest_of(a),
        batch_effects(worker, false, b)[1]->Announce_digest == digest_of(b),
{
}

/// A batch that is not a well-formed batch message is stored under its
/// digest and announced all the same: processing never depends on decoding.
pub proof fn lemma_undecodable_batch_flows(worker: WorkerId, own: bool, b: Seq<u8>)
    requires
        batch_transactions(b) is None,
    ensures
        batch_effects(worker, own, b).len() == 2,
        batch_effects(worker, own, b)[0] == (EffectView::Persist { key: digest_of(b), value: b }),
        batch_effects(worker, own, b)[1] is Announce,
        batch_effects(worker, own, b)[1]->Announce_digest == digest_of(b),
        batch_effects(worker, own, b)[1]->Announce_own == own,
{
}

} // verus!
