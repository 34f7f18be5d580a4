//! The ordered-output materializer: turns the batches that a certificate
//! references, as found in the store, into output records.
use crate::digest::Digest;
use crate::framing::{batch_transactions, decode_batch, lengths_fit, tagged_batch_frame, BATCH_TAG};
use vstd::prelude::*;

verus! {

/// The standard padded base64 text of a byte sequence.
pub uninterp spec fn base64_of(b: Seq<u8>) -> Seq<char>;

/// Relies on `base64::encode` (standard alphabet, with padding); its result
/// depends on the bytes alone, four characters for each started group of three
/// bytes.
#[verifier::external_body]
fn base64_encode(bytes: &[u8]) -> (r: String)
    ensures
        r@ == base64_of(bytes@),
        r@.len() == 4 * ((bytes@.len() + 2) / 3),
{
    base64::encode(bytes)
}

/// The outcome of reading a batch from the store by its digest.
#[derive(Debug)]
pub enum StoreLookup {
    /// The store holds these bytes under the digest.
    Found(Vec<u8>),
    /// The store holds nothing under the digest.
    Missing,
    /// The read failed.
    Failed,
}

impl StoreLookup {
    /// The bytes that were found, if any.
    pub open spec fn found_view(self) -> Option<Seq<u8>> {
        match self {
            StoreLookup::Found(b) => Some(b@),
            _ => None,
        }
    }
}

/// The content of an [`OutputRecord`]: digest text and transaction texts.
pub type RecordView = (Seq<char>, Seq<Seq<char>>);

/// One line of the output log: a batch digest and its ordered transactions,
/// each as base64 text.
#[derive(Debug)]
pub struct OutputRecord {
    /// The batch digest as base64 text.
    pub batch: String,
    /// The batch's transactions as base64 text, in batch order.
    pub transactions: Vec<String>,
}

impl View for OutputRecord {
    type V = RecordView;

    open spec fn view(&self) -> RecordView {
        (self.batch@, self.transactions.deep_view())
    }
}

impl DeepView for OutputRecord {
    type V = RecordView;

    open spec fn deep_view(&self) -> RecordView {
        self@
    }
}

/// The record of a batch with digest `digest` and transactions `txs`.
pub open spec fn record_of(digest: Seq<u8>, txs: Seq<Seq<u8>>) -> RecordView {
    (base64_of(digest), txs.map_values(|t: Seq<u8>| base64_of(t)))
}

/// The record of one certificate entry, given what the store held under its
/// digest: none where nothing was found or the bytes are not a batch.
pub open spec fn entry_record(digest: Seq<u8>, found: Option<Seq<u8>>) -> Option<RecordView> {
    match found {
        Some(b) => match batch_transactions(b) {
            Some(txs) => Some(record_of(digest, txs)),
            None => None,
        },
        None => None,
    }
}

/// The records of a certificate's entries, in entry order.
pub open spec fn certificate_records(entries: Seq<(Seq<u8>, Option<Seq<u8>>)>) -> Seq<RecordView>
    decreases entries.len(),
{
    if entries.len() == 0 {
        seq![]
    } else {
        let e = entries.last();
        certificate_records(entries.drop_last()) + match entry_record(e.0, e.1) {
            Some(r) => seq![r],
            None => seq![],
        }
    }
}

/// The mathematical content of the certificate entries handed to
/// [`materialize_certificate`].
pub open spec fn entries_view(entries: Seq<(Digest, StoreLookup)>) -> Seq<
    (Seq<u8>, Option<Seq<u8>>),
> {
    entries.map_values(|e: (Digest, StoreLookup)| (e.0@, e.1.found_view()))
}

impl OutputRecord {
    /// The record of a batch with the given digest and transactions.
    pub fn from_batch(digest: &Digest, txs: &Vec<Vec<u8>>) -> (r: OutputRecord)
        ensures
            r@ == record_of(digest@, txs.deep_view()),
    {
        let batch = base64_encode(digest.0.as_slice());
        let mut transactions: Vec<String> = Vec::with_capacity(txs.len());
        let mut i: usize = 0;
        while i < txs.len()
            invariant
                i <= txs@.len(),
                transactions@.len() == i,
                forall|k: int| 0 <= k < i ==> transactions@[k]@ == base64_of(txs@[k]@),
            decreases txs@.len() - i,
        {
            transactions.push(base64_encode(txs[i].as_slice()));
            i += 1;
        }
        let r = OutputRecord { batch, transactions };
        assert forall|k: int| 0 <= k < txs@.len() implies r@.1[k] == record_of(
            digest@,
            txs.deep_view(),
        ).1[k] by {
            assert(txs@[k].deep_view() =~= txs@[k]@);
        }
        assert(r@.1 =~= record_of(digest@, txs.deep_view()).1);
        r
    }
}

/// The record of one certificate entry, given the store lookup of its
/// digest. Entries whose batch is missing, unreadable or not a batch message
/// yield none.
pub fn materialize_entry(digest: &Digest, lookup: &StoreLookup) -> (r: Option<OutputRecord>)
    ensures
        match r {
            Some(rec) => entry_record(digest@, lookup.found_view()) == Some(rec@),
            None => entry_record(digest@, lookup.found_view()) is None,
        },
        forall|txs: Seq<Seq<u8>>|
            #![trigger tagged_batch_frame(BATCH_TAG, txs)]
            lookup.found_view() is Some && lengths_fit(txs) && tagged_batch_frame(
                BATCH_TAG,
                txs,
            ).is_prefix_of(lookup.found_view()->Some_0) ==> r is Some && r->Some_0@ == record_of(
                digest@,
                txs,
            ),
{
    match lookup {
        StoreLookup::Found(bytes) => match decode_batch(bytes.as_slice()) {
            Ok(txs) => Some(OutputRecord::from_batch(digest, &txs)),
            Err(_) => None,
        },
        _ => None,
    }
}

/// The records of all entries of a certificate, in entry order, skipping
/// those that yield none.
pub fn materialize_certificate(entries: &Vec<(Digest, StoreLookup)>) -> (r: Vec<OutputRecord>)
    ensures
        r.deep_view() == certificate_records(entries_view(entries@)),
{
    let mut out: Vec<OutputRecord> = Vec::new();
    let mut i: usize = 0;
    while i < entries.len()
        invariant
            i <= entries@.len(),
            out.deep_view() == certificate_records(entries_view(entries@.subrange(0, i as int))),
        decreases entries@.len() - i,
    {
        let ghost before = out.deep_view();
        let rec = materialize_entry(&entries[i].0, &entries[i].1);
        proof {
            let ev = entries_view(entries@.subrange(0, i + 1));
            assert(ev.drop_last() =~= entries_view(entries@.subrange(0, i as int)));
            assert(ev.last() == (entries@[i as int].0@, entries@[i as int].1.found_view()));
        }
        match rec {
            Some(rec) => {
                out.push(rec);
                assert(out.deep_view() =~= before + seq![rec@]);
            },
            None => {},
        }
        i += 1;
    }
    assert(entries@.subrange(0, entries@.len() as int) =~= entries@);
    out
}

/// The records of two runs of entries, one after the other, are the records
/// of the first followed by those of the second.
pub proof fn lemma_certificate_records_append(
    a: Seq<(Seq<u8>, Option<Seq<u8>>)>,
    b: Seq<(Seq<u8>, Option<Seq<u8>>)>,
)
    ensures
        certificate_records(a + b) == certificate_records(a) + certificate_records(b),
    decreases b.len(),
{
    if b.len() == 0 {
        assert(a + b =~= a);
        assert(certificate_records(b) =~= seq![]);
        assert(certificate_records(a) + certificate_records(b) =~= certificate_records(a));
    } else {
        lemma_certificate_records_append(a, b.drop_last());
        assert((a + b).drop_last() =~= a + b.drop_last());
        assert((a + b).last() == b.last());
        let tail = match entry_record(b.last().0, b.last().1) {
            Some(r) => seq![r],
            None => seq![],
        };
        assert(certificate_records(a) + certificate_records(b.drop_last()) + tail
            =~= certificate_records(a) + (certificate_records(b.drop_last()) + tail));
    }
}

/// An entry whose batch is not in the store (or cannot be read) yields no
/// record, and the entries before and after it yield theirs as without it.
pub proof fn lemma_missing_entry_skipped(
    before: Seq<(Seq<u8>, Option<Seq<u8>>)>,
    digest: Seq<u8>,
    after: Seq<(Seq<u8>, Option<Seq<u8>>)>,
)
    ensures
        certificate_records(before + seq![(digest, None)] + after) == certificate_records(before)
            + certificate_records(after),
{
    let missing: Seq<(Seq<u8>, Option<Seq<u8>>)> = seq![(digest, None)];
    lemma_certificate_records_append(before + missing, after);
    lemma_certificate_records_append(before, missing);
    let empty: Seq<(Seq<u8>, Option<Seq<u8>>)> = seq![];
    assert(missing.drop_last() =~= empty);
    assert(certificate_records(empty) == Seq::<RecordView>::empty());
    assert(missing.last() == (digest, None::<Seq<u8>>));
    assert(certificate_records(missing) =~= seq![]);
    assert(certificate_records(before) + certificate_records(missing) =~= certificate_records(
        before,
    ));
}

/// A stored batch message yields exactly one record: its digest and each of
/// its transactions as base64 text, in the batch's order.
pub proof fn lemma_output_round_trip(digest: Seq<u8>, bytes: Seq<u8>, txs: Seq<Seq<u8>>)
    requires
        batch_transactions(bytes) == Some(txs),
    ensures
        entry_record(digest, Some(bytes)) == Some(record_of(digest, txs)),
        certificate_records(seq![(digest, Some(bytes))]) == seq![record_of(digest, txs)],
        record_of(digest, txs).0 == base64_of(digest),
        record_of(digest, txs).1.len() == txs.len(),
        forall|i: int|
            0 <= i < txs.len() ==> #[trigger] record_of(digest, txs).1[i] == base64_of(txs[i]),
{
    let one: Seq<(Seq<u8>, Option<Seq<u8>>)> = seq![(digest, Some(bytes))];
    let empty: Seq<(Seq<u8>, Option<Seq<u8>>)> = seq![];
    assert(one.drop_last() =~= empty);
    assert(certificate_records(empty) == Seq::<RecordView>::empty());
    assert(certificate_records(one) =~= seq![record_of(digest, txs)]);
}

} // verus!
