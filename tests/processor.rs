use node::digest::{batch_digest, Digest};
use node::framing::{decode_batch, DigestNotification, FramingError};
use node::processor::{Effect, Processor};
use std::collections::HashMap;

fn batch_message(txs: &[&[u8]]) -> Vec<u8> {
    let txs: Vec<Vec<u8>> = txs.iter().map(|t| t.to_vec()).collect();
    bincode::serialize(&(0u32, txs)).unwrap()
}

/// Performs the effects in order on a model store, returning the
/// announcements and checking that each announced digest can be read back.
fn run_effects(store: &mut HashMap<Vec<u8>, Vec<u8>>, effects: Vec<Effect>) -> Vec<(DigestNotification, Vec<u8>)> {
    let mut sent = Vec::new();
    for effect in effects {
        match effect {
            Effect::Persist { key, value } => {
                store.insert(key.to_vec(), value);
            }
            Effect::Announce { notification, message } => {
                assert!(store.contains_key(&notification.digest().to_vec()));
                sent.push((notification, message));
            }
        }
    }
    sent
}

#[test]
fn digest_is_sha512_prefix() {
    let d = batch_digest(b"abc");
    let expected = hex::decode("ddaf35a193617abacc417349ae20413112e6fa4e89a97ea20a9eeee64b55d39a").unwrap();
    assert_eq!(d.to_vec(), expected);
    assert_eq!(d.as_bytes().to_vec(), expected);
}

#[test]
fn digest_is_deterministic() {
    let b = batch_message(&[b"tx1", b"tx2"]);
    assert_eq!(batch_digest(&b).to_vec(), batch_digest(&b.clone()).to_vec());
    assert_ne!(batch_digest(&b).to_vec(), batch_digest(b"other").to_vec());
    assert_eq!(batch_digest(b"").to_vec().len(), 32);
}

#[test]
fn notification_frame_layout() {
    let d = Digest([7u8; 32]);
    let own = DigestNotification::new(true, d, 0x0102_0304);
    let bytes = own.encode().unwrap();
    let mut expected = vec![0u8, 0, 0, 0];
    expected.extend_from_slice(&[7u8; 32]);
    expected.extend_from_slice(&[4, 3, 2, 1]);
    assert_eq!(bytes, expected);

    let foreign = DigestNotification::new(false, d, 9);
    let bytes = foreign.encode().unwrap();
    assert_eq!(&bytes[..4], &[1, 0, 0, 0]);
    assert_eq!(&bytes[36..], &[9, 0, 0, 0]);
    assert!(!foreign.is_own_batch());
    assert_eq!(foreign.worker(), 9);
}

#[test]
fn store_before_announce() {
    let batch = batch_message(&[b"hello"]);
    let effects = Processor::new(0, true).process(batch.clone()).unwrap();
    assert_eq!(effects.len(), 2);
    assert!(matches!(effects[0], Effect::Persist { .. }));
    assert!(matches!(effects[1], Effect::Announce { .. }));
    let mut store = HashMap::new();
    let sent = run_effects(&mut store, effects);
    assert_eq!(sent.len(), 1);
    let d = sent[0].0.digest().to_vec();
    assert_eq!(d, batch_digest(&batch).to_vec());
    assert_eq!(store.get(&d), Some(&batch));
}

#[test]
fn own_and_foreign_tagging() {
    let batch = batch_message(&[b"same"]);
    let own = Processor::new(2, true).process(batch.clone()).unwrap();
    let foreign = Processor::new(2, false).process(batch.clone()).unwrap();
    let mut s1 = HashMap::new();
    let mut s2 = HashMap::new();
    let a = run_effects(&mut s1, own);
    let b = run_effects(&mut s2, foreign);
    assert!(matches!(a[0].0, DigestNotification::OwnBatch(_, 2)));
    assert!(matches!(b[0].0, DigestNotification::ForeignBatch(_, 2)));
    assert_eq!(a[0].0.digest().to_vec(), b[0].0.digest().to_vec());
    assert_eq!(&a[0].1[..4], &[0, 0, 0, 0]);
    assert_eq!(&b[0].1[..4], &[1, 0, 0, 0]);
    assert_eq!(&a[0].1[4..], &b[0].1[4..]);
}

#[test]
fn undecodable_batch_is_stored_and_announced() {
    let junk = vec![0xffu8, 0x01];
    assert_eq!(decode_batch(&junk), Err(FramingError::Decode));
    let effects = Processor::new(1, false).process(junk.clone()).unwrap();
    let mut store = HashMap::new();
    let sent = run_effects(&mut store, effects);
    assert_eq!(sent.len(), 1);
    let d = batch_digest(&junk).to_vec();
    assert_eq!(sent[0].0.digest().to_vec(), d);
    assert_eq!(store.get(&d), Some(&junk));
}

#[test]
fn decode_batch_variants() {
    let b = batch_message(&[b"a", b"bb"]);
    assert_eq!(decode_batch(&b), Ok(vec![b"a".to_vec(), b"bb".to_vec()]));
    let other = bincode::serialize(&(1u32, vec![b"a".to_vec()])).unwrap();
    assert_eq!(decode_batch(&other), Err(FramingError::UnexpectedVariant(1)));
    assert_eq!(decode_batch(&[]), Err(FramingError::Decode));
    let empty = batch_message(&[]);
    assert_eq!(decode_batch(&empty), Ok(vec![]));
}

#[test]
fn decode_batch_ignores_trailing_bytes() {
    let mut b = batch_message(&[b"a"]);
    b.extend_from_slice(&[1, 2, 3]);
    assert_eq!(decode_batch(&b), Ok(vec![b"a".to_vec()]));
    let mut cut = batch_message(&[b"abc"]);
    cut.pop();
    assert_eq!(decode_batch(&cut), Err(FramingError::Decode));
}

#[test]
fn three_batches_end_to_end() {
    let p = Processor::new(0, true);
    let batches = vec![batch_message(&[b"one"]), batch_message(&[b"two"]), batch_message(&[b"three", b"3"])];
    let mut store = HashMap::new();
    let mut sent = Vec::new();
    for b in &batches {
        sent.extend(run_effects(&mut store, p.process(b.clone()).unwrap()));
    }
    assert_eq!(sent.len(), 3);
    for (b, (n, _)) in batches.iter().zip(sent.iter()) {
        assert!(n.is_own_batch());
        assert_eq!(n.digest().to_vec(), batch_digest(b).to_vec());
        assert_eq!(store.get(&n.digest().to_vec()), Some(b));
    }
}
