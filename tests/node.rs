use node::node::{LogLevel, OUTPUT_FILE_NAME};
use node::CHANNEL_CAPACITY;

#[test]
fn verbosity_levels() {
    assert_eq!(LogLevel::from_verbosity(0).as_str(), "error");
    assert_eq!(LogLevel::from_verbosity(1).as_str(), "warn");
    assert_eq!(LogLevel::from_verbosity(2).as_str(), "info");
    assert_eq!(LogLevel::from_verbosity(3).as_str(), "debug");
    assert_eq!(LogLevel::from_verbosity(4).as_str(), "trace");
    assert_eq!(LogLevel::from_verbosity(u64::MAX), LogLevel::Trace);
}

#[test]
fn output_file_name() {
    assert_eq!(OUTPUT_FILE_NAME, "ordered_batches.json");
}

#[test]
fn bounded_channel_backpressure() {
    let (tx, mut rx) = tokio::sync::mpsc::channel::<usize>(CHANNEL_CAPACITY);
    for i in 0..CHANNEL_CAPACITY {
        assert!(tx.try_send(i).is_ok());
    }
    assert!(matches!(tx.try_send(CHANNEL_CAPACITY), Err(tokio::sync::mpsc::error::TrySendError::Full(_))));
    assert_eq!(rx.try_recv().unwrap(), 0);
    assert!(tx.try_send(CHANNEL_CAPACITY).is_ok());
    for i in 1..=CHANNEL_CAPACITY {
        assert_eq!(rx.try_recv().unwrap(), i);
    }
    assert!(rx.try_recv().is_err());
}
