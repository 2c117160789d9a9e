use lod_readback::errors::ReadbackError;
use lod_readback::signal::{completion_pair, interpret_outcome, RecvOutcome};

#[test]
fn sent_code_is_consumed_once() {
    let (tx, mut sig) = completion_pair();
    assert!(tx.complete(0));
    assert_eq!(sig.consume(1000), Ok(0));
}

#[test]
fn second_consumption_fails_deterministically() {
    let (tx, mut sig) = completion_pair();
    assert!(tx.complete(0));
    assert_eq!(sig.consume(1000), Ok(0));
    assert_eq!(sig.consume(1000), Err(ReadbackError::AlreadyConsumed));
    assert_eq!(sig.consume(0), Err(ReadbackError::AlreadyConsumed));
}

#[test]
fn never_delivered_signal_times_out() {
    let (tx, mut sig) = completion_pair();
    let r = sig.consume(50);
    assert_eq!(r, Err(ReadbackError::Timeout));
    drop(tx);
}

#[test]
fn dropped_producer_reports_closed() {
    let (tx, mut sig) = completion_pair();
    drop(tx);
    assert_eq!(sig.consume(1000), Err(ReadbackError::Closed));
}

#[test]
fn nonzero_code_passes_through() {
    let (tx, mut sig) = completion_pair();
    assert!(tx.complete(7));
    assert_eq!(sig.consume(1000), Ok(7));
}

#[test]
fn outcomes_map_to_their_errors() {
    assert_eq!(interpret_outcome(RecvOutcome::Received(3)), Ok(3));
    assert_eq!(interpret_outcome(RecvOutcome::TimedOut), Err(ReadbackError::Timeout));
    assert_eq!(interpret_outcome(RecvOutcome::Closed), Err(ReadbackError::Closed));
}

#[test]
fn producer_without_consumer_reports_undelivered() {
    let (tx, sig) = completion_pair();
    drop(sig);
    assert!(!tx.complete(0));
}
