//! The single-shot completion signal of the readback handshake: a
//! bounded channel of capacity one, with single-producer and
//! single-consumer discipline enforced by the types around it. The
//! producer half is consumed by sending; the consumer half remembers
//! that it was consumed, so a second consumption attempt fails
//! deterministically instead of blocking or rereading stale data.
//!
//! What a receive returns depends on the producer's side and on time,
//! so the channel wrappers promise nothing of their outcomes; every
//! decision taken on an outcome is made by verified code that takes
//! the outcome as an argument.

use vstd::prelude::*;
use crate::errors::ReadbackError;

verus! {

/// Declares flume's sending end so that verified code can hold it.
#[verifier::external_type_specification]
#[verifier::external_body]
#[verifier::reject_recursive_types(T)]
pub struct ExSender<T>(flume::Sender<T>);

/// Declares flume's receiving end likewise.
#[verifier::external_type_specification]
#[verifier::external_body]
#[verifier::reject_recursive_types(T)]
pub struct ExReceiver<T>(flume::Receiver<T>);

/// What one bounded receive attempt reported.
#[derive(Clone, Copy, Debug, PartialEq, Eq, Structural)]
pub enum RecvOutcome {
    /// A completion code arrived.
    Received(u64),
    /// The wait bound elapsed with no message.
    TimedOut,
    /// Every producer was dropped and no message is waiting.
    Closed,
}

/// Relies on flume::bounded: a channel that holds at most one
/// in-flight message, handed back as its two ends.
#[verifier::external_body]
fn channel_of_one() -> (r: (flume::Sender<u64>, flume::Receiver<u64>)) {
    flume::bounded(1)
}

/// Relies on flume::Sender::send: delivers the message unless every
/// receiver is gone. Nothing is promised of the outcome, which depends
/// on the receiving side.
#[verifier::external_body]
fn channel_send(tx: flume::Sender<u64>, code: u64) -> (delivered: bool) {
    tx.send(code).is_ok()
}

/// Relies on flume::Receiver::recv_timeout: blocks for at most the
/// given number of milliseconds and reports a message, the elapsed
/// bound, or a closed channel. Nothing is promised of which, since the
/// outcome depends on the producer's side and on time.
#[verifier::external_body]
fn channel_recv_timeout(rx: &flume::Receiver<u64>, timeout_ms: u64) -> (r: RecvOutcome) {
    match rx.recv_timeout(std::time::Duration::from_millis(timeout_ms)) {
        Ok(code) => RecvOutcome::Received(code),
        Err(flume::RecvTimeoutError::Timeout) => RecvOutcome::TimedOut,
        Err(flume::RecvTimeoutError::Disconnected) => RecvOutcome::Closed,
    }
}

/// Producer half of the completion signal. Sending consumes it, so at
/// most one completion code is ever produced.
pub struct CompletionSender {
    tx: flume::Sender<u64>,
}

impl CompletionSender {
    /// Deliver the completion code and retire the producer. The result
    /// says whether the consumer side was still there to take it.
    pub fn complete(self, code: u64) -> bool {
        channel_send(self.tx, code)
    }
}

/// Consumer half of the completion signal: single-shot. A flag set by
/// the first consumption attempt stays set; from then on every attempt
/// fails with `AlreadyConsumed`, deterministically.
pub struct CompletionSignal {
    rx: flume::Receiver<u64>,
    consumed: bool,
}

/// A fresh signal pair: one producer, one single-shot consumer.
pub fn completion_pair() -> (r: (CompletionSender, CompletionSignal))
    ensures
        !r.1.is_consumed(),
{
    let (tx, rx) = channel_of_one();
    (CompletionSender { tx }, CompletionSignal { rx, consumed: false })
}

/// What each receive outcome means for the readback: a code is handed
/// on, an elapsed bound is the timeout failure, a closed channel means
/// the producer vanished without completing.
pub fn interpret_outcome(outcome: RecvOutcome) -> (r: Result<u64, ReadbackError>)
    ensures
        (match outcome {
            RecvOutcome::Received(code) => r == Ok::<u64, ReadbackError>(code),
            RecvOutcome::TimedOut => r == Err::<u64, ReadbackError>(ReadbackError::Timeout),
            RecvOutcome::Closed => r == Err::<u64, ReadbackError>(ReadbackError::Closed),
        }),
{
    match outcome {
        RecvOutcome::Received(code) => Ok(code),
        RecvOutcome::TimedOut => Err(ReadbackError::Timeout),
        RecvOutcome::Closed => Err(ReadbackError::Closed),
    }
}

impl CompletionSignal {
    /// Whether a consumption attempt was already made.
    pub closed spec fn is_consumed(self) -> bool {
        self.consumed
    }

    /// Consume the signal, waiting at most `timeout_ms` milliseconds.
    /// The first attempt waits on the channel and reports its outcome
    /// through `interpret_outcome`; any later attempt fails with
    /// `AlreadyConsumed` without touching the channel, so a consumed
    /// signal can neither block nor hand out stale data.
    pub fn consume(&mut self, timeout_ms: u64) -> (r: Result<u64, ReadbackError>)
        ensures
            final(self).is_consumed(),
            old(self).is_consumed() ==> r == Err::<u64, ReadbackError>(
                ReadbackError::AlreadyConsumed,
            ),
            !old(self).is_consumed() ==> r != Err::<u64, ReadbackError>(
                ReadbackError::AlreadyConsumed,
            )
                && (r matches Ok(_) || r == Err::<u64, ReadbackError>(ReadbackError::Timeout) || r
                == Err::<u64, ReadbackError>(ReadbackError::Closed)),
    {
        if self.consumed {
            return Err(ReadbackError::AlreadyConsumed);
        }
        self.consumed = true;
        let outcome = channel_recv_timeout(&self.rx, timeout_ms);
        interpret_outcome(outcome)
    }
}

} // verus!
