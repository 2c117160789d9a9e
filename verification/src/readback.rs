//! The readback handshake: after submission, request a host-read
//! mapping of the staging buffer, wait for the single-shot completion
//! signal under a bound, copy the mapped bytes out, release the
//! mapping. The phases here make that ordering a precondition chain:
//! bytes can only be accepted in a phase reachable through a
//! successful wait, so reading ahead of the completion signal is not
//! expressible through this type. The operation is all-or-nothing — a
//! timeout or a short read leaves the cycle failed with no partial
//! result.

use vstd::prelude::*;
use crate::commands::{FrameRecorder, RecorderState};
use crate::errors::{ReadbackError, ValidationError};
use crate::signal::CompletionSignal;
use crate::resources::BufferDesc;

verus! {

/// Completion code the producer sends when the mapping succeeded; any
/// other code reports a device-side mapping failure.
pub const MAP_SUCCESS: u64 = 0;

/// Where one readback cycle stands.
#[derive(Clone, Copy, Debug, PartialEq, Eq, Structural)]
pub enum ReadbackPhase {
    /// Submitted; the host-read mapping has not been requested yet.
    AwaitingMapRequest,
    /// Mapping requested; the completion signal has not fired.
    AwaitingSignal,
    /// The signal reported success: the mapped bytes may be read.
    Mapped,
    /// The mapped bytes were copied out in full.
    Copied,
    /// The mapping was released; the cycle is over.
    Done,
    /// The cycle failed; no partial result exists.
    Failed,
}

/// One readback cycle over one staging buffer. Cycles are strictly
/// sequential: the staging buffer belongs to this cycle until `Done`
/// or `Failed`, and nothing here can be reused or rewound.
pub struct ReadbackCycle {
    pub phase: ReadbackPhase,
    /// The staging buffer's capacity, which the copied-out bytes must
    /// match exactly.
    pub expected_size: u64,
    pub signal: CompletionSignal,
}

/// Maps the completion code: success opens the mapped region, any
/// other code is a device-side mapping failure.
pub fn accept_code(code: u64) -> (r: Result<(), ReadbackError>)
    ensures
        code == MAP_SUCCESS ==> r == Ok::<(), ReadbackError>(()),
        code != MAP_SUCCESS ==> r == Err::<(), ReadbackError>(ReadbackError::MapFailed),
{
    if code == MAP_SUCCESS {
        Ok(())
    } else {
        Err(ReadbackError::MapFailed)
    }
}

impl ReadbackCycle {
    /// Open a cycle for a just-submitted frame: the command sequence
    /// must already be with the queue, the staging buffer must carry
    /// the readback usages, and the signal must be fresh.
    pub fn new(recorder: &FrameRecorder, staging: &BufferDesc, signal: CompletionSignal) -> (r:
        Result<ReadbackCycle, ValidationError>)
        requires
            recorder.state == RecorderState::Submitted,
            !signal.is_consumed(),
        ensures
            staging.is_staging() ==> (r matches Ok(c) && c.phase
                == ReadbackPhase::AwaitingMapRequest && c.expected_size == staging.size
                && !c.signal.is_consumed()),
            !staging.is_staging() ==> r is Err && (r matches Err(e) && e
                == ValidationError::StagingUsageMismatch),
    {
        if !(staging.usage.copy_dst && staging.usage.map_read) || staging.mapped_at_creation {
            return Err(ValidationError::StagingUsageMismatch);
        }
        Ok(
            ReadbackCycle {
                phase: ReadbackPhase::AwaitingMapRequest,
                expected_size: staging.size,
                signal,
            },
        )
    }

    /// Note that the asynchronous host-read mapping of the buffer's
    /// full range has been requested; the cycle now waits on the
    /// signal.
    pub fn map_requested(&mut self)
        requires
            old(self).phase == ReadbackPhase::AwaitingMapRequest,
        ensures
            final(self).phase == ReadbackPhase::AwaitingSignal,
            final(self).expected_size == old(self).expected_size,
            final(self).signal == old(self).signal,
    {
        self.phase = ReadbackPhase::AwaitingSignal;
    }

    /// Wait for the completion signal, at most `timeout_ms`
    /// milliseconds. An elapsed bound fails the cycle with `Timeout`;
    /// a vanished producer with `Closed`; a non-success code with
    /// `MapFailed`. Only a success code makes the mapped region
    /// readable.
    pub fn wait(&mut self, timeout_ms: u64) -> (r: Result<(), ReadbackError>)
        requires
            old(self).phase == ReadbackPhase::AwaitingSignal,
            !old(self).signal.is_consumed(),
        ensures
            final(self).expected_size == old(self).expected_size,
            final(self).signal.is_consumed(),
            r matches Ok(_) ==> final(self).phase == ReadbackPhase::Mapped,
            r matches Err(e) ==> final(self).phase == ReadbackPhase::Failed && (e
                == ReadbackError::Timeout || e == ReadbackError::Closed || e
                == ReadbackError::MapFailed),
    {
        let code = match self.signal.consume(timeout_ms) {
            Ok(code) => code,
            Err(e) => {
                self.phase = ReadbackPhase::Failed;
                return Err(e);
            },
        };
        match accept_code(code) {
            Ok(_) => {
                self.phase = ReadbackPhase::Mapped;
                Ok(())
            },
            Err(e) => {
                self.phase = ReadbackPhase::Failed;
                Err(e)
            },
        }
    }

    /// Accept the bytes copied out of the mapped region. They must be
    /// exactly the staging buffer's capacity — the full image, with no
    /// partial read.
    pub fn accept_bytes(&mut self, bytes: &Vec<u8>) -> (r: Result<(), ReadbackError>)
        requires
            old(self).phase == ReadbackPhase::Mapped,
        ensures
            final(self).expected_size == old(self).expected_size,
            final(self).signal == old(self).signal,
            bytes@.len() == old(self).expected_size ==> r == Ok::<(), ReadbackError>(())
                && final(self).phase == ReadbackPhase::Copied,
            bytes@.len() != old(self).expected_size ==> r == Err::<(), ReadbackError>(
                ReadbackError::WrongLength,
            ) && final(self).phase == ReadbackPhase::Failed,
    {
        if bytes.len() as u64 == self.expected_size {
            self.phase = ReadbackPhase::Copied;
            Ok(())
        } else {
            self.phase = ReadbackPhase::Failed;
            Err(ReadbackError::WrongLength)
        }
    }

    /// Note that the mapped view has been released. Required on every
    /// path that mapped the buffer, success or failure, before the
    /// staging buffer may be touched again.
    pub fn released(&mut self)
        requires
            old(self).phase == ReadbackPhase::Copied || old(self).phase == ReadbackPhase::Failed,
        ensures
            old(self).phase == ReadbackPhase::Copied ==> final(self).phase == ReadbackPhase::Done,
            old(self).phase == ReadbackPhase::Failed ==> final(self).phase
                == ReadbackPhase::Failed,
            final(self).expected_size == old(self).expected_size,
    {
        if matches!(self.phase, ReadbackPhase::Copied) {
            self.phase = ReadbackPhase::Done;
        }
    }
}

} // verus!
