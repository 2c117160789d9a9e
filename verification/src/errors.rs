//! Error taxonomy: every failure is fatal and identifies the stage that
//! rejected the run — validation before any device work, pipeline
//! construction, program acceptance, or the readback handshake.

use vstd::prelude::*;

verus! {

/// A descriptor or a recorded command was rejected before submission.
#[derive(Clone, Copy, Debug, PartialEq, Eq, Structural)]
pub enum ValidationError {
    /// A texture dimension was zero.
    InvalidDimensions,
    /// width * height * BYTES_PER_PIXEL does not fit in a u64.
    SizeOverflow,
    /// The staging buffer's capacity differs from height * row pitch.
    StagingSizeMismatch,
    /// The staging buffer does not carry the copy-destination and
    /// host-read usages that the readback requires.
    StagingUsageMismatch,
}

/// A compiled program binary was not acceptable.
#[derive(Clone, Copy, Debug, PartialEq, Eq, Structural)]
pub enum CompileError {
    /// The binary does not begin with the SPIR-V magic word.
    InvalidBinary,
}

/// Programs and a binding layout could not be combined into a pipeline.
#[derive(Clone, Copy, Debug, PartialEq, Eq, Structural)]
pub enum BuildError {
    /// A program was built for a different stage than the slot it fills.
    WrongStage,
    /// Two layout entries claim the same binding index.
    DuplicateBinding,
    /// A binding declared by the fragment program is absent from the
    /// layout, or present with a different resource kind.
    MissingBinding,
    /// The fragment program performs a combined texture + sampler query
    /// but the layout does not place a sampled texture at binding 0 and
    /// a sampler at binding 1.
    ConventionViolation,
}

/// The readback handshake did not deliver the rendered bytes.
#[derive(Clone, Copy, Debug, PartialEq, Eq, Structural)]
pub enum ReadbackError {
    /// The completion signal never fired within the wait bound.
    Timeout,
    /// The producer was dropped without ever sending a completion code.
    Closed,
    /// The device reported a mapping failure through the signal.
    MapFailed,
    /// The single-shot signal had already been consumed.
    AlreadyConsumed,
    /// The mapped byte count differs from the staging buffer's capacity.
    WrongLength,
}

} // verus!
