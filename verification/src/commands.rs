//! Frame recording: an append-only command sequence built once and
//! submitted once. The recorder moves through Idle, Recording,
//! Recorded and Submitted; the render pass and the texture-to-buffer
//! copy can each be recorded exactly once, the copy only after the
//! pass, and the copy's stride is validated against the staging
//! buffer's capacity before anything can be submitted.

use vstd::prelude::*;
use crate::errors::ValidationError;
use crate::layout::{image_bytes, row_pitch, spec_image_bytes, spec_row_pitch};
use crate::resources::{BufferDesc, Extent3d};

verus! {

/// Recorder lifecycle. Submitted is terminal: no method accepts a
/// submitted recorder, so a sequence can never be amended or
/// resubmitted.
#[derive(Clone, Copy, Debug, PartialEq, Eq, Structural)]
pub enum RecorderState {
    Idle,
    Recording,
    Recorded,
    Submitted,
}

/// Color the pass clears its target to. The design always clears to
/// opaque black, (0, 0, 0, 1); the value is symbolic so that no float
/// enters the verified model.
#[derive(Clone, Copy, Debug, PartialEq, Eq, Structural)]
pub enum ClearColor {
    OpaqueBlack,
}

/// Origin of a texture copy.
#[derive(Clone, Copy, Debug, PartialEq, Eq, Structural)]
pub struct Origin3d {
    pub x: u32,
    pub y: u32,
    pub z: u32,
}

/// One GPU operation of the recorded sequence. Nothing executes until
/// the whole sequence is submitted.
#[derive(Clone, Copy, Debug, PartialEq, Eq, Structural)]
pub enum GpuOp {
    /// Begin the render pass, clearing the color target.
    BeginRenderPass { clear: ClearColor },
    /// Bind the one pipeline.
    SetPipeline,
    /// Bind the resource group at the given slot.
    SetBindGroup { slot: u32 },
    /// Draw `vertices` vertices and `instances` instances, no index
    /// buffer.
    Draw { vertices: u32, instances: u32 },
    /// End the render pass.
    EndRenderPass,
    /// Copy the render target into the staging buffer with an explicit
    /// linear layout.
    CopyTextureToBuffer {
        mip_level: u32,
        origin: Origin3d,
        offset: u64,
        bytes_per_row: u32,
        rows_per_image: u32,
        extent: Extent3d,
    },
}

/// The fixed render pass: clear to opaque black, bind pipeline and
/// resource group 0, draw one triangle — exactly 3 vertices, 1
/// instance.
pub open spec fn triangle_pass_ops() -> Seq<GpuOp> {
    seq![
        GpuOp::BeginRenderPass { clear: ClearColor::OpaqueBlack },
        GpuOp::SetPipeline,
        GpuOp::SetBindGroup { slot: 0 },
        GpuOp::Draw { vertices: 3, instances: 1 },
        GpuOp::EndRenderPass,
    ]
}

/// The readback copy: mip level 0 of the render target, origin
/// (0, 0, 0), into the staging buffer at offset 0, with row pitch
/// width * 16 and one full image of `height` rows.
pub open spec fn copy_op(width: u32, height: u32) -> GpuOp {
    GpuOp::CopyTextureToBuffer {
        mip_level: 0,
        origin: Origin3d { x: 0, y: 0, z: 0 },
        offset: 0,
        bytes_per_row: spec_row_pitch(width as nat) as u32,
        rows_per_image: height,
        extent: Extent3d { width, height, depth_or_array_layers: 1 },
    }
}

/// The first fault that stops the copy from being recorded: empty
/// extent, a stride or image size beyond the machine's integer
/// limits, a staging capacity that differs from height * row pitch,
/// or a staging buffer without the required usages.
pub open spec fn copy_fault(width: u32, height: u32, staging: BufferDesc) -> Option<
    ValidationError,
> {
    if width == 0 || height == 0 {
        Some(ValidationError::InvalidDimensions)
    } else if spec_row_pitch(width as nat) > u32::MAX || spec_image_bytes(
        width as nat,
        height as nat,
    ) > u64::MAX {
        Some(ValidationError::SizeOverflow)
    } else if staging.size != spec_image_bytes(width as nat, height as nat) {
        Some(ValidationError::StagingSizeMismatch)
    } else if !staging.is_staging() {
        Some(ValidationError::StagingUsageMismatch)
    } else {
        None
    }
}

/// Records the frame's command sequence and tracks its lifecycle.
pub struct FrameRecorder {
    pub state: RecorderState,
    pub pass_recorded: bool,
    pub copy_recorded: bool,
    pub ops: Vec<GpuOp>,
}

impl FrameRecorder {
    /// A fresh recorder: idle, with an empty sequence.
    pub fn new() -> (r: FrameRecorder)
        ensures
            r.state == RecorderState::Idle,
            !r.pass_recorded,
            !r.copy_recorded,
            r.ops@ == Seq::<GpuOp>::empty(),
    {
        FrameRecorder {
            state: RecorderState::Idle,
            pass_recorded: false,
            copy_recorded: false,
            ops: Vec::new(),
        }
    }

    /// Begin the command sequence.
    pub fn begin(&mut self)
        requires
            old(self).state == RecorderState::Idle,
        ensures
            final(self).state == RecorderState::Recording,
            final(self).pass_recorded == old(self).pass_recorded,
            final(self).copy_recorded == old(self).copy_recorded,
            final(self).ops@ == old(self).ops@,
    {
        self.state = RecorderState::Recording;
    }

    /// Record the fixed render pass, once per sequence and before the
    /// copy.
    pub fn record_triangle_pass(&mut self)
        requires
            old(self).state == RecorderState::Recording,
            !old(self).pass_recorded,
            !old(self).copy_recorded,
        ensures
            final(self).state == RecorderState::Recording,
            final(self).pass_recorded,
            !final(self).copy_recorded,
            final(self).ops@ == old(self).ops@ + triangle_pass_ops(),
    {
        self.ops.push(GpuOp::BeginRenderPass { clear: ClearColor::OpaqueBlack });
        self.ops.push(GpuOp::SetPipeline);
        self.ops.push(GpuOp::SetBindGroup { slot: 0 });
        self.ops.push(GpuOp::Draw { vertices: 3, instances: 1 });
        self.ops.push(GpuOp::EndRenderPass);
        self.pass_recorded = true;
        proof {
            assert(self.ops@ =~= old(self).ops@ + triangle_pass_ops());
        }
    }

    /// Record the texture-to-buffer copy, after the pass. The copy's
    /// layout is validated against the staging buffer here, before any
    /// submission is possible: on any mismatch nothing is appended and
    /// the fault is reported.
    pub fn record_copy_to_staging(&mut self, width: u32, height: u32, staging: &BufferDesc) -> (r:
        Result<(), ValidationError>)
        requires
            old(self).state == RecorderState::Recording,
            old(self).pass_recorded,
            !old(self).copy_recorded,
        ensures
            final(self).state == RecorderState::Recording,
            final(self).pass_recorded,
            (match copy_fault(width, height, *staging) {
                Some(e) => r == Err::<(), ValidationError>(e) && final(self).ops@ == old(self).ops@
                    && !final(self).copy_recorded,
                None => r == Ok::<(), ValidationError>(()) && final(self).ops@ == old(self).ops@
                    + seq![copy_op(width, height)] && final(self).copy_recorded,
            }),
    {
        if width == 0 || height == 0 {
            return Err(ValidationError::InvalidDimensions);
        }
        let pitch: u64 = row_pitch(width);
        if pitch > 0xFFFF_FFFF {
            return Err(ValidationError::SizeOverflow);
        }
        let expected: u64 = match image_bytes(width, height) {
            Ok(n) => n,
            Err(e) => {
                return Err(e);
            },
        };
        if staging.size != expected {
            return Err(ValidationError::StagingSizeMismatch);
        }
        if !(staging.usage.copy_dst && staging.usage.map_read) || staging.mapped_at_creation {
            return Err(ValidationError::StagingUsageMismatch);
        }
        self.ops.push(
            GpuOp::CopyTextureToBuffer {
                mip_level: 0,
                origin: Origin3d { x: 0, y: 0, z: 0 },
                offset: 0,
                bytes_per_row: pitch as u32,
                rows_per_image: height,
                extent: Extent3d { width, height, depth_or_array_layers: 1 },
            },
        );
        self.copy_recorded = true;
        proof {
            assert(self.ops@ =~= old(self).ops@ + seq![copy_op(width, height)]);
        }
        Ok(())
    }

    /// Finalize the sequence; it is immutable from here on.
    pub fn finish(&mut self)
        requires
            old(self).state == RecorderState::Recording,
            old(self).pass_recorded,
            old(self).copy_recorded,
        ensures
            final(self).state == RecorderState::Recorded,
            final(self).pass_recorded,
            final(self).copy_recorded,
            final(self).ops@ == old(self).ops@,
    {
        self.state = RecorderState::Recorded;
    }

    /// Hand the sequence to the execution queue. Irreversible: nothing
    /// accepts a submitted recorder, so the sequence cannot be amended
    /// or submitted twice.
    pub fn submit(&mut self)
        requires
            old(self).state == RecorderState::Recorded,
        ensures
            final(self).state == RecorderState::Submitted,
            final(self).ops@ == old(self).ops@,
    {
        self.state = RecorderState::Submitted;
    }
}

} // verus!
