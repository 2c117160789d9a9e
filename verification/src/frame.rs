//! The frame plan: every descriptor of one render-and-readback cycle,
//! derived from the target dimensions and validated together, plus the
//! recording of the frame's full command sequence. The unverified
//! shell creates device resources from these descriptors verbatim and
//! replays the recorded operations.

use vstd::prelude::*;
use crate::commands::{copy_op, triangle_pass_ops, FrameRecorder, RecorderState};
use crate::errors::ValidationError;
use crate::layout::{row_pitch, spec_image_bytes, spec_row_pitch};
use crate::mip::full_mip_chain_len;
use crate::resources::{
    lod_query_binding_layout, lod_query_sampler_desc, mip_texture_desc, render_target_desc,
    staging_buffer_desc, BindingKind, BindingLayout, BufferDesc, SamplerDesc, TextureDesc,
    TextureFormat,
};

verus! {

/// Every declarative input of one cycle: the float render target, the
/// mip-mapped texture the fragment stage queries, its sampler, the
/// staging buffer, and the binding layout shared by pipeline and
/// resource group.
#[derive(Debug)]
pub struct FramePlan {
    pub width: u32,
    pub height: u32,
    pub render_target: TextureDesc,
    pub mip_texture: TextureDesc,
    pub sampler: SamplerDesc,
    pub staging: BufferDesc,
    pub layout: BindingLayout,
}

/// What holds of every plan this module hands out: non-empty
/// dimensions within the machine's stride limits, a staging buffer
/// sized to the image exactly, a render target and a full-mip-chain
/// texture with the right formats and usages, a sampler that filters
/// across mip levels, and the fixed binding convention.
pub open spec fn plan_well_formed(p: FramePlan) -> bool {
    &&& p.width > 0
    &&& p.height > 0
    &&& spec_row_pitch(p.width as nat) <= u32::MAX
    &&& spec_image_bytes(p.width as nat, p.height as nat) <= u64::MAX
    &&& p.staging.size == spec_image_bytes(p.width as nat, p.height as nat)
    &&& p.staging.is_staging()
    &&& p.render_target.well_formed()
    &&& p.render_target.size.width == p.width
    &&& p.render_target.size.height == p.height
    &&& p.render_target.mip_level_count == 1
    &&& p.render_target.format == TextureFormat::Rgba32Float
    &&& p.render_target.usage.render_attachment
    &&& p.render_target.usage.copy_src
    &&& p.mip_texture.well_formed()
    &&& p.mip_texture.size.width == p.width
    &&& p.mip_texture.size.height == p.height
    &&& p.mip_texture.mip_level_count as nat == full_mip_chain_len(
        p.width as nat,
        p.height as nat,
    )
    &&& p.mip_texture.format == TextureFormat::Rgba8Unorm
    &&& p.mip_texture.usage.texture_binding
    &&& p.mip_texture.usage.copy_dst
    &&& p.sampler.supports_mip_chain(p.mip_texture)
    &&& p.layout.bindings_unique()
    &&& p.layout.has_binding(0, BindingKind::SampledTexture)
    &&& p.layout.has_binding(1, BindingKind::Sampler)
}

/// Derives and validates every descriptor of one cycle. Zero
/// dimensions are `InvalidDimensions`; a row pitch beyond u32 or an
/// image beyond u64 is `SizeOverflow`; otherwise the plan is owed and
/// well-formed.
pub fn plan_frame(width: u32, height: u32) -> (r: Result<FramePlan, ValidationError>)
    ensures
        width == 0 || height == 0 ==> r == Err::<FramePlan, ValidationError>(
            ValidationError::InvalidDimensions,
        ),
        width > 0 && height > 0 && (spec_row_pitch(width as nat) > u32::MAX || spec_image_bytes(
            width as nat,
            height as nat,
        ) > u64::MAX) ==> r == Err::<FramePlan, ValidationError>(ValidationError::SizeOverflow),
        width > 0 && height > 0 && spec_row_pitch(width as nat) <= u32::MAX && spec_image_bytes(
            width as nat,
            height as nat,
        ) <= u64::MAX ==> (r matches Ok(p) && plan_well_formed(p) && p.width == width && p.height
            == height),
{
    if width == 0 || height == 0 {
        return Err(ValidationError::InvalidDimensions);
    }
    let pitch: u64 = row_pitch(width);
    if pitch > 0xFFFF_FFFF {
        return Err(ValidationError::SizeOverflow);
    }
    let staging = match staging_buffer_desc(width, height) {
        Ok(d) => d,
        Err(e) => {
            return Err(e);
        },
    };
    let render_target = match render_target_desc(width, height) {
        Ok(d) => d,
        Err(e) => {
            return Err(e);
        },
    };
    let mip_texture = match mip_texture_desc(width, height) {
        Ok(d) => d,
        Err(e) => {
            return Err(e);
        },
    };
    let sampler = lod_query_sampler_desc();
    let layout = lod_query_binding_layout();
    Ok(FramePlan { width, height, render_target, mip_texture, sampler, staging, layout })
}

/// Records the whole frame against a well-formed plan: the fixed
/// triangle pass, then the copy into the staging buffer. The sequence
/// comes back finalized, ready to submit, and is exactly the pass
/// followed by the copy.
pub fn record_frame(plan: &FramePlan) -> (r: FrameRecorder)
    requires
        plan_well_formed(*plan),
    ensures
        r.state == RecorderState::Recorded,
        r.ops@ == triangle_pass_ops() + seq![copy_op(plan.width, plan.height)],
{
    let mut rec = FrameRecorder::new();
    rec.begin();
    rec.record_triangle_pass();
    let copied = rec.record_copy_to_staging(plan.width, plan.height, &plan.staging);
    match copied {
        Ok(_) => {},
        Err(_) => {
            proof {
                assert(false);
            }
        },
    }
    rec.finish();
    proof {
        assert(rec.ops@ =~= triangle_pass_ops() + seq![copy_op(plan.width, plan.height)]);
    }
    rec
}

} // verus!
