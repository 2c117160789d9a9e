//! Declarative descriptors for the GPU-side resources — textures,
//! sampler, staging buffer, binding layout — with the derived
//! parameters and the validity conditions each must satisfy before the
//! unverified shell hands them to the device.

use vstd::prelude::*;
use crate::errors::ValidationError;
use crate::layout::{image_bytes, spec_image_bytes};
use crate::mip::{full_mip_chain_len, mip_level_count};

verus! {

/// Pipeline stage a program runs in, and the stage a binding is
/// visible to.
#[derive(Clone, Copy, Debug, PartialEq, Eq, Structural)]
pub enum ShaderStage {
    Vertex,
    Fragment,
}

/// Pixel formats this design touches: an 8-bit-per-channel sampled
/// texture and a 32-bit-float-per-channel render target.
#[derive(Clone, Copy, Debug, PartialEq, Eq, Structural)]
pub enum TextureFormat {
    Rgba8Unorm,
    Rgba32Float,
}

/// Ways a texture may be used; a descriptor requests a subset.
#[derive(Clone, Copy, Debug, PartialEq, Eq, Structural)]
pub struct TextureUsages {
    /// May be bound to a pipeline as a sampled texture.
    pub texture_binding: bool,
    /// May be the destination of a copy.
    pub copy_dst: bool,
    /// May be rendered into.
    pub render_attachment: bool,
    /// May be the source of a copy.
    pub copy_src: bool,
}

/// Three-dimensional extent; this design only ever uses depth 1.
#[derive(Clone, Copy, Debug, PartialEq, Eq, Structural)]
pub struct Extent3d {
    pub width: u32,
    pub height: u32,
    pub depth_or_array_layers: u32,
}

/// Everything the device needs to create a two-dimensional texture.
#[derive(Clone, Copy, Debug, PartialEq, Eq, Structural)]
pub struct TextureDesc {
    pub size: Extent3d,
    pub mip_level_count: u32,
    pub sample_count: u32,
    pub format: TextureFormat,
    pub usage: TextureUsages,
}

impl TextureDesc {
    /// A descriptor the device will accept: non-empty single-layer
    /// extent, no multisampling, at least one mip level.
    pub open spec fn well_formed(self) -> bool {
        &&& self.size.width > 0
        &&& self.size.height > 0
        &&& self.size.depth_or_array_layers == 1
        &&& self.sample_count == 1
        &&& self.mip_level_count >= 1
    }
}

/// Texture addressing outside [0, 1): clamp or wrap.
#[derive(Clone, Copy, Debug, PartialEq, Eq, Structural)]
pub enum AddressMode {
    ClampToEdge,
    Repeat,
}

/// Sampling filter within and across mip levels.
#[derive(Clone, Copy, Debug, PartialEq, Eq, Structural)]
pub enum FilterMode {
    Nearest,
    Linear,
}

/// Level-of-detail clamp. The design fixes it to the full range
/// (minimum 0, no upper bound), so the one policy is symbolic here and
/// the shell translates it to the device's numeric extremes.
#[derive(Clone, Copy, Debug, PartialEq, Eq, Structural)]
pub enum LodClamp {
    FullRange,
}

/// Everything the device needs to create a sampler.
#[derive(Clone, Copy, Debug, PartialEq, Eq, Structural)]
pub struct SamplerDesc {
    pub address_mode_u: AddressMode,
    pub address_mode_v: AddressMode,
    pub address_mode_w: AddressMode,
    pub mag_filter: FilterMode,
    pub min_filter: FilterMode,
    pub mipmap_filter: FilterMode,
    /// 1 means anisotropic filtering is disabled.
    pub anisotropy_clamp: u16,
    pub lod_clamp: LodClamp,
}

impl SamplerDesc {
    /// A sampler bound beside a texture with more than one mip level
    /// must filter across levels, or a level-of-detail query against
    /// it observes nothing meaningful.
    pub open spec fn supports_mip_chain(self, texture: TextureDesc) -> bool {
        texture.mip_level_count > 1 ==> self.mipmap_filter == FilterMode::Linear
    }
}

/// Ways a buffer may be used; a descriptor requests a subset.
#[derive(Clone, Copy, Debug, PartialEq, Eq, Structural)]
pub struct BufferUsages {
    /// May be the destination of a copy.
    pub copy_dst: bool,
    /// May be mapped for reading by the host.
    pub map_read: bool,
}

/// Everything the device needs to create a buffer.
#[derive(Clone, Copy, Debug, PartialEq, Eq, Structural)]
pub struct BufferDesc {
    pub size: u64,
    pub usage: BufferUsages,
    pub mapped_at_creation: bool,
}

impl BufferDesc {
    /// A staging buffer for readback: written by the device-side copy,
    /// then mapped for host reads, and not born mapped.
    pub open spec fn is_staging(self) -> bool {
        &&& self.usage.copy_dst
        &&& self.usage.map_read
        &&& !self.mapped_at_creation
    }
}

/// Kind of resource a binding slot carries.
#[derive(Clone, Copy, Debug, PartialEq, Eq, Structural)]
pub enum BindingKind {
    SampledTexture,
    Sampler,
}

/// One slot of a binding layout.
#[derive(Clone, Copy, Debug, PartialEq, Eq, Structural)]
pub struct BindingLayoutEntry {
    pub binding: u32,
    pub visibility: ShaderStage,
    pub kind: BindingKind,
}

/// The declared contract of which resource occupies which numbered
/// slot, shared between the pipeline and the bound resource group.
#[derive(Clone, Debug)]
pub struct BindingLayout {
    pub entries: Vec<BindingLayoutEntry>,
}

impl BindingLayout {
    /// No two entries may claim the same binding index.
    pub open spec fn bindings_unique(self) -> bool {
        forall|i: int, j: int|
            0 <= i < j < self.entries@.len() ==> self.entries@[i].binding != self.entries@[
                j
            ].binding
    }

    /// Some entry occupies `binding` with resource kind `kind`.
    pub open spec fn has_binding(self, binding: u32, kind: BindingKind) -> bool {
        exists|i: int|
            0 <= i < self.entries@.len() && self.entries@[i].binding == binding && self.entries@[
                i
            ].kind == kind
    }

    /// Whether some entry occupies `binding` with kind `kind`.
    pub fn find_binding(&self, binding: u32, kind: BindingKind) -> (r: bool)
        ensures
            r == self.has_binding(binding, kind),
    {
        let mut i: usize = 0;
        while i < self.entries.len()
            invariant
                i <= self.entries@.len(),
                forall|j: int|
                    0 <= j < i ==> !(self.entries@[j].binding == binding && self.entries@[j].kind
                        == kind),
            decreases self.entries@.len() - i,
        {
            if self.entries[i].binding == binding && self.entries[i].kind == kind {
                return true;
            }
            i = i + 1;
        }
        false
    }
}

/// The mip-mapped texture the fragment stage queries: a full mip
/// chain, sampled by the fragment stage, filled by copies.
pub fn mip_texture_desc(width: u32, height: u32) -> (r: Result<TextureDesc, ValidationError>)
    ensures
        width == 0 || height == 0 ==> r == Err::<TextureDesc, ValidationError>(
            ValidationError::InvalidDimensions,
        ),
        width > 0 && height > 0 ==> (r matches Ok(d) && d == (TextureDesc {
            size: Extent3d { width, height, depth_or_array_layers: 1 },
            mip_level_count: d.mip_level_count,
            sample_count: 1,
            format: TextureFormat::Rgba8Unorm,
            usage: TextureUsages {
                texture_binding: true,
                copy_dst: true,
                render_attachment: false,
                copy_src: false,
            },
        }) && d.mip_level_count as nat == full_mip_chain_len(width as nat, height as nat)
            && d.well_formed()),
{
    let mip_levels = match mip_level_count(width, height) {
        Ok(c) => c,
        Err(e) => {
            return Err(e);
        },
    };
    Ok(
        TextureDesc {
            size: Extent3d { width, height, depth_or_array_layers: 1 },
            mip_level_count: mip_levels,
            sample_count: 1,
            format: TextureFormat::Rgba8Unorm,
            usage: TextureUsages {
                texture_binding: true,
                copy_dst: true,
                render_attachment: false,
                copy_src: false,
            },
        },
    )
}

/// The offscreen render target: a single-level float texture that the
/// pass renders into and the readback copy reads from.
pub fn render_target_desc(width: u32, height: u32) -> (r: Result<TextureDesc, ValidationError>)
    ensures
        width == 0 || height == 0 ==> r == Err::<TextureDesc, ValidationError>(
            ValidationError::InvalidDimensions,
        ),
        width > 0 && height > 0 ==> r == Ok::<TextureDesc, ValidationError>(
            TextureDesc {
                size: Extent3d { width, height, depth_or_array_layers: 1 },
                mip_level_count: 1,
                sample_count: 1,
                format: TextureFormat::Rgba32Float,
                usage: TextureUsages {
                    texture_binding: false,
                    copy_dst: false,
                    render_attachment: true,
                    copy_src: true,
                },
            },
        ),
{
    if width == 0 || height == 0 {
        return Err(ValidationError::InvalidDimensions);
    }
    Ok(
        TextureDesc {
            size: Extent3d { width, height, depth_or_array_layers: 1 },
            mip_level_count: 1,
            sample_count: 1,
            format: TextureFormat::Rgba32Float,
            usage: TextureUsages {
                texture_binding: false,
                copy_dst: false,
                render_attachment: true,
                copy_src: true,
            },
        },
    )
}

/// The sampler the fragment stage's level-of-detail query runs
/// against: clamped addressing, linear filtering within and across mip
/// levels, anisotropy disabled, full level-of-detail range.
pub fn lod_query_sampler_desc() -> (r: SamplerDesc)
    ensures
        r == (SamplerDesc {
            address_mode_u: AddressMode::ClampToEdge,
            address_mode_v: AddressMode::ClampToEdge,
            address_mode_w: AddressMode::ClampToEdge,
            mag_filter: FilterMode::Linear,
            min_filter: FilterMode::Linear,
            mipmap_filter: FilterMode::Linear,
            anisotropy_clamp: 1,
            lod_clamp: LodClamp::FullRange,
        }),
        forall|t: TextureDesc| r.supports_mip_chain(t),
{
    SamplerDesc {
        address_mode_u: AddressMode::ClampToEdge,
        address_mode_v: AddressMode::ClampToEdge,
        address_mode_w: AddressMode::ClampToEdge,
        mag_filter: FilterMode::Linear,
        min_filter: FilterMode::Linear,
        mipmap_filter: FilterMode::Linear,
        anisotropy_clamp: 1,
        lod_clamp: LodClamp::FullRange,
    }
}

/// The staging buffer for readback, sized to the output image exactly:
/// width * height * 16 bytes, no row padding.
pub fn staging_buffer_desc(width: u32, height: u32) -> (r: Result<BufferDesc, ValidationError>)
    ensures
        width == 0 || height == 0 ==> r == Err::<BufferDesc, ValidationError>(
            ValidationError::InvalidDimensions,
        ),
        width > 0 && height > 0 && spec_image_bytes(width as nat, height as nat) > u64::MAX ==> r
            == Err::<BufferDesc, ValidationError>(ValidationError::SizeOverflow),
        width > 0 && height > 0 && spec_image_bytes(width as nat, height as nat) <= u64::MAX ==> r
            == Ok::<BufferDesc, ValidationError>(
            BufferDesc {
                size: spec_image_bytes(width as nat, height as nat) as u64,
                usage: BufferUsages { copy_dst: true, map_read: true },
                mapped_at_creation: false,
            },
        ),
        r matches Ok(d) ==> d.is_staging(),
{
    if width == 0 || height == 0 {
        return Err(ValidationError::InvalidDimensions);
    }
    let size = match image_bytes(width, height) {
        Ok(n) => n,
        Err(e) => {
            return Err(e);
        },
    };
    Ok(
        BufferDesc {
            size,
            usage: BufferUsages { copy_dst: true, map_read: true },
            mapped_at_creation: false,
        },
    )
}

/// The fixed binding layout of this design: the fragment stage sees a
/// sampled texture at binding 0 and a sampler at binding 1.
pub fn lod_query_binding_layout() -> (r: BindingLayout)
    ensures
        r.entries@.len() == 2,
        r.entries@[0] == (BindingLayoutEntry {
            binding: 0,
            visibility: ShaderStage::Fragment,
            kind: BindingKind::SampledTexture,
        }),
        r.entries@[1] == (BindingLayoutEntry {
            binding: 1,
            visibility: ShaderStage::Fragment,
            kind: BindingKind::Sampler,
        }),
        r.bindings_unique(),
        r.has_binding(0, BindingKind::SampledTexture),
        r.has_binding(1, BindingKind::Sampler),
{
    let mut entries: Vec<BindingLayoutEntry> = Vec::new();
    entries.push(
        BindingLayoutEntry {
            binding: 0,
            visibility: ShaderStage::Fragment,
            kind: BindingKind::SampledTexture,
        },
    );
    entries.push(
        BindingLayoutEntry {
            binding: 1,
            visibility: ShaderStage::Fragment,
            kind: BindingKind::Sampler,
        },
    );
    let r = BindingLayout { entries };
    proof {
        assert(r.entries@[0].binding == 0);
        assert(r.entries@[1].binding == 1);
    }
    r
}

} // verus!
