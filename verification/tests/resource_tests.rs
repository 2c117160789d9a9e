use lod_readback::errors::ValidationError;
use lod_readback::resources::{
    lod_query_binding_layout, lod_query_sampler_desc, mip_texture_desc, render_target_desc,
    staging_buffer_desc, AddressMode, BindingKind, FilterMode, LodClamp, ShaderStage,
    TextureFormat,
};

#[test]
fn mip_texture_has_full_chain_and_sampling_usages() {
    let d = mip_texture_desc(512, 512).unwrap();
    assert_eq!(d.size.width, 512);
    assert_eq!(d.size.height, 512);
    assert_eq!(d.size.depth_or_array_layers, 1);
    assert_eq!(d.mip_level_count, 10);
    assert_eq!(d.sample_count, 1);
    assert_eq!(d.format, TextureFormat::Rgba8Unorm);
    assert!(d.usage.texture_binding);
    assert!(d.usage.copy_dst);
    assert!(!d.usage.render_attachment);
    assert!(!d.usage.copy_src);
}

#[test]
fn mip_texture_rejects_zero_dimension() {
    assert_eq!(mip_texture_desc(0, 512).unwrap_err(), ValidationError::InvalidDimensions);
    assert_eq!(mip_texture_desc(512, 0).unwrap_err(), ValidationError::InvalidDimensions);
}

#[test]
fn render_target_is_single_level_float_attachment() {
    let d = render_target_desc(512, 512).unwrap();
    assert_eq!(d.mip_level_count, 1);
    assert_eq!(d.sample_count, 1);
    assert_eq!(d.format, TextureFormat::Rgba32Float);
    assert!(d.usage.render_attachment);
    assert!(d.usage.copy_src);
    assert!(!d.usage.texture_binding);
    assert!(!d.usage.copy_dst);
}

#[test]
fn render_target_rejects_zero_dimension() {
    assert_eq!(render_target_desc(0, 0).unwrap_err(), ValidationError::InvalidDimensions);
}

#[test]
fn sampler_filters_linearly_with_clamped_addressing() {
    let s = lod_query_sampler_desc();
    assert_eq!(s.address_mode_u, AddressMode::ClampToEdge);
    assert_eq!(s.address_mode_v, AddressMode::ClampToEdge);
    assert_eq!(s.address_mode_w, AddressMode::ClampToEdge);
    assert_eq!(s.mag_filter, FilterMode::Linear);
    assert_eq!(s.min_filter, FilterMode::Linear);
    assert_eq!(s.mipmap_filter, FilterMode::Linear);
    assert_eq!(s.anisotropy_clamp, 1);
    assert_eq!(s.lod_clamp, LodClamp::FullRange);
}

#[test]
fn staging_buffer_sized_exactly_to_image() {
    let d = staging_buffer_desc(512, 512).unwrap();
    assert_eq!(d.size, 4_194_304);
    assert!(d.usage.copy_dst);
    assert!(d.usage.map_read);
    assert!(!d.mapped_at_creation);
}

#[test]
fn staging_buffer_rejects_zero_and_overflow() {
    assert_eq!(staging_buffer_desc(0, 1).unwrap_err(), ValidationError::InvalidDimensions);
    assert_eq!(
        staging_buffer_desc(u32::MAX, u32::MAX).unwrap_err(),
        ValidationError::SizeOverflow
    );
}

#[test]
fn binding_layout_follows_the_fixed_convention() {
    let l = lod_query_binding_layout();
    assert_eq!(l.entries.len(), 2);
    assert_eq!(l.entries[0].binding, 0);
    assert_eq!(l.entries[0].kind, BindingKind::SampledTexture);
    assert_eq!(l.entries[0].visibility, ShaderStage::Fragment);
    assert_eq!(l.entries[1].binding, 1);
    assert_eq!(l.entries[1].kind, BindingKind::Sampler);
    assert_eq!(l.entries[1].visibility, ShaderStage::Fragment);
}
