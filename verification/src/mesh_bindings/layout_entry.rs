//! Individual layout entries.

use crate::mesh_bindings::{
    morph_buffer_size, JOINT_BUFFER_SIZE, MESH_UNIFORM_SIZE, MORPH_BUFFER_SIZE,
};
use crate::render_resource::{
    sampler, spec_sampler, spec_storage_buffer_read_only_sized, spec_texture,
    spec_uniform_buffer_sized, storage_buffer_read_only_sized, texture_2d, texture_3d,
    uniform_buffer_sized, BindGroupLayoutEntryBuilder, SamplerBindingType, ShaderStages,
    TextureSampleType, TextureViewDimension,
};
use crate::renderer::{skins_use_uniform_buffers, spec_uses_uniform_buffers, RenderDevice};
use crate::slab::LIGHTMAPS_PER_SLAB;
use vstd::prelude::*;

verus! {

/// The entry for the array of mesh uniforms: a read-only storage buffer
/// where the device has storage buffers, else a uniform buffer at a dynamic
/// offset; seen by the vertex and fragment stages.
pub open spec fn spec_model(render_device: RenderDevice) -> BindGroupLayoutEntryBuilder {
    if spec_uses_uniform_buffers(render_device) {
        spec_uniform_buffer_sized(true, Some(MESH_UNIFORM_SIZE)).spec_visibility(
            ShaderStages::spec_vertex_fragment(),
        )
    } else {
        spec_storage_buffer_read_only_sized(false, Some(MESH_UNIFORM_SIZE)).spec_visibility(
            ShaderStages::spec_vertex_fragment(),
        )
    }
}

/// The entry for a buffer of joint matrices.
pub open spec fn spec_skinning(render_device: RenderDevice) -> BindGroupLayoutEntryBuilder {
    if spec_uses_uniform_buffers(render_device) {
        spec_uniform_buffer_sized(true, Some(JOINT_BUFFER_SIZE as u64))
    } else {
        spec_storage_buffer_read_only_sized(false, Some(JOINT_BUFFER_SIZE as u64))
    }
}

/// The entry for a buffer of morph weights.
pub open spec fn spec_weights() -> BindGroupLayoutEntryBuilder {
    spec_uniform_buffer_sized(true, Some(MORPH_BUFFER_SIZE as u64))
}

/// The entry for the texture of morph targets.
pub open spec fn spec_targets() -> BindGroupLayoutEntryBuilder {
    spec_texture(TextureSampleType::Float { filterable: false }, TextureViewDimension::D3)
}

/// The entry for one lightmap texture.
pub open spec fn spec_lightmaps_texture_view() -> BindGroupLayoutEntryBuilder {
    spec_texture(
        TextureSampleType::Float { filterable: true },
        TextureViewDimension::D2,
    ).spec_visibility(ShaderStages::spec_fragment())
}

/// The entry for one lightmap sampler.
pub open spec fn spec_lightmaps_sampler() -> BindGroupLayoutEntryBuilder {
    spec_sampler(SamplerBindingType::Filtering).spec_visibility(ShaderStages::spec_fragment())
}

/// The entry for a slab of lightmap textures.
pub open spec fn spec_lightmaps_texture_view_array() -> BindGroupLayoutEntryBuilder {
    spec_lightmaps_texture_view().spec_count(LIGHTMAPS_PER_SLAB as u32)
}

/// The entry for a slab of lightmap samplers.
pub open spec fn spec_lightmaps_sampler_array() -> BindGroupLayoutEntryBuilder {
    spec_lightmaps_sampler().spec_count(LIGHTMAPS_PER_SLAB as u32)
}

pub fn model(render_device: &RenderDevice) -> (builder: BindGroupLayoutEntryBuilder)
    ensures
        builder == spec_model(*render_device),
{
    let layout = if skins_use_uniform_buffers(render_device) {
        uniform_buffer_sized(true, Some(MESH_UNIFORM_SIZE))
    } else {
        storage_buffer_read_only_sized(false, Some(MESH_UNIFORM_SIZE))
    };
    layout.visibility(ShaderStages::vertex_fragment())
}

pub fn skinning(render_device: &RenderDevice) -> (builder: BindGroupLayoutEntryBuilder)
    ensures
        builder == spec_skinning(*render_device),
{
    // If we can use storage buffers, do so. Otherwise, fall back to uniform
    // buffers.
    let size = Some(JOINT_BUFFER_SIZE as u64);
    if skins_use_uniform_buffers(render_device) {
        uniform_buffer_sized(true, size)
    } else {
        storage_buffer_read_only_sized(false, size)
    }
}

pub fn weights() -> (builder: BindGroupLayoutEntryBuilder)
    ensures
        builder == spec_weights(),
{
    uniform_buffer_sized(true, Some(morph_buffer_size() as u64))
}

pub fn targets() -> (builder: BindGroupLayoutEntryBuilder)
    ensures
        builder == spec_targets(),
{
    texture_3d(TextureSampleType::Float { filterable: false })
}

pub fn lightmaps_texture_view() -> (builder: BindGroupLayoutEntryBuilder)
    ensures
        builder == spec_lightmaps_texture_view(),
{
    texture_2d(TextureSampleType::Float { filterable: true }).visibility(ShaderStages::fragment())
}

pub fn lightmaps_sampler() -> (builder: BindGroupLayoutEntryBuilder)
    ensures
        builder == spec_lightmaps_sampler(),
{
    sampler(SamplerBindingType::Filtering).visibility(ShaderStages::fragment())
}

pub fn lightmaps_texture_view_array() -> (builder: BindGroupLayoutEntryBuilder)
    ensures
        builder == spec_lightmaps_texture_view_array(),
{
    texture_2d(TextureSampleType::Float { filterable: true }).visibility(
        ShaderStages::fragment(),
    ).count(LIGHTMAPS_PER_SLAB as u32)
}

pub fn lightmaps_sampler_array() -> (builder: BindGroupLayoutEntryBuilder)
    ensures
        builder == spec_lightmaps_sampler_array(),
{
    sampler(SamplerBindingType::Filtering).visibility(ShaderStages::fragment()).count(
        LIGHTMAPS_PER_SLAB as u32,
    )
}

} // verus!
