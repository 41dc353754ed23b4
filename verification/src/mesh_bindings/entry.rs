//! Individual entries for bind groups.

use crate::mesh_bindings::{morph_buffer_size, JOINT_BUFFER_SIZE, MORPH_BUFFER_SIZE};
use crate::render_resource::{
    BindGroupEntry, BindGroupEntryView, BindingResource, BindingResourceView, Buffer,
};
use crate::renderer::{skins_use_uniform_buffers, spec_uses_uniform_buffers, RenderDevice};
use crate::slab::{Sampler, TextureView};
use vstd::prelude::*;

verus! {

/// A binding of a buffer from its start: of `size` bytes, or whole.
pub open spec fn spec_entry(binding: u32, size: Option<u64>, buffer: Buffer) -> BindGroupEntryView {
    BindGroupEntryView {
        binding,
        resource: BindingResourceView::Buffer { buffer, offset: 0, size },
    }
}

/// A binding of a buffer of joint matrices: of the size of such a buffer
/// where uniform buffers are in use, else whole.
pub open spec fn spec_skinning(render_device: RenderDevice, binding: u32, buffer: Buffer)
    -> BindGroupEntryView {
    spec_entry(
        binding,
        if spec_uses_uniform_buffers(render_device) {
            Some(JOINT_BUFFER_SIZE as u64)
        } else {
            None
        },
        buffer,
    )
}

/// A binding of a buffer of morph weights.
pub open spec fn spec_weights(binding: u32, buffer: Buffer) -> BindGroupEntryView {
    spec_entry(binding, Some(MORPH_BUFFER_SIZE as u64), buffer)
}

/// A binding of one texture view.
pub open spec fn spec_texture(binding: u32, texture: TextureView) -> BindGroupEntryView {
    BindGroupEntryView { binding, resource: BindingResourceView::TextureView(texture) }
}

/// A binding of one sampler.
pub open spec fn spec_sampler(binding: u32, sampler: Sampler) -> BindGroupEntryView {
    BindGroupEntryView { binding, resource: BindingResourceView::Sampler(sampler) }
}

/// A binding of an array of texture views.
pub open spec fn spec_texture_array(binding: u32, textures: Seq<TextureView>)
    -> BindGroupEntryView {
    BindGroupEntryView { binding, resource: BindingResourceView::TextureViewArray(textures) }
}

/// A binding of an array of samplers.
pub open spec fn spec_sampler_array(binding: u32, samplers: Seq<Sampler>) -> BindGroupEntryView {
    BindGroupEntryView { binding, resource: BindingResourceView::SamplerArray(samplers) }
}

fn entry(binding: u32, size: Option<u64>, buffer: &Buffer) -> (entry: BindGroupEntry)
    requires
        size != Some(0u64),
    ensures
        entry@ == spec_entry(binding, size, *buffer),
{
    BindGroupEntry {
        binding,
        resource: BindingResource::Buffer { buffer: *buffer, offset: 0, size },
    }
}

pub fn model(binding: u32, resource: BindingResource) -> (entry: BindGroupEntry)
    ensures
        entry@ == (BindGroupEntryView { binding, resource: resource@ }),
{
    BindGroupEntry { binding, resource }
}

pub fn skinning(render_device: &RenderDevice, binding: u32, buffer: &Buffer) -> (entry:
    BindGroupEntry)
    ensures
        entry@ == spec_skinning(*render_device, binding, *buffer),
{
    let size = if skins_use_uniform_buffers(render_device) {
        Some(JOINT_BUFFER_SIZE as u64)
    } else {
        None
    };
    self::entry(binding, size, buffer)
}

pub fn weights(binding: u32, buffer: &Buffer) -> (entry: BindGroupEntry)
    ensures
        entry@ == spec_weights(binding, *buffer),
{
    self::entry(binding, Some(morph_buffer_size() as u64), buffer)
}

pub fn targets(binding: u32, texture: &TextureView) -> (entry: BindGroupEntry)
    ensures
        entry@ == spec_texture(binding, *texture),
{
    BindGroupEntry { binding, resource: BindingResource::TextureView(*texture) }
}

pub fn lightmaps_texture_view(binding: u32, texture: &TextureView) -> (entry: BindGroupEntry)
    ensures
        entry@ == spec_texture(binding, *texture),
{
    BindGroupEntry { binding, resource: BindingResource::TextureView(*texture) }
}

pub fn lightmaps_sampler(binding: u32, sampler: &Sampler) -> (entry: BindGroupEntry)
    ensures
        entry@ == spec_sampler(binding, *sampler),
{
    BindGroupEntry { binding, resource: BindingResource::Sampler(*sampler) }
}

pub fn lightmaps_texture_view_array(binding: u32, textures: Vec<TextureView>) -> (entry:
    BindGroupEntry)
    ensures
        entry@ == spec_texture_array(binding, textures@),
{
    BindGroupEntry { binding, resource: BindingResource::TextureViewArray(textures) }
}

pub fn lightmaps_sampler_array(binding: u32, samplers: Vec<Sampler>) -> (entry: BindGroupEntry)
    ensures
        entry@ == spec_sampler_array(binding, samplers@),
{
    BindGroupEntry { binding, resource: BindingResource::SamplerArray(samplers) }
}

} // verus!
