//! What the renderer needs to know of the device it draws with.

use vstd::prelude::*;

verus! {

/// The limits and features of a render device, as far as the mesh pipeline
/// reads them.
#[derive(Clone, Copy, Debug, PartialEq, Eq, Structural, Hash)]
pub struct RenderDevice {
    /// How many storage buffers one shader stage can bind.
    pub max_storage_buffers_per_shader_stage: u32,
    /// Whether the device can bind arrays of textures and index them freely.
    pub texture_binding_arrays: bool,
}

/// What is known of the adapter behind a render device.
#[derive(Clone, Copy, Debug, PartialEq, Eq, Structural, Hash)]
pub struct RenderAdapter {
    /// Whether the adapter's driver handles binding arrays correctly.
    pub reliable_binding_arrays: bool,
}

/// Whether a device has no storage buffers, so that uniform buffers stand in
/// for them.
pub open spec fn spec_uses_uniform_buffers(render_device: RenderDevice) -> bool {
    render_device.max_storage_buffers_per_shader_stage == 0
}

/// Whether skins will use uniform buffers on account of storage buffers
/// being unavailable on this platform.
pub fn skins_use_uniform_buffers(render_device: &RenderDevice) -> (uniform: bool)
    ensures
        uniform == spec_uses_uniform_buffers(*render_device),
{
    render_device.max_storage_buffers_per_shader_stage == 0
}

/// Whether binding arrays (a.k.a. bindless textures) can be used: the
/// device must offer them and the adapter must handle them.
pub open spec fn spec_binding_arrays_are_usable(
    render_device: RenderDevice,
    render_adapter: RenderAdapter,
) -> bool {
    render_device.texture_binding_arrays && render_adapter.reliable_binding_arrays
}

/// Whether binding arrays (a.k.a. bindless textures) are usable on the
/// current render device.
pub fn binding_arrays_are_usable(
    render_device: &RenderDevice,
    render_adapter: &RenderAdapter,
) -> (usable: bool)
    ensures
        usable == spec_binding_arrays_are_usable(*render_device, *render_adapter),
{
    render_device.texture_binding_arrays && render_adapter.reliable_binding_arrays
}

} // verus!
