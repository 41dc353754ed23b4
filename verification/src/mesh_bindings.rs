//! Bind group layout related definitions for the mesh pipeline.

use crate::render_resource::{
    built_entries, BindGroup, BindGroupEntry, BindGroupEntryView, BindGroupLayoutDescriptor,
    BindGroupLayoutEntry, BindingResource, Buffer, ShaderStages,
};
use crate::renderer::{
    binding_arrays_are_usable, spec_binding_arrays_are_usable, RenderAdapter, RenderDevice,
};
use crate::slab::{GpuImage, LightmapSlab, TextureView};
use bevy_mesh::morph::MAX_MORPH_WEIGHTS;
use vstd::prelude::*;

pub mod entry;
pub mod layout_entry;

verus! {

/// The size in bytes of one mesh uniform: 164 bytes of fields, rounded up to
/// the 16-byte alignment of its vectors.
pub const MESH_UNIFORM_SIZE: u64 = 176;

/// The size in bytes of one morph weight.
pub const MORPH_WEIGHT_SIZE: usize = 4;

/// This is used to allocate buffers.
/// The correctness of the value depends on the GPU/platform.
/// The current value is chosen because it is guaranteed to work everywhere.
/// To allow for bigger values, a check must be made for the limits
/// of the GPU at runtime, which would mean not using consts anymore.
pub const MORPH_BUFFER_SIZE: usize = 1024;

/// The largest number of joints of one skin.
pub const MAX_JOINTS: usize = 256;

/// The size in bytes of one joint: a matrix of four by four 32-bit numbers.
pub const JOINT_SIZE: usize = 64;

/// The size in bytes of a buffer of joint matrices.
pub const JOINT_BUFFER_SIZE: usize = 16384;

/// `bevy_mesh::morph::MAX_MORPH_WEIGHTS`: the largest number of morph
/// weights of one mesh, which is 256.
#[verifier::external_body]
fn max_morph_weights() -> (count: usize)
    ensures
        count == 256,
{
    MAX_MORPH_WEIGHTS
}

/// The size in bytes of a buffer of morph weights: one weight for each of
/// the morph targets that a mesh may have.
pub fn morph_buffer_size() -> (size: usize)
    ensures
        size == MORPH_BUFFER_SIZE,
{
    max_morph_weights() * MORPH_WEIGHT_SIZE
}

/// The size of a buffer of joint matrices is that of the most joints that a
/// skin may have.
pub proof fn lemma_joint_buffer_size()
    ensures
        JOINT_BUFFER_SIZE == MAX_JOINTS * JOINT_SIZE,
{
}

/// All possible bind group layouts in the default mesh shader.
#[derive(Debug, PartialEq, Eq)]
pub struct MeshLayouts {
    /// The mesh model uniform (transform) and nothing else.
    pub model_only: BindGroupLayoutDescriptor,
    /// Includes the lightmap texture and uniform.
    pub lightmapped: BindGroupLayoutDescriptor,
    /// Also includes the uniform for skinning
    pub skinned: BindGroupLayoutDescriptor,
    /// Like [`MeshLayouts::skinned`], but includes slots for the previous
    /// frame's joint matrices, so that we can compute motion vectors.
    pub skinned_motion: BindGroupLayoutDescriptor,
    /// Also includes the uniform and morph attributes for morph targets.
    pub morphed: BindGroupLayoutDescriptor,
    /// Like [`MeshLayouts::morphed`], but includes a slot for the previous
    /// frame's morph weights, so that we can compute motion vectors.
    pub morphed_motion: BindGroupLayoutDescriptor,
    /// Also includes both uniforms for skinning and morph targets, also the
    /// morph target attributes binding.
    pub morphed_skinned: BindGroupLayoutDescriptor,
    /// Like [`MeshLayouts::morphed_skinned`], but includes slots for the
    /// previous frame's joint matrices and morph weights, so that we can
    /// compute motion vectors.
    pub morphed_skinned_motion: BindGroupLayoutDescriptor,
}

/// The bindings of the layout for meshes with nothing but a model uniform.
pub open spec fn model_only_entries(render_device: RenderDevice) -> Seq<BindGroupLayoutEntry> {
    seq![layout_entry::spec_model(render_device).spec_build(0, ShaderStages::spec_empty())]
}

/// The bindings of the layout for skinned meshes.
pub open spec fn skinned_entries(render_device: RenderDevice) -> Seq<BindGroupLayoutEntry> {
    built_entries(
        ShaderStages::spec_vertex(),
        seq![
            (0u32, layout_entry::spec_model(render_device)),
            (1u32, layout_entry::spec_skinning(render_device)),
        ],
    )
}

/// The bindings of the layout for skinned meshes with motion vectors.
pub open spec fn skinned_motion_entries(render_device: RenderDevice) -> Seq<BindGroupLayoutEntry> {
    built_entries(
        ShaderStages::spec_vertex(),
        seq![
            (0u32, layout_entry::spec_model(render_device)),
            (1u32, layout_entry::spec_skinning(render_device)),
            (6u32, layout_entry::spec_skinning(render_device)),
        ],
    )
}

/// The bindings of the layout for meshes with morph targets.
pub open spec fn morphed_entries(render_device: RenderDevice) -> Seq<BindGroupLayoutEntry> {
    built_entries(
        ShaderStages::spec_vertex(),
        seq![
            (0u32, layout_entry::spec_model(render_device)),
            (2u32, layout_entry::spec_weights()),
            (3u32, layout_entry::spec_targets()),
        ],
    )
}

/// The bindings of the layout for meshes with morph targets and motion
/// vectors.
pub open spec fn morphed_motion_entries(render_device: RenderDevice) -> Seq<BindGroupLayoutEntry> {
    built_entries(
        ShaderStages::spec_vertex(),
        seq![
            (0u32, layout_entry::spec_model(render_device)),
            (2u32, layout_entry::spec_weights()),
            (3u32, layout_entry::spec_targets()),
            (7u32, layout_entry::spec_weights()),
        ],
    )
}

/// The bindings of the layout for meshes with skins and morph targets.
pub open spec fn morphed_skinned_entries(render_device: RenderDevice) -> Seq<
    BindGroupLayoutEntry,
> {
    built_entries(
        ShaderStages::spec_vertex(),
        seq![
            (0u32, layout_entry::spec_model(render_device)),
            (1u32, layout_entry::spec_skinning(render_device)),
            (2u32, layout_entry::spec_weights()),
            (3u32, layout_entry::spec_targets()),
        ],
    )
}

/// The bindings of the layout for meshes with skins, morph targets and
/// motion vectors.
pub open spec fn morphed_skinned_motion_entries(render_device: RenderDevice) -> Seq<
    BindGroupLayoutEntry,
> {
    built_entries(
        ShaderStages::spec_vertex(),
        seq![
            (0u32, layout_entry::spec_model(render_device)),
            (1u32, layout_entry::spec_skinning(render_device)),
            (2u32, layout_entry::spec_weights()),
            (3u32, layout_entry::spec_targets()),
            (6u32, layout_entry::spec_skinning(render_device)),
            (7u32, layout_entry::spec_weights()),
        ],
    )
}

/// The bindings of the layout for lightmapped meshes: with a slab of
/// textures and a slab of samplers where binding arrays can be used, with
/// one texture and one sampler where they cannot.
pub open spec fn lightmapped_entries(render_device: RenderDevice, render_adapter: RenderAdapter)
    -> Seq<BindGroupLayoutEntry> {
    if spec_binding_arrays_are_usable(render_device, render_adapter) {
        built_entries(
            ShaderStages::spec_vertex(),
            seq![
                (0u32, layout_entry::spec_model(render_device)),
                (4u32, layout_entry::spec_lightmaps_texture_view_array()),
                (5u32, layout_entry::spec_lightmaps_sampler_array()),
            ],
        )
    } else {
        built_entries(
            ShaderStages::spec_vertex(),
            seq![
                (0u32, layout_entry::spec_model(render_device)),
                (4u32, layout_entry::spec_lightmaps_texture_view()),
                (5u32, layout_entry::spec_lightmaps_sampler()),
            ],
        )
    }
}

impl MeshLayouts {
    /// Whether these are the layouts for the given device and adapter.
    pub open spec fn is_for(&self, render_device: RenderDevice, render_adapter: RenderAdapter)
        -> bool {
        &&& self.model_only.label == "mesh_layout"
        &&& self.model_only.entries@ == model_only_entries(render_device)
        &&& self.lightmapped.label == "lightmapped_mesh_layout"
        &&& self.lightmapped.entries@ == lightmapped_entries(render_device, render_adapter)
        &&& self.skinned.label == "skinned_mesh_layout"
        &&& self.skinned.entries@ == skinned_entries(render_device)
        &&& self.skinned_motion.label == "skinned_motion_mesh_layout"
        &&& self.skinned_motion.entries@ == skinned_motion_entries(render_device)
        &&& self.morphed.label == "morphed_mesh_layout"
        &&& self.morphed.entries@ == morphed_entries(render_device)
        &&& self.morphed_motion.label == "morphed_mesh_layout"
        &&& self.morphed_motion.entries@ == morphed_motion_entries(render_device)
        &&& self.morphed_skinned.label == "morphed_skinned_mesh_layout"
        &&& self.morphed_skinned.entries@ == morphed_skinned_entries(render_device)
        &&& self.morphed_skinned_motion.label == "morphed_skinned_motion_mesh_layout"
        &&& self.morphed_skinned_motion.entries@ == morphed_skinned_motion_entries(render_device)
    }

    /// Prepare the layouts used by the default mesh.
    pub fn new(render_device: &RenderDevice, render_adapter: &RenderAdapter) -> (layouts: Self)
        ensures
            layouts.is_for(*render_device, *render_adapter),
    {
        MeshLayouts {
            model_only: Self::model_only_layout(render_device),
            lightmapped: Self::lightmapped_layout(render_device, render_adapter),
            skinned: Self::skinned_layout(render_device),
            skinned_motion: Self::skinned_motion_layout(render_device),
            morphed: Self::morphed_layout(render_device),
            morphed_motion: Self::morphed_motion_layout(render_device),
            morphed_skinned: Self::morphed_skinned_layout(render_device),
            morphed_skinned_motion: Self::morphed_skinned_motion_layout(render_device),
        }
    }

    // ---------- create individual BindGroupLayouts ----------
    pub fn model_only_layout(render_device: &RenderDevice) -> (layout: BindGroupLayoutDescriptor)
        ensures
            layout.label == "mesh_layout",
            layout.entries@ == model_only_entries(*render_device),
    {
        BindGroupLayoutDescriptor::single(
            "mesh_layout",
            ShaderStages::empty(),
            layout_entry::model(render_device),
        )
    }

    /// Creates the layout for skinned meshes.
    pub fn skinned_layout(render_device: &RenderDevice) -> (layout: BindGroupLayoutDescriptor)
        ensures
            layout.label == "skinned_mesh_layout",
            layout.entries@ == skinned_entries(*render_device),
    {
        BindGroupLayoutDescriptor::with_indices(
            "skinned_mesh_layout",
            ShaderStages::vertex(),
            vec![
                (0, layout_entry::model(render_device)),
                // The current frame's joint matrix buffer.
                (1, layout_entry::skinning(render_device)),
            ],
        )
    }

    /// Creates the layout for skinned meshes with the infrastructure to compute
    /// motion vectors.
    pub fn skinned_motion_layout(render_device: &RenderDevice) -> (layout:
        BindGroupLayoutDescriptor)
        ensures
            layout.label == "skinned_motion_mesh_layout",
            layout.entries@ == skinned_motion_entries(*render_device),
    {
        BindGroupLayoutDescriptor::with_indices(
            "skinned_motion_mesh_layout",
            ShaderStages::vertex(),
            vec![
                (0, layout_entry::model(render_device)),
                // The current frame's joint matrix buffer.
                (1, layout_entry::skinning(render_device)),
                // The previous frame's joint matrix buffer.
                (6, layout_entry::skinning(render_device)),
            ],
        )
    }

    /// Creates the layout for meshes with morph targets.
    pub fn morphed_layout(render_device: &RenderDevice) -> (layout: BindGroupLayoutDescriptor)
        ensures
            layout.label == "morphed_mesh_layout",
            layout.entries@ == morphed_entries(*render_device),
    {
        BindGroupLayoutDescriptor::with_indices(
            "morphed_mesh_layout",
            ShaderStages::vertex(),
            vec![
                (0, layout_entry::model(render_device)),
                // The current frame's morph weight buffer.
                (2, layout_entry::weights()),
                (3, layout_entry::targets()),
            ],
        )
    }

    /// Creates the layout for meshes with morph targets and the infrastructure
    /// to compute motion vectors.
    pub fn morphed_motion_layout(render_device: &RenderDevice) -> (layout:
        BindGroupLayoutDescriptor)
        ensures
            layout.label == "morphed_mesh_layout",
            layout.entries@ == morphed_motion_entries(*render_device),
    {
        BindGroupLayoutDescriptor::with_indices(
            "morphed_mesh_layout",
            ShaderStages::vertex(),
            vec![
                (0, layout_entry::model(render_device)),
                // The current frame's morph weight buffer.
                (2, layout_entry::weights()),
                (3, layout_entry::targets()),
                // The previous frame's morph weight buffer.
                (7, layout_entry::weights()),
            ],
        )
    }

    /// Creates the bind group layout for meshes with both skins and morph
    /// targets.
    pub fn morphed_skinned_layout(render_device: &RenderDevice) -> (layout:
        BindGroupLayoutDescriptor)
        ensures
            layout.label == "morphed_skinned_mesh_layout",
            layout.entries@ == morphed_skinned_entries(*render_device),
    {
        BindGroupLayoutDescriptor::with_indices(
            "morphed_skinned_mesh_layout",
            ShaderStages::vertex(),
            vec![
                (0, layout_entry::model(render_device)),
                // The current frame's joint matrix buffer.
                (1, layout_entry::skinning(render_device)),
                // The current frame's morph weight buffer.
                (2, layout_entry::weights()),
                (3, layout_entry::targets()),
            ],
        )
    }

    /// Creates the bind group layout for meshes with both skins and morph
    /// targets, in addition to the infrastructure to compute motion vectors.
    pub fn morphed_skinned_motion_layout(render_device: &RenderDevice) -> (layout:
        BindGroupLayoutDescriptor)
        ensures
            layout.label == "morphed_skinned_motion_mesh_layout",
            layout.entries@ == morphed_skinned_motion_entries(*render_device),
    {
        BindGroupLayoutDescriptor::with_indices(
            "morphed_skinned_motion_mesh_layout",
            ShaderStages::vertex(),
            vec![
                (0, layout_entry::model(render_device)),
                // The current frame's joint matrix buffer.
                (1, layout_entry::skinning(render_device)),
                // The current frame's morph weight buffer.
                (2, layout_entry::weights()),
                (3, layout_entry::targets()),
                // The previous frame's joint matrix buffer.
                (6, layout_entry::skinning(render_device)),
                // The previous frame's morph weight buffer.
                (7, layout_entry::weights()),
            ],
        )
    }

    pub fn lightmapped_layout(
        render_device: &RenderDevice,
        render_adapter: &RenderAdapter,
    ) -> (layout: BindGroupLayoutDescriptor)
        ensures
            layout.label == "lightmapped_mesh_layout",
            layout.entries@ == lightmapped_entries(*render_device, *render_adapter),
    {
        if binding_arrays_are_usable(render_device, render_adapter) {
            BindGroupLayoutDescriptor::with_indices(
                "lightmapped_mesh_layout",
                ShaderStages::vertex(),
                vec![
                    (0, layout_entry::model(render_device)),
                    (4, layout_entry::lightmaps_texture_view_array()),
                    (5, layout_entry::lightmaps_sampler_array()),
                ],
            )
        } else {
            BindGroupLayoutDescriptor::with_indices(
                "lightmapped_mesh_layout",
                ShaderStages::vertex(),
                vec![
                    (0, layout_entry::model(render_device)),
                    (4, layout_entry::lightmaps_texture_view()),
                    (5, layout_entry::lightmaps_sampler()),
                ],
            )
        }
    }

    // ---------- BindGroup methods ----------
    pub fn model_only<'a>(&'a self, model: &BindingResource) -> (group: BindGroup<'a>)
        ensures
            group.label == "model_only_mesh_bind_group",
            group.layout == &self.model_only,
            group.bindings() == seq![(BindGroupEntryView { binding: 0, resource: model@ })],
    {
        let entries = vec![entry::model(0, model.duplicate())];
        proof {
            assert(entries@.map_values(|entry: BindGroupEntry| entry@) =~= seq![
                (BindGroupEntryView { binding: 0, resource: model@ }),
            ]);
        }
        BindGroup { label: "model_only_mesh_bind_group", layout: &self.model_only, entries }
    }

    /// Creates the bind group for lightmapped meshes: with every texture and
    /// sampler of the slab where lightmaps are bindless, with those of the
    /// slab's first slot where they are not.
    pub fn lightmapped<'a>(
        &'a self,
        model: &BindingResource,
        lightmap_slab: &LightmapSlab,
        bindless_lightmaps: bool,
    ) -> (group: BindGroup<'a>)
        requires
            !bindless_lightmaps ==> lightmap_slab.capacity() > 0,
        ensures
            group.label == "lightmapped_mesh_bind_group",
            group.layout == &self.lightmapped,
            group.bindings() == lightmapped_bindings(
                model@,
                lightmap_slab.images(),
                bindless_lightmaps,
            ),
    {
        if bindless_lightmaps {
            let (texture_views, samplers) = lightmap_slab.build_binding_arrays();
            let entries = vec![
                entry::model(0, model.duplicate()),
                entry::lightmaps_texture_view_array(4, texture_views),
                entry::lightmaps_sampler_array(5, samplers),
            ];
            proof {
                assert(entries@.map_values(|entry: BindGroupEntry| entry@) =~= lightmapped_bindings(
                    model@,
                    lightmap_slab.images(),
                    bindless_lightmaps,
                ));
            }
            BindGroup { label: "lightmapped_mesh_bind_group", layout: &self.lightmapped, entries }
        } else {
            let (texture_view, sampler) = lightmap_slab.bindings_for_first_lightmap();
            let entries = vec![
                entry::model(0, model.duplicate()),
                entry::lightmaps_texture_view(4, &texture_view),
                entry::lightmaps_sampler(5, &sampler),
            ];
            proof {
                assert(entries@.map_values(|entry: BindGroupEntry| entry@) =~= lightmapped_bindings(
                    model@,
                    lightmap_slab.images(),
                    bindless_lightmaps,
                ));
            }
            BindGroup { label: "lightmapped_mesh_bind_group", layout: &self.lightmapped, entries }
        }
    }

    /// Creates the bind group for skinned meshes with no morph targets.
    pub fn skinned<'a>(
        &'a self,
        render_device: &RenderDevice,
        model: &BindingResource,
        current_skin: &Buffer,
    ) -> (group: BindGroup<'a>)
        ensures
            group.label == "skinned_mesh_bind_group",
            group.layout == &self.skinned,
            group.bindings() == seq![
                (BindGroupEntryView { binding: 0, resource: model@ }),
                entry::spec_skinning(*render_device, 1, *current_skin),
            ],
    {
        let entries = vec![
            entry::model(0, model.duplicate()),
            entry::skinning(render_device, 1, current_skin),
        ];
        proof {
            assert(entries@.map_values(|entry: BindGroupEntry| entry@) =~= seq![
                (BindGroupEntryView { binding: 0, resource: model@ }),
                entry::spec_skinning(*render_device, 1, *current_skin),
            ]);
        }
        BindGroup { label: "skinned_mesh_bind_group", layout: &self.skinned, entries }
    }

    /// Creates the bind group for skinned meshes with no morph targets, with
    /// the infrastructure to compute motion vectors.
    ///
    /// `current_skin` is the buffer of joint matrices for this frame;
    /// `prev_skin` is the buffer for the previous frame. The latter is used for
    /// motion vector computation. If there is no such applicable buffer,
    /// `current_skin` and `prev_skin` will reference the same buffer.
    pub fn skinned_motion<'a>(
        &'a self,
        render_device: &RenderDevice,
        model: &BindingResource,
        current_skin: &Buffer,
        prev_skin: &Buffer,
    ) -> (group: BindGroup<'a>)
        ensures
            group.label == "skinned_motion_mesh_bind_group",
            group.layout == &self.skinned_motion,
            group.bindings() == seq![
                (BindGroupEntryView { binding: 0, resource: model@ }),
                entry::spec_skinning(*render_device, 1, *current_skin),
                entry::spec_skinning(*render_device, 6, *prev_skin),
            ],
    {
        let entries = vec![
            entry::model(0, model.duplicate()),
            entry::skinning(render_device, 1, current_skin),
            entry::skinning(render_device, 6, prev_skin),
        ];
        proof {
            assert(entries@.map_values(|entry: BindGroupEntry| entry@) =~= seq![
                (BindGroupEntryView { binding: 0, resource: model@ }),
                entry::spec_skinning(*render_device, 1, *current_skin),
                entry::spec_skinning(*render_device, 6, *prev_skin),
            ]);
        }
        BindGroup { label: "skinned_motion_mesh_bind_group", layout: &self.skinned_motion, entries }
    }

    /// Creates the bind group for meshes with no skins but morph targets.
    pub fn morphed<'a>(
        &'a self,
        model: &BindingResource,
        current_weights: &Buffer,
        targets: &TextureView,
    ) -> (group: BindGroup<'a>)
        ensures
            group.label == "morphed_mesh_bind_group",
            group.layout == &self.morphed,
            group.bindings() == seq![
                (BindGroupEntryView { binding: 0, resource: model@ }),
                entry::spec_weights(2, *current_weights),
                entry::spec_texture(3, *targets),
            ],
    {
        let entries = vec![
            entry::model(0, model.duplicate()),
            entry::weights(2, current_weights),
            entry::targets(3, targets),
        ];
        proof {
            assert(entries@.map_values(|entry: BindGroupEntry| entry@) =~= seq![
                (BindGroupEntryView { binding: 0, resource: model@ }),
                entry::spec_weights(2, *current_weights),
                entry::spec_texture(3, *targets),
            ]);
        }
        BindGroup { label: "morphed_mesh_bind_group", layout: &self.morphed, entries }
    }

    /// Creates the bind group for meshes with no skins but morph targets, in
    /// addition to the infrastructure to compute motion vectors.
    ///
    /// `current_weights` is the buffer of morph weights for this frame;
    /// `prev_weights` is the buffer for the previous frame. The latter is used
    /// for motion vector computation. If there is no such applicable buffer,
    /// `current_weights` and `prev_weights` will reference the same buffer.
    pub fn morphed_motion<'a>(
        &'a self,
        model: &BindingResource,
        current_weights: &Buffer,
        targets: &TextureView,
        prev_weights: &Buffer,
    ) -> (group: BindGroup<'a>)
        ensures
            group.label == "morphed_motion_mesh_bind_group",
            group.layout == &self.morphed_motion,
            group.bindings() == seq![
                (BindGroupEntryView { binding: 0, resource: model@ }),
                entry::spec_weights(2, *current_weights),
                entry::spec_texture(3, *targets),
                entry::spec_weights(7, *prev_weights),
            ],
    {
        let entries = vec![
            entry::model(0, model.duplicate()),
            entry::weights(2, current_weights),
            entry::targets(3, targets),
            entry::weights(7, prev_weights),
        ];
        proof {
            assert(entries@.map_values(|entry: BindGroupEntry| entry@) =~= seq![
                (BindGroupEntryView { binding: 0, resource: model@ }),
                entry::spec_weights(2, *current_weights),
                entry::spec_texture(3, *targets),
                entry::spec_weights(7, *prev_weights),
            ]);
        }
        BindGroup { label: "morphed_motion_mesh_bind_group", layout: &self.morphed_motion, entries }
    }

    /// Creates the bind group for meshes with skins and morph targets.
    pub fn morphed_skinned<'a>(
        &'a self,
        render_device: &RenderDevice,
        model: &BindingResource,
        current_skin: &Buffer,
        current_weights: &Buffer,
        targets: &TextureView,
    ) -> (group: BindGroup<'a>)
        ensures
            group.label == "morphed_skinned_mesh_bind_group",
            group.layout == &self.morphed_skinned,
            group.bindings() == seq![
                (BindGroupEntryView { binding: 0, resource: model@ }),
                entry::spec_skinning(*render_device, 1, *current_skin),
                entry::spec_weights(2, *current_weights),
                entry::spec_texture(3, *targets),
            ],
    {
        let entries = vec![
            entry::model(0, model.duplicate()),
            entry::skinning(render_device, 1, current_skin),
            entry::weights(2, current_weights),
            entry::targets(3, targets),
        ];
        proof {
            assert(entries@.map_values(|entry: BindGroupEntry| entry@) =~= seq![
                (BindGroupEntryView { binding: 0, resource: model@ }),
                entry::spec_skinning(*render_device, 1, *current_skin),
                entry::spec_weights(2, *current_weights),
                entry::spec_texture(3, *targets),
            ]);
        }
        BindGroup {
            label: "morphed_skinned_mesh_bind_group",
            layout: &self.morphed_skinned,
            entries,
        }
    }

    /// Creates the bind group for meshes with skins and morph targets, in
    /// addition to the infrastructure to compute motion vectors.
    ///
    /// See the documentation for [`MeshLayouts::skinned_motion`] and
    /// [`MeshLayouts::morphed_motion`] above for more information about the
    /// `current_skin`, `prev_skin`, `current_weights`, and `prev_weights`
    /// buffers.
    pub fn morphed_skinned_motion<'a>(
        &'a self,
        render_device: &RenderDevice,
        model: &BindingResource,
        current_skin: &Buffer,
        current_weights: &Buffer,
        targets: &TextureView,
        prev_skin: &Buffer,
        prev_weights: &Buffer,
    ) -> (group: BindGroup<'a>)
        ensures
            group.label == "morphed_skinned_motion_mesh_bind_group",
            group.layout == &self.morphed_skinned_motion,
            group.bindings() == seq![
                (BindGroupEntryView { binding: 0, resource: model@ }),
                entry::spec_skinning(*render_device, 1, *current_skin),
                entry::spec_weights(2, *current_weights),
                entry::spec_texture(3, *targets),
                entry::spec_skinning(*render_device, 6, *prev_skin),
                entry::spec_weights(7, *prev_weights),
            ],
    {
        let entries = vec![
            entry::model(0, model.duplicate()),
            entry::skinning(render_device, 1, current_skin),
            entry::weights(2, current_weights),
            entry::targets(3, targets),
            entry::skinning(render_device, 6, prev_skin),
            entry::weights(7, prev_weights),
        ];
        proof {
            assert(entries@.map_values(|entry: BindGroupEntry| entry@) =~= seq![
                (BindGroupEntryView { binding: 0, resource: model@ }),
                entry::spec_skinning(*render_device, 1, *current_skin),
                entry::spec_weights(2, *current_weights),
                entry::spec_texture(3, *targets),
                entry::spec_skinning(*render_device, 6, *prev_skin),
                entry::spec_weights(7, *prev_weights),
            ]);
        }
        BindGroup {
            label: "morphed_skinned_motion_mesh_bind_group",
            layout: &self.morphed_skinned_motion,
            entries,
        }
    }
}

/// The bindings of the bind group for lightmapped meshes: the model, then
/// at binding 4 the textures and at binding 5 the samplers, of every slot
/// where lightmaps are bindless and of the first slot where they are not.
pub open spec fn lightmapped_bindings(
    model: crate::render_resource::BindingResourceView,
    images: Seq<GpuImage>,
    bindless_lightmaps: bool,
) -> Seq<BindGroupEntryView> {
    if bindless_lightmaps {
        seq![
            (BindGroupEntryView { binding: 0, resource: model }),
            entry::spec_texture_array(
                4,
                images.map_values(|image: GpuImage| image.texture_view),
            ),
            entry::spec_sampler_array(5, images.map_values(|image: GpuImage| image.sampler)),
        ]
    } else {
        seq![
            (BindGroupEntryView { binding: 0, resource: model }),
            entry::spec_texture(4, images[0].texture_view),
            entry::spec_sampler(5, images[0].sampler),
        ]
    }
}

} // verus!
