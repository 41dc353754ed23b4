use mesh_pipeline::mesh_bindings::{
    entry, layout_entry, morph_buffer_size, MeshLayouts, JOINT_BUFFER_SIZE, JOINT_SIZE,
    MAX_JOINTS, MESH_UNIFORM_SIZE, MORPH_BUFFER_SIZE, MORPH_WEIGHT_SIZE,
};
use mesh_pipeline::render_resource::{
    sampler, storage_buffer_read_only_sized, texture_2d, texture_3d, uniform_buffer_sized,
    BindGroupEntry, BindGroupLayoutDescriptor, BindGroupLayoutEntry, BindingResource,
    BindingType, Buffer, BufferBindingType, SamplerBindingType, ShaderStages,
    TextureSampleType, TextureViewDimension,
};
use mesh_pipeline::renderer::{
    binding_arrays_are_usable, skins_use_uniform_buffers, RenderAdapter, RenderDevice,
};
use mesh_pipeline::slab::{
    FallbackImage, GpuImage, LightmapSlab, Sampler, TextureView, LIGHTMAPS_PER_SLAB,
};

fn device(storage_buffers: u32, binding_arrays: bool) -> RenderDevice {
    RenderDevice {
        max_storage_buffers_per_shader_stage: storage_buffers,
        texture_binding_arrays: binding_arrays,
    }
}

fn adapter(reliable: bool) -> RenderAdapter {
    RenderAdapter {
        reliable_binding_arrays: reliable,
    }
}

fn storage(binding: u32, visibility: u32, size: u64) -> BindGroupLayoutEntry {
    BindGroupLayoutEntry {
        binding,
        visibility: ShaderStages { bits: visibility },
        ty: BindingType::Buffer {
            ty: BufferBindingType::Storage { read_only: true },
            has_dynamic_offset: false,
            min_binding_size: Some(size),
        },
        count: None,
    }
}

fn uniform(binding: u32, visibility: u32, size: u64) -> BindGroupLayoutEntry {
    BindGroupLayoutEntry {
        binding,
        visibility: ShaderStages { bits: visibility },
        ty: BindingType::Buffer {
            ty: BufferBindingType::Uniform,
            has_dynamic_offset: true,
            min_binding_size: Some(size),
        },
        count: None,
    }
}

fn targets(binding: u32) -> BindGroupLayoutEntry {
    BindGroupLayoutEntry {
        binding,
        visibility: ShaderStages { bits: 1 },
        ty: BindingType::Texture {
            sample_type: TextureSampleType::Float { filterable: false },
            view_dimension: TextureViewDimension::D3,
            multisampled: false,
        },
        count: None,
    }
}

fn lightmap_texture(binding: u32, count: Option<u32>) -> BindGroupLayoutEntry {
    BindGroupLayoutEntry {
        binding,
        visibility: ShaderStages { bits: 2 },
        ty: BindingType::Texture {
            sample_type: TextureSampleType::Float { filterable: true },
            view_dimension: TextureViewDimension::D2,
            multisampled: false,
        },
        count,
    }
}

fn lightmap_sampler(binding: u32, count: Option<u32>) -> BindGroupLayoutEntry {
    BindGroupLayoutEntry {
        binding,
        visibility: ShaderStages { bits: 2 },
        ty: BindingType::Sampler(SamplerBindingType::Filtering),
        count,
    }
}

fn model() -> BindingResource {
    BindingResource::Buffer {
        buffer: Buffer { id: 1 },
        offset: 16,
        size: Some(176),
    }
}

fn model_entry() -> BindGroupEntry {
    BindGroupEntry {
        binding: 0,
        resource: model(),
    }
}

fn buffer_entry(binding: u32, buffer: u64, size: Option<u64>) -> BindGroupEntry {
    BindGroupEntry {
        binding,
        resource: BindingResource::Buffer {
            buffer: Buffer { id: buffer },
            offset: 0,
            size,
        },
    }
}

fn image(id: u64) -> GpuImage {
    GpuImage {
        texture_view: TextureView { id },
        sampler: Sampler { id: id + 100 },
    }
}

#[test]
fn the_buffer_sizes_are_those_of_their_contents() {
    assert_eq!(MORPH_BUFFER_SIZE, 1024);
    assert_eq!(morph_buffer_size(), MORPH_BUFFER_SIZE);
    assert_eq!(
        morph_buffer_size(),
        bevy_mesh::morph::MAX_MORPH_WEIGHTS * MORPH_WEIGHT_SIZE
    );
    assert_eq!(JOINT_BUFFER_SIZE, 16384);
    assert_eq!(JOINT_BUFFER_SIZE, MAX_JOINTS * JOINT_SIZE);
    assert_eq!(MESH_UNIFORM_SIZE, 176);
    assert_eq!(LIGHTMAPS_PER_SLAB, 4);
}

#[test]
fn the_capabilities_of_the_device_decide() {
    assert!(skins_use_uniform_buffers(&device(0, true)));
    assert!(!skins_use_uniform_buffers(&device(1, true)));
    assert!(binding_arrays_are_usable(&device(8, true), &adapter(true)));
    assert!(!binding_arrays_are_usable(&device(8, false), &adapter(true)));
    assert!(!binding_arrays_are_usable(&device(8, true), &adapter(false)));
}

#[test]
fn builders_give_the_binding_types() {
    assert_eq!(
        uniform_buffer_sized(true, Some(64)).build(3, ShaderStages::vertex()),
        uniform(3, 1, 64)
    );
    assert_eq!(
        storage_buffer_read_only_sized(false, Some(64)).build(3, ShaderStages::fragment()),
        storage(3, 2, 64)
    );
    assert_eq!(
        texture_3d(TextureSampleType::Float { filterable: false }).build(3, ShaderStages::vertex()),
        targets(3)
    );
    assert_eq!(
        texture_2d(TextureSampleType::Float { filterable: true })
            .visibility(ShaderStages::fragment())
            .count(4)
            .build(4, ShaderStages::vertex()),
        lightmap_texture(4, Some(4))
    );
    assert_eq!(
        sampler(SamplerBindingType::Filtering)
            .visibility(ShaderStages::fragment())
            .build(5, ShaderStages::empty()),
        lightmap_sampler(5, None)
    );
    assert_eq!(ShaderStages::empty().bits, 0);
    assert_eq!(ShaderStages::vertex_fragment().bits, 3);
}

#[test]
fn layout_entries_follow_the_device() {
    assert_eq!(
        layout_entry::model(&device(8, true)).build(0, ShaderStages::vertex()),
        storage(0, 3, 176)
    );
    assert_eq!(
        layout_entry::model(&device(0, true)).build(0, ShaderStages::vertex()),
        uniform(0, 3, 176)
    );
    assert_eq!(
        layout_entry::skinning(&device(8, true)).build(1, ShaderStages::vertex()),
        storage(1, 1, 16384)
    );
    assert_eq!(
        layout_entry::skinning(&device(0, true)).build(1, ShaderStages::vertex()),
        uniform(1, 1, 16384)
    );
    assert_eq!(
        layout_entry::weights().build(2, ShaderStages::vertex()),
        uniform(2, 1, 1024)
    );
    assert_eq!(
        layout_entry::targets().build(3, ShaderStages::vertex()),
        targets(3)
    );
    assert_eq!(
        layout_entry::lightmaps_texture_view().build(4, ShaderStages::vertex()),
        lightmap_texture(4, None)
    );
    assert_eq!(
        layout_entry::lightmaps_sampler().build(5, ShaderStages::vertex()),
        lightmap_sampler(5, None)
    );
    assert_eq!(
        layout_entry::lightmaps_texture_view_array().build(4, ShaderStages::vertex()),
        lightmap_texture(4, Some(4))
    );
    assert_eq!(
        layout_entry::lightmaps_sampler_array().build(5, ShaderStages::vertex()),
        lightmap_sampler(5, Some(4))
    );
}

#[test]
fn the_layouts_for_a_device_with_storage_buffers_and_binding_arrays() {
    let layouts = MeshLayouts::new(&device(8, true), &adapter(true));
    assert_eq!(
        layouts.model_only,
        BindGroupLayoutDescriptor {
            label: "mesh_layout",
            entries: vec![storage(0, 3, 176)],
        }
    );
    assert_eq!(
        layouts.lightmapped,
        BindGroupLayoutDescriptor {
            label: "lightmapped_mesh_layout",
            entries: vec![
                storage(0, 3, 176),
                lightmap_texture(4, Some(4)),
                lightmap_sampler(5, Some(4)),
            ],
        }
    );
    assert_eq!(
        layouts.skinned,
        BindGroupLayoutDescriptor {
            label: "skinned_mesh_layout",
            entries: vec![storage(0, 3, 176), storage(1, 1, 16384)],
        }
    );
    assert_eq!(
        layouts.skinned_motion,
        BindGroupLayoutDescriptor {
            label: "skinned_motion_mesh_layout",
            entries: vec![
                storage(0, 3, 176),
                storage(1, 1, 16384),
                storage(6, 1, 16384),
            ],
        }
    );
    assert_eq!(
        layouts.morphed,
        BindGroupLayoutDescriptor {
            label: "morphed_mesh_layout",
            entries: vec![storage(0, 3, 176), uniform(2, 1, 1024), targets(3)],
        }
    );
    assert_eq!(
        layouts.morphed_motion,
        BindGroupLayoutDescriptor {
            label: "morphed_mesh_layout",
            entries: vec![
                storage(0, 3, 176),
                uniform(2, 1, 1024),
                targets(3),
                uniform(7, 1, 1024),
            ],
        }
    );
    assert_eq!(
        layouts.morphed_skinned,
        BindGroupLayoutDescriptor {
            label: "morphed_skinned_mesh_layout",
            entries: vec![
                storage(0, 3, 176),
                storage(1, 1, 16384),
                uniform(2, 1, 1024),
                targets(3),
            ],
        }
    );
    assert_eq!(
        layouts.morphed_skinned_motion,
        BindGroupLayoutDescriptor {
            label: "morphed_skinned_motion_mesh_layout",
            entries: vec![
                storage(0, 3, 176),
                storage(1, 1, 16384),
                uniform(2, 1, 1024),
                targets(3),
                storage(6, 1, 16384),
                uniform(7, 1, 1024),
            ],
        }
    );
}

#[test]
fn the_layouts_for_a_device_without_storage_buffers_or_binding_arrays() {
    let layouts = MeshLayouts::new(&device(0, false), &adapter(true));
    assert_eq!(layouts.model_only.entries, vec![uniform(0, 3, 176)]);
    assert_eq!(
        layouts.lightmapped.entries,
        vec![
            uniform(0, 3, 176),
            lightmap_texture(4, None),
            lightmap_sampler(5, None),
        ]
    );
    assert_eq!(
        layouts.skinned_motion.entries,
        vec![
            uniform(0, 3, 176),
            uniform(1, 1, 16384),
            uniform(6, 1, 16384),
        ]
    );
    assert_eq!(
        MeshLayouts::lightmapped_layout(&device(0, true), &adapter(false)).entries,
        vec![
            uniform(0, 3, 176),
            lightmap_texture(4, None),
            lightmap_sampler(5, None),
        ]
    );
    assert_eq!(
        MeshLayouts::model_only_layout(&device(0, false)),
        layouts.model_only
    );
    assert_eq!(
        MeshLayouts::skinned_layout(&device(0, false)),
        layouts.skinned
    );
    assert_eq!(
        MeshLayouts::skinned_motion_layout(&device(0, false)),
        layouts.skinned_motion
    );
    assert_eq!(
        MeshLayouts::morphed_layout(&device(0, false)),
        layouts.morphed
    );
    assert_eq!(
        MeshLayouts::morphed_motion_layout(&device(0, false)),
        layouts.morphed_motion
    );
    assert_eq!(
        MeshLayouts::morphed_skinned_layout(&device(0, false)),
        layouts.morphed_skinned
    );
    assert_eq!(
        MeshLayouts::morphed_skinned_motion_layout(&device(0, false)),
        layouts.morphed_skinned_motion
    );
}

#[test]
fn the_bind_groups_without_lightmaps() {
    let storage_device = device(8, true);
    let uniform_device = device(0, true);
    let layouts = MeshLayouts::new(&storage_device, &adapter(true));
    let targets_view = TextureView { id: 40 };

    let group = layouts.model_only(&model());
    assert_eq!(group.label, "model_only_mesh_bind_group");
    assert_eq!(group.layout, &layouts.model_only);
    assert_eq!(group.entries, vec![model_entry()]);

    let group = layouts.skinned(&storage_device, &model(), &Buffer { id: 2 });
    assert_eq!(group.label, "skinned_mesh_bind_group");
    assert_eq!(group.layout, &layouts.skinned);
    assert_eq!(group.entries, vec![model_entry(), buffer_entry(1, 2, None)]);

    let group = layouts.skinned(&uniform_device, &model(), &Buffer { id: 2 });
    assert_eq!(
        group.entries,
        vec![model_entry(), buffer_entry(1, 2, Some(16384))]
    );

    let group = layouts.skinned_motion(&uniform_device, &model(), &Buffer { id: 2 }, &Buffer { id: 3 });
    assert_eq!(group.label, "skinned_motion_mesh_bind_group");
    assert_eq!(group.layout, &layouts.skinned_motion);
    assert_eq!(
        group.entries,
        vec![
            model_entry(),
            buffer_entry(1, 2, Some(16384)),
            buffer_entry(6, 3, Some(16384)),
        ]
    );

    let group = layouts.morphed(&model(), &Buffer { id: 4 }, &targets_view);
    assert_eq!(group.label, "morphed_mesh_bind_group");
    assert_eq!(group.layout, &layouts.morphed);
    assert_eq!(
        group.entries,
        vec![
            model_entry(),
            buffer_entry(2, 4, Some(1024)),
            BindGroupEntry {
                binding: 3,
                resource: BindingResource::TextureView(targets_view),
            },
        ]
    );

    let group = layouts.morphed_motion(&model(), &Buffer { id: 4 }, &targets_view, &Buffer { id: 5 });
    assert_eq!(group.label, "morphed_motion_mesh_bind_group");
    assert_eq!(group.layout, &layouts.morphed_motion);
    assert_eq!(
        group.entries,
        vec![
            model_entry(),
            buffer_entry(2, 4, Some(1024)),
            BindGroupEntry {
                binding: 3,
                resource: BindingResource::TextureView(targets_view),
            },
            buffer_entry(7, 5, Some(1024)),
        ]
    );

    let group = layouts.morphed_skinned(
        &storage_device,
        &model(),
        &Buffer { id: 2 },
        &Buffer { id: 4 },
        &targets_view,
    );
    assert_eq!(group.label, "morphed_skinned_mesh_bind_group");
    assert_eq!(group.layout, &layouts.morphed_skinned);
    assert_eq!(
        group.entries,
        vec![
            model_entry(),
            buffer_entry(1, 2, None),
            buffer_entry(2, 4, Some(1024)),
            BindGroupEntry {
                binding: 3,
                resource: BindingResource::TextureView(targets_view),
            },
        ]
    );

    let group = layouts.morphed_skinned_motion(
        &storage_device,
        &model(),
        &Buffer { id: 2 },
        &Buffer { id: 4 },
        &targets_view,
        &Buffer { id: 3 },
        &Buffer { id: 5 },
    );
    assert_eq!(group.label, "morphed_skinned_motion_mesh_bind_group");
    assert_eq!(group.layout, &layouts.morphed_skinned_motion);
    assert_eq!(
        group.entries,
        vec![
            model_entry(),
            buffer_entry(1, 2, None),
            buffer_entry(2, 4, Some(1024)),
            BindGroupEntry {
                binding: 3,
                resource: BindingResource::TextureView(targets_view),
            },
            buffer_entry(6, 3, None),
            buffer_entry(7, 5, Some(1024)),
        ]
    );
}

#[test]
fn the_bind_group_for_lightmapped_meshes() {
    let layouts = MeshLayouts::new(&device(8, true), &adapter(true));
    let fallback = FallbackImage { d2: image(9) };
    let mut slab = LightmapSlab::new(&fallback, true);
    let first = slab.allocate(&fallback);
    let second = slab.allocate(&fallback);
    slab.insert(first, image(1));
    slab.insert(second, image(2));

    let group = layouts.lightmapped(&model(), &slab, true);
    assert_eq!(group.label, "lightmapped_mesh_bind_group");
    assert_eq!(group.layout, &layouts.lightmapped);
    assert_eq!(
        group.entries,
        vec![
            model_entry(),
            BindGroupEntry {
                binding: 4,
                resource: BindingResource::TextureViewArray(vec![
                    TextureView { id: 1 },
                    TextureView { id: 2 },
                    TextureView { id: 9 },
                    TextureView { id: 9 },
                ]),
            },
            BindGroupEntry {
                binding: 5,
                resource: BindingResource::SamplerArray(vec![
                    Sampler { id: 101 },
                    Sampler { id: 102 },
                    Sampler { id: 109 },
                    Sampler { id: 109 },
                ]),
            },
        ]
    );

    let group = layouts.lightmapped(&model(), &slab, false);
    assert_eq!(
        group.entries,
        vec![
            model_entry(),
            BindGroupEntry {
                binding: 4,
                resource: BindingResource::TextureView(TextureView { id: 1 }),
            },
            BindGroupEntry {
                binding: 5,
                resource: BindingResource::Sampler(Sampler { id: 101 }),
            },
        ]
    );
}

#[test]
fn single_entries_of_bind_groups() {
    assert_eq!(entry::model(0, model()), model_entry());
    assert_eq!(
        entry::skinning(&device(0, true), 6, &Buffer { id: 3 }),
        buffer_entry(6, 3, Some(16384))
    );
    assert_eq!(
        entry::skinning(&device(2, true), 6, &Buffer { id: 3 }),
        buffer_entry(6, 3, None)
    );
    assert_eq!(
        entry::weights(7, &Buffer { id: 5 }),
        buffer_entry(7, 5, Some(1024))
    );
    assert_eq!(
        entry::targets(3, &TextureView { id: 8 }),
        entry::lightmaps_texture_view(3, &TextureView { id: 8 })
    );
    assert_eq!(
        entry::lightmaps_sampler(5, &Sampler { id: 8 }),
        BindGroupEntry {
            binding: 5,
            resource: BindingResource::Sampler(Sampler { id: 8 }),
        }
    );
    assert_eq!(
        entry::lightmaps_texture_view_array(4, vec![TextureView { id: 8 }]),
        BindGroupEntry {
            binding: 4,
            resource: BindingResource::TextureViewArray(vec![TextureView { id: 8 }]),
        }
    );
    assert_eq!(
        entry::lightmaps_sampler_array(5, vec![]),
        BindGroupEntry {
            binding: 5,
            resource: BindingResource::SamplerArray(vec![]),
        }
    );
    let array = BindingResource::TextureViewArray(vec![TextureView { id: 1 }, TextureView { id: 2 }]);
    assert_eq!(array.duplicate(), array);
    assert_eq!(model().duplicate(), model());
}

#[test]
fn a_slab_hands_out_its_lowest_free_slot() {
    let fallback = FallbackImage { d2: image(9) };
    let mut slab = LightmapSlab::new(&fallback, true);
    assert_eq!(slab.free_slots_bitmask(), 0b1111);
    assert!(!slab.is_full());
    assert_eq!(slab.allocate(&fallback).get(), 0);
    assert_eq!(slab.allocate(&fallback).get(), 1);
    assert_eq!(slab.allocate(&fallback).get(), 2);
    assert_eq!(slab.free_slots_bitmask(), 0b1000);
    slab.remove(mesh_pipeline::index::LightmapSlotIndex::new(1).unwrap());
    assert_eq!(slab.free_slots_bitmask(), 0b1010);
    assert_eq!(slab.allocate(&fallback).get(), 1);
    assert_eq!(slab.allocate(&fallback).get(), 3);
    assert!(slab.is_full());
    assert_eq!(slab.free_slots_bitmask(), 0);
    assert_eq!(slab.bindings_for_first_lightmap(), (TextureView { id: 9 }, Sampler { id: 109 }));

    let mut single = LightmapSlab::new(&fallback, false);
    assert_eq!(single.free_slots_bitmask(), 0b1);
    assert_eq!(single.build_binding_arrays().0.len(), 1);
    assert_eq!(single.allocate(&fallback).get(), 0);
    assert!(single.is_full());
}
