use mesh_pipeline::binned_phase::{CompareData, MaterialBindGroupIndex};
use mesh_pipeline::dense_map::DenseMap;
use mesh_pipeline::index::{InstanceIndex, LightmapSlabIndex, LightmapSlotIndex};
use mesh_pipeline::lightmaps::{empty_render_lightmaps, upsert_lightmap, RenderLightmapsU};
use mesh_pipeline::mesh::{Affine3, MeshPipeline, MeshTransforms, RenderMeshInstanceFlags};
use mesh_pipeline::mesh_batch::{
    IndirectParametersCpuMetadata, InverseTranspose3, MaterialBindGroupSlot, MaterialBindingId,
    MeshAllocator, MeshBufferSlice, MeshUniform, RenderMeshInstanceCpu, RenderMeshInstanceGpu,
    RenderMeshInstanceShared, RenderMeshInstances, SkinUniforms, UniformModeError,
    UntypedPhaseIndirectParametersBuffers,
};
use mesh_pipeline::model::ChangedLightmap;
use mesh_pipeline::render_lightmap::{AssetId, Lightmap, UVec2, UvRect};
use mesh_pipeline::slab::{FallbackImage, GpuImage, Sampler, TextureView};

fn shared(mesh: u64, group: u32, slot: u32, flags: u8, tag: u32) -> RenderMeshInstanceShared {
    RenderMeshInstanceShared {
        mesh_asset_id: AssetId::Index { bits: mesh },
        material_bindings_index: MaterialBindingId {
            group: MaterialBindGroupIndex { index: group },
            slot: MaterialBindGroupSlot { slot },
        },
        flags: RenderMeshInstanceFlags { bits: flags },
        tag,
    }
}

fn transforms() -> MeshTransforms {
    MeshTransforms {
        world_from_local: Affine3 {
            matrix: [0, 1, 2, 3, 4, 5, 6, 7, 8, 9, 10, 11],
        },
        previous_world_from_local: Affine3 {
            matrix: [100, 101, 102, 103, 104, 105, 106, 107, 108, 109, 110, 111],
        },
        flags: 0xabcd,
    }
}

fn inverse() -> InverseTranspose3 {
    InverseTranspose3 {
        a: [20, 21, 22, 23, 24, 25, 26, 27],
        b: 28,
    }
}

fn cpu_instances() -> RenderMeshInstances {
    let mut instances = DenseMap::new();
    instances.insert(
        1,
        RenderMeshInstanceCpu {
            shared: shared(7, 3, 5, RenderMeshInstanceFlags::AUTOMATIC_BATCHING, 42),
            transforms: transforms(),
            local_from_world_transpose: inverse(),
        },
    );
    instances.insert(
        2,
        RenderMeshInstanceCpu {
            shared: shared(8, 3, 6, RenderMeshInstanceFlags::SHADOW_CASTER, 0),
            transforms: transforms(),
            local_from_world_transpose: inverse(),
        },
    );
    RenderMeshInstances::CpuBuilding(instances)
}

fn gpu_instances() -> RenderMeshInstances {
    let mut instances = DenseMap::new();
    instances.insert(
        1,
        RenderMeshInstanceGpu {
            shared: shared(7, 3, 5, 0b11, 42),
            current_uniform_index: InstanceIndex::new(17).unwrap(),
        },
    );
    instances.insert(
        2,
        RenderMeshInstanceGpu {
            shared: shared(8, 3, 6, 0b01, 0),
            current_uniform_index: InstanceIndex::new(18).unwrap(),
        },
    );
    RenderMeshInstances::GpuBuilding(instances)
}

fn lightmaps() -> RenderLightmapsU {
    let (mut l, mut u) = empty_render_lightmaps(true, None);
    let fallback = FallbackImage {
        d2: GpuImage {
            texture_view: TextureView { id: 1 },
            sampler: Sampler { id: 2 },
        },
    };
    for entity in [10, 11, 12, 13, 14, 1] {
        upsert_lightmap(
            &mut l,
            &mut u,
            &fallback,
            &ChangedLightmap {
                entity,
                visible: true,
                lightmap: Lightmap {
                    image: AssetId::Index { bits: entity },
                    uv_rect: UvRect {
                        min_x: 0x10,
                        min_y: 0x20,
                        max_x: 0x30,
                        max_y: 0x40,
                    },
                    bicubic_sampling: false,
                },
            },
        )
        .unwrap();
    }
    u
}

fn no_lightmaps() -> RenderLightmapsU {
    empty_render_lightmaps(true, None).1
}

fn allocator() -> MeshAllocator {
    MeshAllocator {
        vertex_slices: vec![
            (
                AssetId::Index { bits: 7 },
                MeshBufferSlice {
                    start: 300,
                    end: 400,
                },
            ),
            (
                AssetId::Index { bits: 7 },
                MeshBufferSlice {
                    start: 500,
                    end: 600,
                },
            ),
        ],
    }
}

fn skins() -> SkinUniforms {
    let mut skin_indices = DenseMap::new();
    skin_indices.insert(1, 64);
    SkinUniforms { skin_indices }
}

fn key(group: u32, mesh: u64, slab: Option<u32>) -> CompareData {
    CompareData {
        material_bind_group: MaterialBindGroupIndex { index: group },
        mesh_asset: AssetId::Index { bits: mesh },
        lightmap_slab: slab.map(|slab| LightmapSlabIndex::new(slab).unwrap()),
    }
}

fn lit_uniform() -> MeshUniform {
    MeshUniform {
        world_from_local: [0, 3, 6, 9, 1, 4, 7, 10, 2, 5, 8, 11],
        previous_world_from_local: [100, 103, 106, 109, 101, 104, 107, 110, 102, 105, 108, 111],
        local_from_world_transpose_a: [20, 21, 22, 23, 24, 25, 26, 27],
        local_from_world_transpose_b: 28,
        flags: 0xabcd,
        lightmap_uv_rect: UVec2 {
            x: 0x0020_0010,
            y: 0x0040_0030,
        },
        first_vertex_index: 300,
        current_skin_index: 64,
        material_and_lightmap_bind_group_slot: 0x0001_0005,
        tag: 42,
        pad: 0,
    }
}

fn unlit_uniform() -> MeshUniform {
    MeshUniform {
        lightmap_uv_rect: UVec2 { x: 0, y: 0 },
        first_vertex_index: 0,
        current_skin_index: u32::MAX,
        material_and_lightmap_bind_group_slot: 0xffff_0006,
        tag: 0,
        ..lit_uniform()
    }
}

#[test]
fn the_uniform_of_an_instance_is_built_field_by_field() {
    assert_eq!(
        MeshUniform::new(
            &transforms(),
            &inverse(),
            300,
            MaterialBindGroupSlot { slot: 5 },
            Some((
                LightmapSlotIndex::new(1).unwrap(),
                UvRect {
                    min_x: 0x10,
                    min_y: 0x20,
                    max_x: 0x30,
                    max_y: 0x40
                }
            )),
            Some(64),
            Some(42),
        ),
        lit_uniform()
    );
    assert_eq!(
        MeshUniform::new(
            &transforms(),
            &inverse(),
            0,
            MaterialBindGroupSlot { slot: 6 },
            None,
            None,
            None,
        ),
        unlit_uniform()
    );
    assert_eq!(
        transforms().world_from_local.to_transpose(),
        [0, 3, 6, 9, 1, 4, 7, 10, 2, 5, 8, 11]
    );
}

#[test]
fn batch_data_for_uniforms_built_on_the_cpu() {
    let instances = cpu_instances();
    assert_eq!(
        MeshPipeline::get_batch_data(&instances, &lightmaps(), &allocator(), &skins(), 1),
        Ok(Some((lit_uniform(), Some(key(3, 7, Some(1))))))
    );
    assert_eq!(
        MeshPipeline::get_batch_data(&instances, &lightmaps(), &allocator(), &skins(), 2),
        Ok(Some((unlit_uniform(), None)))
    );
    assert_eq!(
        MeshPipeline::get_batch_data(&instances, &lightmaps(), &allocator(), &skins(), 3),
        Ok(None)
    );
    assert_eq!(
        MeshPipeline::get_batch_data(&instances, &no_lightmaps(), &allocator(), &skins(), 1)
            .unwrap()
            .unwrap()
            .1,
        Some(key(3, 7, None))
    );
    assert_eq!(
        MeshPipeline::get_binned_batch_data(&instances, &lightmaps(), &allocator(), &skins(), 1),
        Ok(Some(lit_uniform()))
    );
    assert_eq!(
        MeshPipeline::get_binned_batch_data(&instances, &lightmaps(), &allocator(), &skins(), 2),
        Ok(Some(unlit_uniform()))
    );
    assert_eq!(
        MeshPipeline::get_binned_batch_data(&instances, &lightmaps(), &allocator(), &skins(), 3),
        Ok(None)
    );
}

#[test]
fn batch_data_for_uniforms_built_on_the_gpu() {
    let instances = gpu_instances();
    assert_eq!(
        MeshPipeline::get_index_and_compare_data(&instances, &lightmaps(), 1),
        Ok(Some((
            InstanceIndex::new(17).unwrap(),
            Some(key(3, 7, Some(1)))
        )))
    );
    assert_eq!(
        MeshPipeline::get_index_and_compare_data(&instances, &lightmaps(), 2),
        Ok(Some((InstanceIndex::new(18).unwrap(), None)))
    );
    assert_eq!(
        MeshPipeline::get_index_and_compare_data(&instances, &lightmaps(), 3),
        Ok(None)
    );
    assert_eq!(
        MeshPipeline::get_binned_index(&instances, 1),
        Ok(InstanceIndex::new(17))
    );
    assert_eq!(MeshPipeline::get_binned_index(&instances, 3), Ok(None));
}

#[test]
fn a_function_for_the_other_mode_fails() {
    let cpu = cpu_instances();
    let gpu = gpu_instances();
    assert_eq!(
        MeshPipeline::get_batch_data(&gpu, &lightmaps(), &allocator(), &skins(), 1),
        Err(UniformModeError::GpuBuilding)
    );
    assert_eq!(
        MeshPipeline::get_binned_batch_data(&gpu, &lightmaps(), &allocator(), &skins(), 1),
        Err(UniformModeError::GpuBuilding)
    );
    assert_eq!(
        MeshPipeline::get_index_and_compare_data(&cpu, &lightmaps(), 1),
        Err(UniformModeError::CpuBuilding)
    );
    assert_eq!(
        MeshPipeline::get_binned_index(&cpu, 1),
        Err(UniformModeError::CpuBuilding)
    );
    assert_eq!(
        MeshPipeline::get_binned_index(&cpu, 3),
        Err(UniformModeError::CpuBuilding)
    );
}

#[test]
fn an_instance_batches_only_with_the_flag_for_it() {
    assert!(shared(1, 1, 1, 0b00010, 0).should_batch());
    assert!(shared(1, 1, 1, 0b11111, 0).should_batch());
    assert!(!shared(1, 1, 1, 0b11101, 0).should_batch());
    assert!(!shared(1, 1, 1, 0, 0).should_batch());
}

#[test]
fn the_first_slice_of_a_mesh_is_found() {
    assert_eq!(
        allocator().mesh_vertex_slice(&AssetId::Index { bits: 7 }),
        Some(MeshBufferSlice {
            start: 300,
            end: 400
        })
    );
    assert_eq!(
        allocator().mesh_vertex_slice(&AssetId::Index { bits: 8 }),
        None
    );
    assert_eq!(skins().skin_index(1), Some(64));
    assert_eq!(skins().skin_index(2), None);
}

#[test]
fn the_metadata_of_a_batch_goes_into_the_table_for_its_kind_of_mesh() {
    let blank = IndirectParametersCpuMetadata {
        base_output_index: 0,
        batch_set_index: 0,
    };
    let mut buffers = UntypedPhaseIndirectParametersBuffers {
        indexed: vec![blank; 3],
        non_indexed: vec![blank; 2],
    };
    MeshPipeline::write_batch_indirect_parameters_metadata(
        true,
        40,
        InstanceIndex::new(6),
        &mut buffers,
        2,
    );
    MeshPipeline::write_batch_indirect_parameters_metadata(false, 50, None, &mut buffers, 0);
    assert_eq!(
        buffers.indexed,
        vec![
            blank,
            blank,
            IndirectParametersCpuMetadata {
                base_output_index: 40,
                batch_set_index: 6
            }
        ]
    );
    assert_eq!(
        buffers.non_indexed,
        vec![
            IndirectParametersCpuMetadata {
                base_output_index: 50,
                batch_set_index: u32::MAX
            },
            blank
        ]
    );
}
