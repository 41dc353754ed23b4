use mesh_pipeline::index::{InstanceIndex, LightmapSlabIndex, LightmapSlotIndex, LodIndex};
use mesh_pipeline::mesh::{
    MeshFlags, MeshPipelineKey, RenderMeshInstanceFlags, BASE_KEY_BITS, MORPH_TARGETS_BITS,
    PRIMITIVE_TOPOLOGY_MASK_BITS, PRIMITIVE_TOPOLOGY_SHIFT_BITS,
};
use mesh_pipeline::render_lightmap::{pack_lightmap_uv_rect, UVec2, UvRect};
use wgpu_types::PrimitiveTopology;

#[test]
fn mesh_key_msaa_samples() {
    for i in [1, 2, 4, 8, 16, 32, 64, 128] {
        assert_eq!(MeshPipelineKey::from_msaa_samples(i).msaa_samples(), i);
    }
}

#[test]
fn the_sample_count_stands_above_the_flags() {
    assert_eq!(MeshPipelineKey::from_msaa_samples(1).bits(), 0);
    assert_eq!(MeshPipelineKey::from_msaa_samples(4).bits(), 2 << 22);
    assert_eq!(MeshPipelineKey::from_msaa_samples(128).bits(), 7 << 22);
    assert_eq!(
        MeshPipelineKey::from_msaa_samples(128).bits(),
        MeshPipelineKey::MSAA_RESERVED_BITS
    );
    assert_eq!(MeshPipelineKey::from_msaa_samples(256).bits(), 0);
    assert_eq!(
        MeshPipelineKey::from_bits_retain(MeshPipelineKey::HDR | (3 << 22)).msaa_samples(),
        8
    );
}

#[test]
fn the_key_for_hdr_is_one_flag() {
    assert_eq!(MeshPipelineKey::from_hdr(true).bits(), MeshPipelineKey::HDR);
    assert_eq!(MeshPipelineKey::from_hdr(true).bits(), 1);
    assert_eq!(MeshPipelineKey::from_hdr(false).bits(), MeshPipelineKey::NONE);
}

#[test]
fn every_topology_can_be_read_back_from_its_key() {
    for topology in [
        PrimitiveTopology::PointList,
        PrimitiveTopology::LineList,
        PrimitiveTopology::LineStrip,
        PrimitiveTopology::TriangleList,
        PrimitiveTopology::TriangleStrip,
    ] {
        let key = MeshPipelineKey::from_primitive_topology(topology);
        assert_eq!(key.primitive_topology(), topology);
        assert_eq!(key.bits() & !(7 << 60), 0);
    }
    assert_eq!(
        MeshPipelineKey::from_primitive_topology(PrimitiveTopology::TriangleStrip).bits(),
        4 << 60
    );
    assert_eq!(
        MeshPipelineKey::from_primitive_topology(PrimitiveTopology::PointList).bits(),
        0
    );
}

#[test]
fn a_number_that_no_topology_has_reads_as_a_list_of_triangles() {
    for number in [5u64, 6, 7] {
        assert_eq!(
            MeshPipelineKey::from_bits_retain(number << 60).primitive_topology(),
            PrimitiveTopology::TriangleList
        );
    }
    assert_eq!(
        MeshPipelineKey::from_bits_retain((1 << 60) | MeshPipelineKey::HDR | MORPH_TARGETS_BITS)
            .primitive_topology(),
        PrimitiveTopology::LineList
    );
}

#[test]
fn the_bits_of_the_mesh_are_those_of_the_base_key() {
    assert_eq!(
        PRIMITIVE_TOPOLOGY_MASK_BITS,
        bevy_mesh::BaseMeshPipelineKey::PRIMITIVE_TOPOLOGY_MASK_BITS
    );
    assert_eq!(
        PRIMITIVE_TOPOLOGY_SHIFT_BITS,
        bevy_mesh::BaseMeshPipelineKey::PRIMITIVE_TOPOLOGY_SHIFT_BITS
    );
    assert_eq!(
        MORPH_TARGETS_BITS,
        bevy_mesh::BaseMeshPipelineKey::MORPH_TARGETS.bits()
    );
    assert_eq!(BASE_KEY_BITS, bevy_mesh::BaseMeshPipelineKey::all().bits());
    assert_eq!(MeshPipelineKey::morph_targets().bits(), 1 << 63);
    assert_eq!(MeshPipelineKey::MORPH_TARGETS, 1 << 63);
}

#[test]
fn the_bitfields_of_the_key_lie_side_by_side() {
    assert_eq!(MeshPipelineKey::LAST_FLAG, MeshPipelineKey::DISTANCE_FOG);
    assert_eq!(
        MeshPipelineKey::MSAA_SHIFT_BITS,
        MeshPipelineKey::LAST_FLAG.trailing_zeros() as u64 + 1
    );
    assert_eq!(
        MeshPipelineKey::BLEND_SHIFT_BITS,
        MeshPipelineKey::MSAA_SHIFT_BITS + 3
    );
    assert_eq!(
        MeshPipelineKey::TONEMAP_METHOD_SHIFT_BITS,
        MeshPipelineKey::BLEND_SHIFT_BITS + 3
    );
    assert_eq!(
        MeshPipelineKey::SHADOW_FILTER_METHOD_SHIFT_BITS,
        MeshPipelineKey::TONEMAP_METHOD_SHIFT_BITS + 3
    );
    assert_eq!(
        MeshPipelineKey::VIEW_PROJECTION_SHIFT_BITS,
        MeshPipelineKey::SHADOW_FILTER_METHOD_SHIFT_BITS + 2
    );
    assert_eq!(
        MeshPipelineKey::SCREEN_SPACE_SPECULAR_TRANSMISSION_SHIFT_BITS,
        MeshPipelineKey::VIEW_PROJECTION_SHIFT_BITS + 2
    );
    assert_eq!(MeshPipelineKey::BLEND_ALPHA, 3 << 25);
    assert_eq!(MeshPipelineKey::BLEND_ALPHA_TO_COVERAGE, 4 << 25);
    assert_eq!(MeshPipelineKey::TONEMAP_METHOD_BLENDER_FILMIC, 7 << 28);
    assert_eq!(MeshPipelineKey::SHADOW_FILTER_METHOD_TEMPORAL, 2 << 31);
    assert_eq!(MeshPipelineKey::VIEW_PROJECTION_ORTHOGRAPHIC, 2 << 33);
    assert_eq!(
        MeshPipelineKey::SCREEN_SPACE_SPECULAR_TRANSMISSION_ULTRA,
        3 << 35
    );
    assert_eq!(MeshPipelineKey::DISTANCE_FOG, 1 << 21);
    assert_eq!(
        (((MeshPipelineKey::LAST_FLAG << 1) - 1) | MeshPipelineKey::ALL_RESERVED_BITS)
            & BASE_KEY_BITS,
        0
    );
}

#[test]
fn mesh_flags_pack_the_flags_and_the_lod_index() {
    assert_eq!(
        MeshFlags::from_components(false, None, false, false, false).bits(),
        0x2000_ffff
    );
    assert_eq!(
        MeshFlags::from_components(false, None, false, true, false).bits(),
        0x0000_ffff
    );
    assert_eq!(
        MeshFlags::from_components(true, LodIndex::new(5), true, true, true).bits(),
        0xd000_0005
    );
    assert_eq!(
        MeshFlags::from_components(true, LodIndex::new(0), false, false, false).bits(),
        0xa000_0000
    );
    assert_eq!(
        MeshFlags::from_components(false, LodIndex::new(0xfffe), false, false, true).bits(),
        0x6000_fffe
    );
}

#[test]
fn mesh_flags_can_be_read_back() {
    let flags = MeshFlags::from_components(true, LodIndex::new(300), true, false, false);
    assert!(flags.contains(MeshFlags::SIGN_DETERMINANT_MODEL_3X3));
    assert!(flags.contains(MeshFlags::NO_FRUSTUM_CULLING));
    assert!(flags.contains(MeshFlags::SHADOW_RECEIVER));
    assert!(!flags.contains(MeshFlags::TRANSMITTED_SHADOW_RECEIVER));
    assert_eq!(flags.lod_index(), LodIndex::new(300));
    assert_eq!(flags.lod_index().map(|index| index.get()), Some(300));
    assert_eq!(
        MeshFlags::from_components(true, None, true, false, false).lod_index(),
        None
    );
    assert_eq!(MeshFlags::empty().bits(), MeshFlags::NONE);
    assert_eq!(MeshFlags::from_bits_retain(0x1234).bits(), 0x1234);
    assert_eq!(MeshFlags::LOD_INDEX_SHIFT, 0);
    assert_eq!(MeshFlags::UNINITIALIZED, u32::MAX);
}

#[test]
fn instance_flags_are_single_bits() {
    let flags = RenderMeshInstanceFlags { bits: 0b10110 };
    assert!(flags.contains(RenderMeshInstanceFlags::AUTOMATIC_BATCHING));
    assert!(flags.contains(RenderMeshInstanceFlags::HAS_PREVIOUS_TRANSFORM));
    assert!(flags.contains(RenderMeshInstanceFlags::HAS_PREVIOUS_MORPH));
    assert!(!flags.contains(RenderMeshInstanceFlags::SHADOW_CASTER));
    assert!(!flags.contains(RenderMeshInstanceFlags::HAS_PREVIOUS_SKIN));
}

#[test]
fn a_rect_is_packed_into_four_halves() {
    assert_eq!(pack_lightmap_uv_rect(None), UVec2 { x: 0, y: 0 });
    assert_eq!(
        pack_lightmap_uv_rect(Some(UvRect {
            min_x: 0,
            min_y: 0,
            max_x: 65535,
            max_y: 65535
        })),
        UVec2 {
            x: 0,
            y: 0xffff_ffff
        }
    );
    assert_eq!(
        pack_lightmap_uv_rect(Some(UvRect {
            min_x: 0x1234,
            min_y: 0x5678,
            max_x: 0x9abc,
            max_y: 0xdef0
        })),
        UVec2 {
            x: 0x5678_1234,
            y: 0xdef0_9abc
        }
    );
    assert_eq!(
        pack_lightmap_uv_rect(Some(UvRect {
            min_x: 0x1_0001,
            min_y: 0x1_0002,
            max_x: 0,
            max_y: 0
        })),
        UVec2 {
            x: 0x0003_0001,
            y: 0
        }
    );
}

#[test]
fn an_index_never_holds_the_largest_value() {
    assert_eq!(LightmapSlabIndex::new(u32::MAX), None);
    assert_eq!(LightmapSlabIndex::new(u32::MAX - 1).unwrap().get(), u32::MAX - 1);
    assert_eq!(LightmapSlabIndex::new(0).unwrap().get(), 0);
    assert_eq!(LightmapSlotIndex::new(u16::MAX), None);
    assert_eq!(LightmapSlotIndex::new(u16::MAX - 1).unwrap().get(), u16::MAX - 1);
    assert_eq!(LightmapSlotIndex::new(3).unwrap().get(), 3);
    assert_eq!(LodIndex::new(u16::MAX), None);
    assert_eq!(LodIndex::new(17).unwrap().get(), 17);
    assert_eq!(InstanceIndex::new(u32::MAX), None);
    assert_eq!(InstanceIndex::new(17).unwrap().get(), 17);
    assert_ne!(LightmapSlabIndex::new(1), LightmapSlabIndex::new(2));
}
