use mesh_pipeline::index::{LightmapSlabIndex, LightmapSlotIndex};
use mesh_pipeline::lightmaps::{empty_render_lightmaps, init_render_lightmaps, AllocationError};
use mesh_pipeline::renderer::{RenderAdapter, RenderDevice};
use mesh_pipeline::render_lightmap::AssetId;
use mesh_pipeline::slab::{FallbackImage, GpuImage, Sampler, TextureView};

fn fallback() -> FallbackImage {
    FallbackImage {
        d2: GpuImage {
            texture_view: TextureView { id: 1000 },
            sampler: Sampler { id: 2000 },
        },
    }
}

fn image(bits: u64) -> AssetId {
    AssetId::Index { bits }
}

fn address(slab: u32, slot: u16) -> (LightmapSlabIndex, LightmapSlotIndex) {
    (
        LightmapSlabIndex::new(slab).unwrap(),
        LightmapSlotIndex::new(slot).unwrap(),
    )
}

#[test]
fn five_allocations_with_capacity_four_open_a_second_slab() {
    let (mut l, mut u) = empty_render_lightmaps(true, None);
    let fallback = fallback();
    let mut handed_out = Vec::new();
    for bits in 0..5 {
        handed_out.push(l.allocate(&mut u, &fallback, image(bits)).unwrap());
    }
    assert_eq!(
        handed_out,
        vec![
            address(0, 0),
            address(0, 1),
            address(0, 2),
            address(0, 3),
            address(1, 0)
        ]
    );
    assert_eq!(l.slabs.len(), 2);
    assert!(l.slabs[0].is_full());
    assert!(!l.slabs[1].is_full());
    assert_eq!(u.free_slabs.ones().collect::<Vec<usize>>(), vec![1]);
}

#[test]
fn a_released_slot_is_the_next_to_be_handed_out() {
    let (mut l, mut u) = empty_render_lightmaps(true, None);
    let fallback = fallback();
    for bits in 0..5 {
        l.allocate(&mut u, &fallback, image(bits)).unwrap();
    }
    let (slab, slot) = address(0, 2);
    l.remove(&mut u, slab, slot);
    assert_eq!(u.free_slabs.ones().collect::<Vec<usize>>(), vec![0, 1]);
    assert_eq!(
        l.allocate(&mut u, &fallback, image(9)).unwrap(),
        address(0, 2)
    );
    assert_eq!(u.free_slabs.ones().collect::<Vec<usize>>(), vec![1]);
    assert_eq!(
        l.allocate(&mut u, &fallback, image(10)).unwrap(),
        address(1, 1)
    );
}

#[test]
fn without_bindless_every_allocation_fills_a_slab_of_its_own() {
    let (mut l, mut u) = empty_render_lightmaps(false, None);
    let fallback = fallback();
    for expected in 0..3u32 {
        let handed_out = l.allocate(&mut u, &fallback, image(expected as u64)).unwrap();
        assert_eq!(handed_out, address(expected, 0));
        assert!(l.slabs[expected as usize].is_full());
        assert_eq!(u.free_slabs.ones().count(), 0);
    }
    assert_eq!(l.slabs.len(), 3);
}

#[test]
fn allocation_fails_where_no_slab_may_be_added() {
    let (mut l, mut u) = empty_render_lightmaps(false, Some(2));
    let fallback = fallback();
    assert_eq!(l.allocate(&mut u, &fallback, image(0)), Ok(address(0, 0)));
    assert_eq!(l.allocate(&mut u, &fallback, image(1)), Ok(address(1, 0)));
    assert_eq!(
        l.allocate(&mut u, &fallback, image(2)),
        Err(AllocationError::ResourceExhausted)
    );
    assert_eq!(l.slabs.len(), 2);
    let (slab, slot) = address(0, 0);
    l.remove(&mut u, slab, slot);
    assert_eq!(l.allocate(&mut u, &fallback, image(3)), Ok(address(0, 0)));
}

#[test]
fn the_device_decides_how_many_slots_a_slab_has() {
    let fallback = fallback();
    for (binding_arrays, reliable) in [(true, true), (true, false), (false, true), (false, false)] {
        let device = RenderDevice {
            max_storage_buffers_per_shader_stage: 8,
            texture_binding_arrays: binding_arrays,
        };
        let adapter = RenderAdapter {
            reliable_binding_arrays: reliable,
        };
        let (mut l, mut u) = init_render_lightmaps(&device, &adapter, None);
        assert_eq!(u.bindless_supported, binding_arrays && reliable);
        assert_eq!(u.max_slabs, u32::MAX);
        assert_eq!(l.slabs.len(), 0);
        assert_eq!(u.free_slabs.len(), 0);
        assert_eq!(l.allocate(&mut u, &fallback, image(0)), Ok(address(0, 0)));
        let capacity = if binding_arrays && reliable { 4 } else { 1 };
        assert_eq!(l.slabs[0].build_binding_arrays().0.len(), capacity);
        assert_eq!(u.slabs[0].lightmaps.len(), capacity);
    }
    let device = RenderDevice {
        max_storage_buffers_per_shader_stage: 8,
        texture_binding_arrays: true,
    };
    let adapter = RenderAdapter {
        reliable_binding_arrays: true,
    };
    assert_eq!(init_render_lightmaps(&device, &adapter, Some(7)).1.max_slabs, 7);
}
