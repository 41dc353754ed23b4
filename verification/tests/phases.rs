use mesh_pipeline::binned_phase::{
    BinnedRenderPhase, CompareData, DrawBatch, MaterialBindGroupIndex,
};
use mesh_pipeline::index::LightmapSlabIndex;
use mesh_pipeline::render_lightmap::AssetId;
use mesh_pipeline::sorted_phase::{SortedItem, SortedRenderPhase};

fn key(material: u32, mesh: u64, slab: Option<u32>) -> CompareData {
    CompareData {
        material_bind_group: MaterialBindGroupIndex { index: material },
        mesh_asset: AssetId::Index { bits: mesh },
        lightmap_slab: slab.map(|slab| LightmapSlabIndex::new(slab).unwrap()),
    }
}

fn item(entity: u64, depth: i64) -> SortedItem {
    SortedItem { entity, depth }
}

#[test]
fn instances_with_one_key_share_a_bin_and_an_unbatched_instance_stands_alone() {
    let mut phase = BinnedRenderPhase::new();
    assert!(phase.is_empty());
    assert_eq!(phase.add(1, Some(key(3, 7, None))), Some(0));
    assert_eq!(phase.add(2, Some(key(3, 7, None))), Some(0));
    assert_eq!(phase.add(3, None), None);
    assert!(!phase.is_empty());
    assert_eq!(phase.bins.len(), 1);
    assert_eq!(phase.bins[0].key, key(3, 7, None));
    assert_eq!(phase.bins[0].entities, vec![1, 2]);
    assert_eq!(phase.unbatchable, vec![3]);
    assert_eq!(
        phase.render(),
        vec![
            DrawBatch {
                key: Some(key(3, 7, None)),
                first_instance: 0,
                instance_count: 2
            },
            DrawBatch {
                key: None,
                first_instance: 2,
                instance_count: 1
            },
        ]
    );
}

#[test]
fn a_key_that_differs_in_any_part_opens_another_bin() {
    let mut phase = BinnedRenderPhase::new();
    assert_eq!(phase.add(1, Some(key(3, 7, Some(2)))), Some(0));
    assert_eq!(phase.add(2, Some(key(4, 7, Some(2)))), Some(1));
    assert_eq!(phase.add(3, Some(key(3, 8, Some(2)))), Some(2));
    assert_eq!(phase.add(4, Some(key(3, 7, Some(5)))), Some(3));
    assert_eq!(phase.add(5, Some(key(3, 7, None))), Some(4));
    assert_eq!(phase.add(6, Some(key(3, 7, Some(2)))), Some(0));
    assert_eq!(phase.add(7, Some(key(3, 7, Some(5)))), Some(3));
    assert_eq!(
        phase.add(
            8,
            Some(CompareData {
                material_bind_group: MaterialBindGroupIndex { index: 3 },
                mesh_asset: AssetId::Uuid { uuid: 7 },
                lightmap_slab: Some(LightmapSlabIndex::new(2).unwrap()),
            })
        ),
        Some(5)
    );
    assert_eq!(phase.bins.len(), 6);
    assert_eq!(phase.bins[0].entities, vec![1, 6]);
    assert_eq!(phase.bins[3].entities, vec![4, 7]);
}

#[test]
fn the_draws_of_a_binned_phase_follow_one_another() {
    let mut phase = BinnedRenderPhase::new();
    assert_eq!(phase.render(), vec![]);
    phase.add(10, None);
    phase.add(1, Some(key(1, 1, None)));
    phase.add(2, Some(key(2, 1, None)));
    phase.add(3, Some(key(1, 1, None)));
    phase.add(11, None);
    phase.add(4, Some(key(2, 1, None)));
    phase.add(5, Some(key(2, 1, None)));
    let draws = phase.render();
    assert_eq!(
        draws,
        vec![
            DrawBatch {
                key: Some(key(1, 1, None)),
                first_instance: 0,
                instance_count: 2
            },
            DrawBatch {
                key: Some(key(2, 1, None)),
                first_instance: 2,
                instance_count: 3
            },
            DrawBatch {
                key: None,
                first_instance: 5,
                instance_count: 1
            },
            DrawBatch {
                key: None,
                first_instance: 6,
                instance_count: 1
            },
        ]
    );
    assert_eq!(phase.render(), draws);
}

#[test]
fn keys_are_compared_by_value() {
    assert!(key(1, 2, Some(3)).same(&key(1, 2, Some(3))));
    assert!(key(1, 2, None).same(&key(1, 2, None)));
    assert!(!key(1, 2, Some(3)).same(&key(0, 2, Some(3))));
    assert!(!key(1, 2, Some(3)).same(&key(1, 0, Some(3))));
    assert!(!key(1, 2, Some(3)).same(&key(1, 2, Some(4))));
    assert!(!key(1, 2, Some(3)).same(&key(1, 2, None)));
    assert!(!key(1, 2, None).same(&key(1, 2, Some(0))));
}

#[test]
fn a_sorted_phase_is_drawn_from_back_to_front() {
    let mut phase = SortedRenderPhase::new();
    assert!(phase.is_empty());
    phase.add(item(1, 5));
    phase.add(item(2, 9));
    phase.add(item(3, -4));
    phase.add(item(4, 7));
    assert!(!phase.is_empty());
    assert_eq!(phase.render(), vec![1, 2, 3, 4]);
    phase.sort();
    assert_eq!(
        phase.items,
        vec![item(2, 9), item(4, 7), item(1, 5), item(3, -4)]
    );
    assert_eq!(phase.render(), vec![2, 4, 1, 3]);
}

#[test]
fn items_that_are_equally_far_keep_their_order() {
    let mut phase = SortedRenderPhase::new();
    for (entity, depth) in [(1, 3), (2, 8), (3, 3), (4, 8), (5, 3), (6, 1), (7, 8)] {
        phase.add(item(entity, depth));
    }
    phase.sort();
    assert_eq!(phase.render(), vec![2, 4, 7, 1, 3, 5, 6]);
    phase.sort();
    assert_eq!(phase.render(), vec![2, 4, 7, 1, 3, 5, 6]);
}

#[test]
fn sorting_handles_the_ends_of_the_range_of_depths() {
    let mut phase = SortedRenderPhase::new();
    phase.sort();
    assert_eq!(phase.render(), Vec::<u64>::new());
    phase.add(item(1, i64::MIN));
    phase.sort();
    assert_eq!(phase.render(), vec![1]);
    phase.add(item(2, i64::MAX));
    phase.add(item(3, 0));
    phase.add(item(4, i64::MIN));
    phase.sort();
    assert_eq!(phase.render(), vec![2, 3, 1, 4]);
}
