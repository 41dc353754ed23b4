//! The slabs of lightmaps and the table of lightmapped entities, as they
//! live in the render world.

use crate::bitset::{
    bitset_grow_and_insert, bitset_len, bitset_minimum, bitset_new, bitset_ones, bitset_remove,
};
use crate::dense_map::DenseMap;
use crate::index::{LightmapSlabIndex, LightmapSlotIndex};
use crate::model::{
    find_image, reports, ChangedLightmap, LightmapsModel, LoadedImage, SlabModel, SlotAddress,
};
use crate::render_lightmap::{
    AllocatedLightmapUnloaded, AssetId, LightmapSlabUnloaded, RenderLightmap,
};
use crate::renderer::{
    binding_arrays_are_usable, spec_binding_arrays_are_usable, RenderAdapter, RenderDevice,
};
use crate::slab::{slots_per_slab, FallbackImage, GpuImage, LightmapSlab, LIGHTMAPS_PER_SLAB};
use fixedbitset::FixedBitSet;
use vstd::prelude::*;

verus! {

/// The slabs (binding arrays) that hold the lightmaps' images.
pub struct RenderLightmapsL {
    /// The slabs (binding arrays) containing the lightmaps.
    pub slabs: Vec<LightmapSlab>,
}

/// Stores data for all lightmaps in the render world.
pub struct RenderLightmapsU {
    /// The mapping from every lightmapped entity to its lightmap info.
    ///
    /// Entities without lightmaps, or for which no slot could be had, won't
    /// have entries in this table.
    pub render_lightmaps: DenseMap<RenderLightmap>,
    /// For each slab, what does not depend on the GPU.
    pub slabs: Vec<LightmapSlabUnloaded>,
    /// The slabs that have at least one free slot.
    pub free_slabs: FixedBitSet,
    /// The slots whose image has not arrived yet.
    pub pending_lightmaps: DenseMap<(LightmapSlabIndex, LightmapSlotIndex)>,
    /// Whether bindless textures are supported on this platform.
    pub bindless_supported: bool,
    /// The largest number of binding arrays that the platform allows.
    pub max_slabs: u32,
}

/// Why no slot could be handed out.
#[derive(Clone, Copy, Debug, PartialEq, Eq, Structural, Hash)]
pub enum AllocationError {
    /// Every slot is taken, and the platform allows no further slab.
    ResourceExhausted,
}

/// The key under which a slot is filed while it is pending.
pub open spec fn pending_key(address: SlotAddress) -> u64 {
    (address.0 * 65536 + address.1) as u64
}

/// Whether `address` is a pair of a slab index and a slot index.
pub open spec fn is_address(address: SlotAddress) -> bool {
    0 <= address.0 < u32::MAX && 0 <= address.1 < u16::MAX
}

/// What the two halves of the render world's lightmap state stand for.
pub open spec fn lightmaps_model(l: RenderLightmapsL, u: RenderLightmapsU) -> LightmapsModel {
    LightmapsModel {
        bindless_supported: u.bindless_supported,
        max_slabs: u.max_slabs as nat,
        slabs: Seq::new(
            l.slabs@.len(),
            |slab: int|
                SlabModel {
                    free: l.slabs@[slab].free_slots(),
                    images: l.slabs@[slab].images(),
                    asset_ids: u.slabs@[slab].asset_ids(),
                },
        ),
        table: Map::new(
            |entity: u64| u.render_lightmaps@.contains_key(entity),
            |entity: u64| u.render_lightmaps@[entity]@,
        ),
        pending: Set::new(
            |address: SlotAddress|
                is_address(address) && u.pending_lightmaps@.contains_key(pending_key(address)),
        ),
    }
}

/// The two halves fit together: one record per slab on either side, with
/// the same bitmask; the free-slab set holds exactly the slabs whose bitmask
/// is not zero; every pending slot is filed under its own key; and what
/// they stand for is consistent.
pub open spec fn lightmaps_wf(l: RenderLightmapsL, u: RenderLightmapsU) -> bool {
    &&& slots_wf(l, u)
    &&& lightmaps_model(l, u).wf()
}

/// The part of `lightmaps_wf` that does not depend on what the slots are
/// used for.
pub open spec fn slots_wf(l: RenderLightmapsL, u: RenderLightmapsU) -> bool {
    &&& l.slabs@.len() == u.slabs@.len()
    &&& l.slabs@.len() <= u.max_slabs
    &&& forall|slab: int|
        0 <= slab < l.slabs@.len() ==> {
            &&& (#[trigger] l.slabs@[slab]).wf()
            &&& l.slabs@[slab].capacity() == slots_per_slab(u.bindless_supported)
        }
    &&& forall|slab: int|
        0 <= slab < u.slabs@.len() ==> {
            &&& (#[trigger] u.slabs@[slab]).lightmaps@.len() == slots_per_slab(
                u.bindless_supported,
            )
            &&& u.slabs@[slab].free_slots_bitmask == l.slabs@[slab].free_mask()
        }
    &&& bitset_len(u.free_slabs) == l.slabs@.len()
    &&& forall|slab: int|
        bitset_ones(u.free_slabs).contains(slab) <==> 0 <= slab < l.slabs@.len()
            && l.slabs@[slab].free_mask() != 0
    &&& u.render_lightmaps.wf()
    &&& u.pending_lightmaps.wf()
    &&& forall|key: u64| #[trigger]
        u.pending_lightmaps@.contains_key(key) ==> key == pending_key(
            (u.pending_lightmaps@[key].0@, u.pending_lightmaps@[key].1@),
        ) && is_address((u.pending_lightmaps@[key].0@, u.pending_lightmaps@[key].1@))
}

/// A slab has a free slot in the model exactly when its bitmask is not zero.
pub proof fn lemma_has_free(l: RenderLightmapsL, u: RenderLightmapsU, slab: int)
    requires
        lightmaps_wf(l, u),
        0 <= slab < l.slabs@.len(),
    ensures
        lightmaps_model(l, u).has_free(slab) <==> l.slabs@[slab].free_mask() != 0,
{
    l.slabs@[slab].lemma_free_slots();
    let model = lightmaps_model(l, u);
    if l.slabs@[slab].free_mask() != 0 {
        assert(!(l.slabs@[slab].free_slots() =~= Set::<int>::empty()));
        let slot = choose|slot: int| l.slabs@[slab].free_slots().contains(slot);
        assert(model.slabs[slab].free.contains(slot));
    } else {
        assert(l.slabs@[slab].free_slots() =~= Set::<int>::empty());
    }
}

/// After every operation, the free-slab set holds a slab exactly when the
/// slab has a free slot, which is when its bitmask is not zero.
pub proof fn lemma_free_slab_set(l: RenderLightmapsL, u: RenderLightmapsU)
    requires
        lightmaps_wf(l, u),
    ensures
        bitset_ones(u.free_slabs) =~= lightmaps_model(l, u).free_slabs(),
        forall|slab: int|
            0 <= slab < l.slabs@.len() ==> (bitset_ones(u.free_slabs).contains(slab) <==> (
            #[trigger] l.slabs@[slab]).free_mask() != 0),
{
    assert forall|slab: int|
        bitset_ones(u.free_slabs).contains(slab) <==> lightmaps_model(l, u).free_slabs().contains(
            slab,
        ) by {
        if 0 <= slab < l.slabs@.len() {
            lemma_has_free(l, u, slab);
        }
    }
}

/// The state of a render world in which nothing has been allocated, for a
/// device and an adapter: slabs hold several lightmaps where binding arrays
/// can be used, and one where they cannot.
///
/// `max_slabs` is the number of binding arrays that the platform allows,
/// where it sets a limit.
pub fn init_render_lightmaps(
    render_device: &RenderDevice,
    render_adapter: &RenderAdapter,
    max_slabs: Option<u32>,
) -> (state: (RenderLightmapsL, RenderLightmapsU))
    ensures
        lightmaps_wf(state.0, state.1),
        lightmaps_model(state.0, state.1) == LightmapsModel::empty(
            spec_binding_arrays_are_usable(*render_device, *render_adapter),
            match max_slabs {
                Some(limit) => limit as nat,
                None => u32::MAX as nat,
            },
        ),
{
    let bindless_supported = binding_arrays_are_usable(render_device, render_adapter);
    empty_render_lightmaps(bindless_supported, max_slabs)
}

/// The state of a render world in which nothing has been allocated.
///
/// `max_slabs` is the number of binding arrays that the platform allows,
/// where it sets a limit.
pub fn empty_render_lightmaps(bindless_supported: bool, max_slabs: Option<u32>) -> (state: (
    RenderLightmapsL,
    RenderLightmapsU,
))
    ensures
        lightmaps_wf(state.0, state.1),
        lightmaps_model(state.0, state.1) == LightmapsModel::empty(
            bindless_supported,
            match max_slabs {
                Some(limit) => limit as nat,
                None => u32::MAX as nat,
            },
        ),
{
    let l = RenderLightmapsL { slabs: Vec::new() };
    let u = RenderLightmapsU {
        render_lightmaps: DenseMap::new(),
        slabs: Vec::new(),
        free_slabs: bitset_new(),
        pending_lightmaps: DenseMap::new(),
        bindless_supported,
        max_slabs: match max_slabs {
            Some(limit) => limit,
            None => u32::MAX,
        },
    };
    proof {
        assert(lightmaps_model(l, u) =~~= LightmapsModel::empty(
            bindless_supported,
            u.max_slabs as nat,
        ));
    }
    (l, u)
}

impl RenderLightmapsL {
    /// Creates a new slab, appends it to the end of the list, and returns its
    /// slab index.
    fn create_slab(
        &mut self,
        other: &mut RenderLightmapsU,
        fallback_images: &FallbackImage,
    ) -> (slab_index: LightmapSlabIndex)
        requires
            lightmaps_wf(*old(self), *old(other)),
            old(self).slabs@.len() < old(other).max_slabs,
        ensures
            lightmaps_wf(*final(self), *final(other)),
            slab_index@ == old(self).slabs@.len(),
            lightmaps_model(*final(self), *final(other)) == (LightmapsModel {
                slabs: lightmaps_model(*old(self), *old(other)).slabs.push(
                    SlabModel::fresh(slots_per_slab(old(other).bindless_supported), fallback_images.d2),
                ),
                ..lightmaps_model(*old(self), *old(other))
            }),
            final(self).slabs@[slab_index@].free_mask() != 0,
    {
        let count = self.slabs.len();
        let slab_index = LightmapSlabIndex::new(count as u32).unwrap();
        bitset_grow_and_insert(&mut other.free_slabs, count);
        let slab = LightmapSlab::new(fallback_images, other.bindless_supported);
        let mut unloaded: Vec<AllocatedLightmapUnloaded> = Vec::new();
        let capacity: usize = if other.bindless_supported {
            LIGHTMAPS_PER_SLAB
        } else {
            1
        };
        let mut filled: usize = 0;
        while filled < capacity
            invariant
                filled <= capacity,
                unloaded@.len() == filled,
                forall|slot: int| 0 <= slot < filled ==> (#[trigger] unloaded@[slot]).asset_id.is_none(),
            decreases capacity - filled,
        {
            unloaded.push(AllocatedLightmapUnloaded { asset_id: None });
            filled = filled + 1;
        }
        proof {
            slab.lemma_free_slots();
            assert(slab.free_slots().contains(0));
            assert(slab.free_mask() != 0);
        }
        other.slabs.push(
            LightmapSlabUnloaded {
                lightmaps: unloaded,
                free_slots_bitmask: slab.free_slots_bitmask(),
            },
        );
        self.slabs.push(slab);
        proof {
            let before = lightmaps_model(*old(self), *old(other));
            let after = lightmaps_model(*self, *other);
            let pushed = LightmapsModel {
                slabs: before.slabs.push(
                    SlabModel::fresh(slots_per_slab(old(other).bindless_supported), fallback_images.d2),
                ),
                ..before
            };
            assert(after.slabs =~~= pushed.slabs) by {
                assert forall|index: int| 0 <= index < after.slabs.len() implies after.slabs[index]
                    =~~= pushed.slabs[index] by {
                    if index < count {
                        assert(self.slabs@[index] == old(self).slabs@[index]);
                        assert(other.slabs@[index] == old(other).slabs@[index]);
                    }
                }
            }
            assert(after.table =~= before.table);
            assert(after.pending =~= before.pending);
            assert(after =~~= pushed);
            assert(before.live() =~= after.live()) by {
                assert forall|address: SlotAddress| after.live().contains(address) implies before.live().contains(
                    address,
                ) by {
                    if address.0 == count {
                        assert(after.slabs[address.0].free.contains(address.1));
                    }
                }
            }
        }
        slab_index
    }

    /// Hands out a slot for the image `image_id`: the lowest free slot of the
    /// first slab that has one, or the first slot of a new slab where every
    /// slot is taken. Fails, and changes nothing, where every slot is taken
    /// and the platform allows no further slab.
    pub fn allocate(
        &mut self,
        other: &mut RenderLightmapsU,
        fallback_images: &FallbackImage,
        image_id: AssetId,
    ) -> (allocated: Result<(LightmapSlabIndex, LightmapSlotIndex), AllocationError>)
        requires
            lightmaps_wf(*old(self), *old(other)),
        ensures
            lightmaps_wf(*final(self), *final(other)),
            lightmaps_model(*final(self), *final(other)) == lightmaps_model(
                *old(self),
                *old(other),
            ).allocate(image_id, fallback_images.d2),
            match allocated {
                Ok(address) => lightmaps_model(*old(self), *old(other)).allocation() == Some(
                    (address.0@, address.1@),
                ),
                Err(error) => lightmaps_model(*old(self), *old(other)).allocation().is_none()
                    && error == AllocationError::ResourceExhausted,
            },
    {
        let ghost before = lightmaps_model(*self, *other);
        proof {
            before.lemma_allocation();
            before.lemma_allocate(image_id, fallback_images.d2);
            lemma_free_slab_set(*self, *other);
        }
        let slab_index = match bitset_minimum(&other.free_slabs) {
            None => {
                proof {
                    assert forall|slab: int| !before.has_free(slab) by {
                        assert(!bitset_ones(other.free_slabs).contains(slab));
                        assert(!before.free_slabs().contains(slab));
                    }
                }
                if self.slabs.len() >= other.max_slabs as usize {
                    return Err(AllocationError::ResourceExhausted);
                }
                self.create_slab(other, fallback_images)
            },
            Some(slab) => {
                proof {
                    assert(before.free_slabs().contains(slab as int));
                    assert(before.is_lowest_free_slab(slab as int)) by {
                        assert forall|later: int| before.has_free(later) implies slab
                            <= later by {
                            assert(before.free_slabs().contains(later));
                        }
                    }
                    before.lemma_lowest_free_slab();
                }
                LightmapSlabIndex::new(slab as u32).unwrap()
            },
        };
        let ghost middle = lightmaps_model(*self, *other);
        let ghost middle_l = *self;
        let ghost middle_u = *other;
        let position = slab_index.get() as usize;
        proof {
            lemma_free_slab_set(*self, *other);
            assert(self.slabs@[position as int].free_mask() != 0);
        }
        let slot_index = self.slabs[position].allocate(fallback_images);
        let slot = slot_index.get() as usize;
        let mask = self.slabs[position].free_slots_bitmask();
        let full = self.slabs[position].is_full();
        other.slabs[position].lightmaps.set(
            slot,
            AllocatedLightmapUnloaded { asset_id: Some(image_id) },
        );
        other.slabs[position].free_slots_bitmask = mask;
        if full {
            bitset_remove(&mut other.free_slabs, position);
        }
        proof {
            let after = lightmaps_model(*self, *other);
            let expected = before.allocate(image_id, fallback_images.d2);
            assert(middle.slabs[position as int].is_lowest_free(slot as int));
            middle.slabs[position as int].lemma_lowest_free(middle.capacity());
            assert(before.allocation() == Some((position as int, slot as int))) by {
                if position < before.slabs.len() {
                    assert(middle == before);
                    before.slabs[position as int].lemma_lowest_free(before.capacity());
                } else {
                    assert(middle.slabs[position as int].free.contains(0));
                }
            }
            assert(after.slabs =~~= expected.slabs) by {
                assert forall|index: int| 0 <= index < after.slabs.len() implies after.slabs[index]
                    =~~= expected.slabs[index] by {
                    if index != position {
                        assert(self.slabs@[index] == middle_l.slabs@[index]);
                        assert(other.slabs@[index] == middle_u.slabs@[index]);
                        assert(after.slabs[index] =~~= middle.slabs[index]);
                    } else {
                        assert(after.slabs[index].asset_ids =~= middle.slabs[index].asset_ids.update(
                            slot as int,
                            Some(image_id),
                        ));
                    }
                }
            }
            assert(after.table =~= expected.table);
            assert(after.pending =~= expected.pending);
            assert(after =~~= expected);
        }
        Ok((slab_index, slot_index))
    }

    /// Gives back the slot at `slab_index` and `slot_index`, which must be
    /// taken. Nothing guards against giving a slot back twice: whoever holds
    /// a slot gives it back once.
    pub fn remove(
        &mut self,
        other: &mut RenderLightmapsU,
        slab_index: LightmapSlabIndex,
        slot_index: LightmapSlotIndex,
    )
        requires
            lightmaps_wf(*old(self), *old(other)),
            lightmaps_model(*old(self), *old(other)).live().contains((slab_index@, slot_index@)),
            !lightmaps_model(*old(self), *old(other)).pending.contains(
                (slab_index@, slot_index@),
            ),
            forall|entity: u64|
                lightmaps_model(*old(self), *old(other)).table.contains_key(entity)
                    ==> lightmaps_model(*old(self), *old(other)).table[entity].address() != (
                    slab_index@,
                    slot_index@,
                ),
        ensures
            lightmaps_wf(*final(self), *final(other)),
            lightmaps_model(*final(self), *final(other)) == lightmaps_model(
                *old(self),
                *old(other),
            ).release((slab_index@, slot_index@)),
    {
        self.release_slot(other, slab_index, slot_index);
        proof {
            let before = lightmaps_model(*old(self), *old(other));
            let after = lightmaps_model(*self, *other);
            before.lemma_release((slab_index@, slot_index@));
            assert forall|entity: u64| #[trigger]
                after.table.contains_key(entity) implies after.live().contains(
                after.table[entity].address(),
            ) by {
                assert(before.live().contains(before.table[entity].address()));
            }
            assert forall|pending: SlotAddress| #[trigger]
                after.pending.contains(pending) implies after.live().contains(pending) by {
                assert(before.live().contains(pending));
            }
        }
    }

    /// Gives back a taken slot on both sides and in the free-slab set. The
    /// table and the pending set are left to the caller.
    fn release_slot(
        &mut self,
        other: &mut RenderLightmapsU,
        slab_index: LightmapSlabIndex,
        slot_index: LightmapSlotIndex,
    )
        requires
            slots_wf(*old(self), *old(other)),
            slab_index@ < old(self).slabs@.len(),
            slot_index@ < slots_per_slab(old(other).bindless_supported),
        ensures
            slots_wf(*final(self), *final(other)),
            lightmaps_model(*final(self), *final(other)) == lightmaps_model(
                *old(self),
                *old(other),
            ).release((slab_index@, slot_index@)),
            final(other).render_lightmaps == old(other).render_lightmaps,
            final(other).pending_lightmaps == old(other).pending_lightmaps,
    {
        let position = slab_index.get() as usize;
        let slot = slot_index.get() as usize;
        self.slabs[position].remove(slot_index);
        let mask = self.slabs[position].free_slots_bitmask();
        let full = self.slabs[position].is_full();
        other.slabs[position].lightmaps.set(slot, AllocatedLightmapUnloaded { asset_id: None });
        other.slabs[position].free_slots_bitmask = mask;
        proof {
            self.slabs@[position as int].lemma_free_slots();
            assert(self.slabs@[position as int].free_slots().contains(slot as int));
        }
        if !full {
            bitset_grow_and_insert(&mut other.free_slabs, position);
        }
        proof {
            let before = lightmaps_model(*old(self), *old(other));
            let after = lightmaps_model(*self, *other);
            let expected = before.release((slab_index@, slot_index@));
            assert(after.slabs =~~= expected.slabs) by {
                assert forall|index: int| 0 <= index < after.slabs.len() implies after.slabs[index]
                    =~~= expected.slabs[index] by {
                    if index != position {
                        assert(self.slabs@[index] == old(self).slabs@[index]);
                        assert(other.slabs@[index] == old(other).slabs@[index]);
                    } else {
                        assert(after.slabs[index].asset_ids =~= before.slabs[index].asset_ids.update(
                            slot as int,
                            None,
                        ));
                    }
                }
            }
            assert(after.table =~= expected.table);
            assert(after.pending =~= expected.pending);
            assert(after =~~= expected);
        }
    }
}

/// The key under which the slot at `slab_index` and `slot_index` is filed
/// while it is pending.
fn key_of(slab_index: LightmapSlabIndex, slot_index: LightmapSlotIndex) -> (key: u64)
    ensures
        key == pending_key((slab_index@, slot_index@)),
        is_address((slab_index@, slot_index@)),
{
    let slab: u64 = slab_index.get() as u64;
    let slot: u64 = slot_index.get() as u64;
    slab * 65536 + slot
}

/// Two slots that are filed under one key are one slot.
pub proof fn lemma_pending_key_injective(first: SlotAddress, second: SlotAddress)
    requires
        is_address(first),
        is_address(second),
        pending_key(first) == pending_key(second),
    ensures
        first == second,
{
}

/// Takes in one report on an entity with a lightmap.
///
/// An entity that has an entry keeps it, whatever the report says: once
/// bound, an entity keeps its slot until it is removed. An entity that is
/// not visible gets no entry. Any other gets the next slot, which is pending
/// from then on, unless no slot can be had: then the entity gets no entry,
/// and that is the one case in which this fails.
pub fn upsert_lightmap(
    l: &mut RenderLightmapsL,
    u: &mut RenderLightmapsU,
    fallback_images: &FallbackImage,
    changed: &ChangedLightmap,
) -> (outcome: Result<(), AllocationError>)
    requires
        lightmaps_wf(*old(l), *old(u)),
    ensures
        lightmaps_wf(*final(l), *final(u)),
        lightmaps_model(*final(l), *final(u)) == lightmaps_model(*old(l), *old(u)).upsert(
            *changed,
            fallback_images.d2,
        ),
        outcome.is_err() <==> !lightmaps_model(*old(l), *old(u)).table.contains_key(
            changed.entity,
        ) && changed.visible && lightmaps_model(*old(l), *old(u)).allocation().is_none(),
        outcome.is_err() ==> outcome == Err::<(), AllocationError>(
            AllocationError::ResourceExhausted,
        ),
{
    let ghost before = lightmaps_model(*l, *u);
    proof {
        before.lemma_upsert(*changed, fallback_images.d2);
    }
    if u.render_lightmaps.contains_key(changed.entity) {
        return Ok(());
    }
    // Only process visible entities.
    if !changed.visible {
        return Ok(());
    }
    match l.allocate(u, fallback_images, changed.lightmap.image) {
        Ok((slab_index, slot_index)) => {
            let ghost allocated = lightmaps_model(*l, *u);
            let ghost address = (slab_index@, slot_index@);
            u.render_lightmaps.insert(
                changed.entity,
                RenderLightmap::new(
                    changed.lightmap.uv_rect,
                    slab_index,
                    slot_index,
                    changed.lightmap.bicubic_sampling,
                ),
            );
            let key = key_of(slab_index, slot_index);
            u.pending_lightmaps.insert(key, (slab_index, slot_index));
            proof {
                let after = lightmaps_model(*l, *u);
                let expected = before.upsert(*changed, fallback_images.d2);
                assert(after.slabs =~~= expected.slabs);
                assert(after.table =~= expected.table);
                assert(after.pending =~= expected.pending) by {
                    assert forall|other: SlotAddress|
                        after.pending.contains(other) <==> expected.pending.contains(other) by {
                        if is_address(other) && pending_key(other) == key {
                            lemma_pending_key_injective(other, address);
                        }
                    }
                }
                assert(after =~~= expected);
            }
            Ok(())
        },
        Err(error) => Err(error),
    }
}

/// Drops the lightmap of an entity that lost it: the entity's slot is given
/// back, and neither the table nor the pending set knows it any longer. An
/// entity without an entry is left alone.
pub fn remove_lightmap(l: &mut RenderLightmapsL, u: &mut RenderLightmapsU, entity: u64)
    requires
        lightmaps_wf(*old(l), *old(u)),
    ensures
        lightmaps_wf(*final(l), *final(u)),
        lightmaps_model(*final(l), *final(u)) == lightmaps_model(*old(l), *old(u)).remove(entity),
{
    let ghost before = lightmaps_model(*l, *u);
    proof {
        before.lemma_remove(entity);
    }
    match u.render_lightmaps.remove(entity) {
        Some(lightmap) => {
            let ghost address = (lightmap.slab_index@, lightmap.slot_index@);
            assert(before.table[entity].address() == address);
            assert(before.live().contains(address));
            let key = key_of(lightmap.slab_index, lightmap.slot_index);
            u.pending_lightmaps.remove(key);
            let ghost middle = lightmaps_model(*l, *u);
            l.release_slot(u, lightmap.slab_index, lightmap.slot_index);
            proof {
                let after = lightmaps_model(*l, *u);
                let expected = before.remove(entity);
                assert(middle.slabs =~~= before.slabs);
                assert(after.slabs =~~= expected.slabs);
                assert(after.table =~= expected.table);
                assert(after.pending =~= expected.pending) by {
                    assert forall|other: SlotAddress|
                        after.pending.contains(other) <==> expected.pending.contains(other) by {
                        if is_address(other) && pending_key(other) == key {
                            lemma_pending_key_injective(other, address);
                        }
                    }
                }
                assert(after =~~= expected);
            }
        },
        None => {
            proof {
                assert(lightmaps_model(*l, *u) =~~= before);
            }
        },
    }
}

/// The image that stands first in `images` under the identity `asset_id`.
pub fn find_loaded_image(images: &Vec<LoadedImage>, asset_id: AssetId) -> (found: Option<GpuImage>)
    ensures
        found == find_image(images@, asset_id),
{
    let mut position: usize = 0;
    proof {
        assert(images@.subrange(0, images@.len() as int) =~= images@);
    }
    while position < images.len()
        invariant
            position <= images@.len(),
            find_image(images@, asset_id) == find_image(
                images@.subrange(position as int, images@.len() as int),
                asset_id,
            ),
        decreases images@.len() - position,
    {
        let ghost rest = images@.subrange(position as int, images@.len() as int);
        proof {
            assert(rest[0] == images@[position as int]);
            assert(rest.drop_first() =~= images@.subrange(
                position as int + 1,
                images@.len() as int,
            ));
        }
        if images[position].asset_id == asset_id {
            return Some(images[position].gpu_image);
        }
        position = position + 1;
    }
    proof {
        assert(images@.subrange(position as int, images@.len() as int).len() == 0);
    }
    None
}

/// A pending slot that stops being pending, with the image that has arrived
/// for it, if one has.
struct Settled {
    slab_index: LightmapSlabIndex,
    slot_index: LightmapSlotIndex,
    image: Option<GpuImage>,
}

impl Settled {
    spec fn address(self) -> SlotAddress {
        (self.slab_index@, self.slot_index@)
    }
}

/// The slots among the first `count` of `settled`.
spec fn settled_addresses(settled: Seq<Settled>, count: int) -> Set<SlotAddress> {
    Set::new(
        |address: SlotAddress|
            exists|position: int|
                0 <= position < count && position < settled.len()
                    && #[trigger] settled[position].address() == address,
    )
}

/// Walks the pending slots and lists those that settle.
fn settled_slots(
    l: &RenderLightmapsL,
    u: &RenderLightmapsU,
    images: &Vec<LoadedImage>,
) -> (settled: Vec<Settled>)
    requires
        lightmaps_wf(*l, *u),
    ensures
        forall|position: int|
            0 <= position < settled@.len() ==> {
                &&& lightmaps_model(*l, *u).settles(
                    (#[trigger] settled@[position]).address(),
                    images@,
                )
                &&& settled@[position].image == lightmaps_model(*l, *u).arrived(
                    settled@[position].address(),
                    images@,
                )
            },
        forall|address: SlotAddress|
            lightmaps_model(*l, *u).settles(address, images@) ==> settled_addresses(
                settled@,
                settled@.len() as int,
            ).contains(address),
{
    let ghost model = lightmaps_model(*l, *u);
    let mut settled: Vec<Settled> = Vec::new();
    let count = u.pending_lightmaps.len();
    let mut walked: usize = 0;
    proof {
        u.pending_lightmaps.lemma_keys();
    }
    while walked < count
        invariant
            lightmaps_wf(*l, *u),
            model == lightmaps_model(*l, *u),
            count == u.pending_lightmaps.keys().len(),
            walked <= count,
            forall|position: int|
                0 <= position < settled@.len() ==> {
                    &&& model.settles((#[trigger] settled@[position]).address(), images@)
                    &&& settled@[position].image == model.arrived(
                        settled@[position].address(),
                        images@,
                    )
                },
            forall|earlier: int|
                0 <= earlier < walked ==> {
                    let value = #[trigger] u.pending_lightmaps.values()[earlier];
                    model.settles((value.0@, value.1@), images@) ==> settled_addresses(
                        settled@,
                        settled@.len() as int,
                    ).contains((value.0@, value.1@))
                },
        decreases count - walked,
    {
        proof {
            u.pending_lightmaps.lemma_keys();
        }
        let pending = *u.pending_lightmaps.value_at(walked);
        let slab_index = pending.0;
        let slot_index = pending.1;
        let ghost address = (slab_index@, slot_index@);
        let ghost key = u.pending_lightmaps.keys()[walked as int];
        proof {
            assert(u.pending_lightmaps@.contains_key(key));
            assert(key == pending_key(address) && is_address(address));
            assert(model.pending.contains(address));
            assert(model.live().contains(address));
        }
        let unloaded = &u.slabs[slab_index.get() as usize];
        let asset_id = unloaded.lightmaps[slot_index.get() as usize].asset_id;
        proof {
            assert(asset_id == model.slabs[address.0].asset_ids[address.1]);
        }
        let ghost previous = settled@;
        match asset_id {
            None => {
                settled.push(Settled { slab_index, slot_index, image: None });
            },
            Some(asset_id) => {
                match find_loaded_image(images, asset_id) {
                    Some(image) => {
                        settled.push(Settled { slab_index, slot_index, image: Some(image) });
                    },
                    None => {},
                }
            },
        }
        proof {
            assert forall|address: SlotAddress|
                settled_addresses(previous, previous.len() as int).contains(
                    address,
                ) implies settled_addresses(settled@, settled@.len() as int).contains(address) by {
                let position = choose|position: int|
                    0 <= position < previous.len() && #[trigger] previous[position].address()
                        == address;
                assert(settled@[position].address() == address);
            }
            if model.settles(address, images@) {
                assert(settled@[settled@.len() - 1].address() == address);
            }
        }
        walked = walked + 1;
    }
    proof {
        u.pending_lightmaps.lemma_keys();
        assert forall|address: SlotAddress|
            model.settles(address, images@) implies settled_addresses(
            settled@,
            settled@.len() as int,
        ).contains(address) by {
            let key = pending_key(address);
            assert(u.pending_lightmaps@.dom().contains(key));
            assert(u.pending_lightmaps.keys().to_set().contains(key));
            let position = choose|position: int|
                0 <= position < u.pending_lightmaps.keys().len()
                    && u.pending_lightmaps.keys()[position] == key;
            let value = u.pending_lightmaps.values()[position];
            assert(u.pending_lightmaps@[u.pending_lightmaps.keys()[position]] == value);
            lemma_pending_key_injective(address, (value.0@, value.1@));
        }
    }
    settled
}

/// Holds every pending slot against the images that have been loaded.
///
/// A slot whose image has arrived gets the image and stops being pending; a
/// slot that waits for no image stops being pending; every other slot stays
/// pending, to be held against the loaded images again next time.
pub fn resolve_pending(
    l: &mut RenderLightmapsL,
    u: &mut RenderLightmapsU,
    images: &Vec<LoadedImage>,
)
    requires
        lightmaps_wf(*old(l), *old(u)),
    ensures
        lightmaps_wf(*final(l), *final(u)),
        lightmaps_model(*final(l), *final(u)) == lightmaps_model(*old(l), *old(u)).resolve(
            images@,
        ),
{
    let ghost before = lightmaps_model(*l, *u);
    let settled = settled_slots(l, u, images);
    let mut applied: usize = 0;
    proof {
        assert(before.resolve_within(images@, settled_addresses(settled@, 0)) =~~= before);
    }
    while applied < settled.len()
        invariant
            applied <= settled@.len(),
            before.wf(),
            slots_wf(*l, *u),
            lightmaps_model(*l, *u) == before.resolve_within(
                images@,
                settled_addresses(settled@, applied as int),
            ),
            forall|position: int|
                0 <= position < settled@.len() ==> {
                    &&& before.settles((#[trigger] settled@[position]).address(), images@)
                    &&& settled@[position].image == before.arrived(
                        settled@[position].address(),
                        images@,
                    )
                },
        decreases settled@.len() - applied,
    {
        let slab_index = settled[applied].slab_index;
        let slot_index = settled[applied].slot_index;
        let image = settled[applied].image;
        let ghost address = (slab_index@, slot_index@);
        let ghost current = lightmaps_model(*l, *u);
        let ghost current_l = *l;
        let ghost current_u = *u;
        let ghost done = settled_addresses(settled@, applied as int);
        let ghost done_after = settled_addresses(settled@, applied as int + 1);
        let position = slab_index.get() as usize;
        let slot = slot_index.get() as usize;
        proof {
            assert(settled@[applied as int].address() == address);
            assert(before.settles(address, images@));
            assert(current.slabs.len() == before.slabs.len());
            assert(current.slabs[position as int].images.len()
                == before.slabs[position as int].images.len());
        }
        match image {
            Some(image) => {
                l.slabs[position].insert(slot_index, image);
            },
            None => {},
        }
        u.slabs[position].lightmaps.set(slot, AllocatedLightmapUnloaded { asset_id: None });
        let key = key_of(slab_index, slot_index);
        u.pending_lightmaps.remove(key);
        proof {
            let after = lightmaps_model(*l, *u);
            let expected = before.resolve_within(images@, done_after);
            assert forall|other: SlotAddress|
                done_after.contains(other) <==> done.contains(other) || other == address by {
                if done.contains(other) {
                    let earlier = choose|earlier: int|
                        0 <= earlier < applied && earlier < settled@.len()
                            && #[trigger] settled@[earlier].address() == other;
                    assert(settled@[earlier].address() == other);
                }
                if done_after.contains(other) && other != address {
                    let earlier = choose|earlier: int|
                        0 <= earlier < applied + 1 && earlier < settled@.len()
                            && #[trigger] settled@[earlier].address() == other;
                    assert(earlier < applied);
                }
            }
            assert(after.slabs =~~= expected.slabs) by {
                assert forall|index: int| 0 <= index < after.slabs.len() implies after.slabs[index]
                    =~~= expected.slabs[index] by {
                    if index != position {
                        assert(l.slabs@[index] == current_l.slabs@[index]);
                        assert(u.slabs@[index] == current_u.slabs@[index]);
                        assert(after.slabs[index] =~~= current.slabs[index]);
                    } else {
                        assert(after.slabs[index].asset_ids =~= current.slabs[index].asset_ids.update(
                            slot as int,
                            None,
                        ));
                    }
                }
            }
            assert(after.table =~= expected.table);
            assert(after.pending =~= expected.pending) by {
                assert forall|other: SlotAddress|
                    after.pending.contains(other) <==> expected.pending.contains(other) by {
                    if is_address(other) && pending_key(other) == key {
                        lemma_pending_key_injective(other, address);
                    }
                    assert(current.pending.contains(other) <==> is_address(other)
                        && current_u.pending_lightmaps@.contains_key(pending_key(other)));
                    assert(current.pending.contains(other) <==> before.pending.contains(other)
                        && !(done.contains(other) && before.settles(other, images@)));
                    assert(done_after.contains(other) <==> done.contains(other) || other
                        == address);
                }
            }
            assert(after =~~= expected);
        }
        applied = applied + 1;
    }
    proof {
        let done = settled_addresses(settled@, settled@.len() as int);
        let all = Set::new(|address: SlotAddress| true);
        let partly = before.resolve_within(images@, done);
        let wholly = before.resolve_within(images@, all);
        assert forall|address: SlotAddress|
            before.arrived(address, images@).is_some() implies before.settles(
            address,
            images@,
        ) by {}
        assert forall|index: int| 0 <= index < partly.slabs.len() implies partly.slabs[index]
            =~~= wholly.slabs[index] by {
            assert forall|slot: int|
                0 <= slot < partly.slabs[index].images.len() implies partly.slabs[index].images[slot]
                == wholly.slabs[index].images[slot] by {
                if before.arrived((index, slot), images@).is_some() {
                    assert(before.settles((index, slot), images@));
                    assert(done.contains((index, slot)));
                }
            }
            assert forall|slot: int|
                0 <= slot
                    < partly.slabs[index].asset_ids.len() implies partly.slabs[index].asset_ids[slot]
                == wholly.slabs[index].asset_ids[slot] by {
                if before.settles((index, slot), images@) {
                    assert(done.contains((index, slot)));
                }
            }
        }
        assert(partly.pending =~= wholly.pending) by {
            assert forall|address: SlotAddress|
                partly.pending.contains(address) <==> wholly.pending.contains(address) by {
                if before.settles(address, images@) {
                    assert(done.contains(address));
                }
            }
        }
        assert(partly =~~= wholly);
        before.lemma_resolve_within(images@, Set::new(|address: SlotAddress| true));
    }
}

/// Whether `changed` holds a report on `entity`.
pub fn is_reported(changed: &Vec<ChangedLightmap>, entity: u64) -> (reported: bool)
    ensures
        reported == reports(changed@, entity),
{
    let mut position: usize = 0;
    while position < changed.len()
        invariant
            position <= changed@.len(),
            forall|earlier: int| 0 <= earlier < position ==> changed@[earlier].entity != entity,
        decreases changed@.len() - position,
    {
        if changed[position].entity == entity {
            return true;
        }
        position = position + 1;
    }
    false
}

/// Brings the lightmap state up to date with the scene, once per frame.
///
/// `changed` lists the entities whose lightmap or visibility changed,
/// `removed` those that lost their lightmap, and `images` the images that
/// are loaded. The reports are taken in first, in order; then the removals,
/// but for entities that `changed` reports, since a report takes precedence
/// over a removal; then every pending slot is held against `images`.
///
/// Returns the entities that were left without a lightmap because no slot
/// could be had, in the order of their reports: these render without one.
pub fn extract_lightmaps(
    u: &mut RenderLightmapsU,
    l: &mut RenderLightmapsL,
    changed: &Vec<ChangedLightmap>,
    removed: &Vec<u64>,
    images: &Vec<LoadedImage>,
    fallback_images: &FallbackImage,
) -> (unlit: Vec<u64>)
    requires
        lightmaps_wf(*old(l), *old(u)),
    ensures
        lightmaps_wf(*final(l), *final(u)),
        lightmaps_model(*final(l), *final(u)) == lightmaps_model(*old(l), *old(u)).extract(
            changed@,
            removed@,
            images@,
            fallback_images.d2,
        ),
        unlit@ == lightmaps_model(*old(l), *old(u)).unlit(changed@, fallback_images.d2),
{
    let ghost before = lightmaps_model(*l, *u);
    let mut unlit: Vec<u64> = Vec::new();
    let mut taken: usize = 0;
    // Loop over each entity.
    while taken < changed.len()
        invariant
            taken <= changed@.len(),
            lightmaps_wf(*l, *u),
            lightmaps_model(*l, *u) == before.upsert_all(
                changed@.subrange(0, taken as int),
                fallback_images.d2,
            ),
            unlit@ == before.unlit(changed@.subrange(0, taken as int), fallback_images.d2),
        decreases changed@.len() - taken,
    {
        proof {
            let next = changed@.subrange(0, taken as int + 1);
            assert(next.drop_last() =~= changed@.subrange(0, taken as int));
            assert(next.last() == changed@[taken as int]);
        }
        match upsert_lightmap(l, u, fallback_images, &changed[taken]) {
            Ok(()) => {},
            Err(_) => {
                unlit.push(changed[taken].entity);
            },
        }
        taken = taken + 1;
    }
    proof {
        assert(changed@.subrange(0, taken as int) =~= changed@);
    }
    let ghost upserted = lightmaps_model(*l, *u);
    let mut dropped: usize = 0;
    while dropped < removed.len()
        invariant
            dropped <= removed@.len(),
            lightmaps_wf(*l, *u),
            lightmaps_model(*l, *u) == upserted.remove_all(
                removed@.subrange(0, dropped as int),
                changed@,
            ),
        decreases removed@.len() - dropped,
    {
        proof {
            let next = removed@.subrange(0, dropped as int + 1);
            assert(next.drop_last() =~= removed@.subrange(0, dropped as int));
            assert(next.last() == removed@[dropped as int]);
        }
        if !is_reported(changed, removed[dropped]) {
            remove_lightmap(l, u, removed[dropped]);
        }
        dropped = dropped + 1;
    }
    proof {
        assert(removed@.subrange(0, dropped as int) =~= removed@);
    }
    resolve_pending(l, u, images);
    unlit
}

} // verus!
