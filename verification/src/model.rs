//! The mathematical model of the slot allocator and of the table of
//! lightmapped entities, and the laws that hold of it.
//!
//! The executable code in `lightmaps` is proved to do, on its vectors and
//! bitmasks, exactly what the functions of this model say.

use crate::render_lightmap::{AssetId, Lightmap, RenderLightmapView};
use crate::slab::{slots_per_slab, GpuImage};
use vstd::prelude::*;

verus! {

/// A slot of a slab: the index of the slab, then the index of the slot.
pub type SlotAddress = (int, int);

/// One slab: which of its slots are free, the image in each slot, and the
/// image that each slot waits for.
#[verifier::ext_equal]
pub ghost struct SlabModel {
    pub free: Set<int>,
    pub images: Seq<GpuImage>,
    pub asset_ids: Seq<Option<AssetId>>,
}

/// One entity of the scene whose lightmap or visibility changed.
#[derive(Clone, Copy, Debug, PartialEq, Eq, Structural, Hash)]
pub struct ChangedLightmap {
    /// The entity.
    pub entity: u64,
    /// Whether the entity is visible in some view.
    pub visible: bool,
    /// The entity's lightmap.
    pub lightmap: Lightmap,
}

/// An image that has been loaded, under the identity of its asset.
#[derive(Clone, Copy, Debug, PartialEq, Eq, Structural, Hash)]
pub struct LoadedImage {
    pub asset_id: AssetId,
    pub gpu_image: GpuImage,
}

/// The allocator and the table together.
#[verifier::ext_equal]
pub ghost struct LightmapsModel {
    /// Whether slabs hold several lightmaps or one.
    pub bindless_supported: bool,
    /// The largest number of slabs that may exist.
    pub max_slabs: nat,
    /// The slabs, in the order of their creation.
    pub slabs: Seq<SlabModel>,
    /// The lightmap of each entity that has one.
    pub table: Map<u64, RenderLightmapView>,
    /// The slots that wait for their image.
    pub pending: Set<SlotAddress>,
}

/// There is a least number below `bound` of which `holds` is true, if there
/// is any.
pub proof fn lemma_least(holds: spec_fn(int) -> bool, witness: int)
    requires
        0 <= witness,
        holds(witness),
    ensures
        exists|least: int|
            0 <= least <= witness && #[trigger] holds(least) && forall|below: int|
                0 <= below < least ==> !#[trigger] holds(below),
    decreases witness,
{
    if exists|below: int| 0 <= below < witness && #[trigger] holds(below) {
        let below = choose|below: int| 0 <= below < witness && #[trigger] holds(below);
        lemma_least(holds, below);
    } else {
        assert(holds(witness) && forall|below: int| 0 <= below < witness ==> !#[trigger] holds(below));
    }
}

/// The image that stands first in `images` under the identity `asset_id`.
pub open spec fn find_image(images: Seq<LoadedImage>, asset_id: AssetId) -> Option<GpuImage>
    decreases images.len(),
{
    if images.len() == 0 {
        None
    } else if images[0].asset_id == asset_id {
        Some(images[0].gpu_image)
    } else {
        find_image(images.drop_first(), asset_id)
    }
}

impl SlabModel {
    /// The number of slots.
    pub open spec fn capacity(self) -> nat {
        self.images.len()
    }

    /// Every sequence has one element per slot, and only slots are free.
    pub open spec fn wf(self, capacity: nat) -> bool {
        &&& self.images.len() == capacity
        &&& self.asset_ids.len() == capacity
        &&& forall|slot: int| self.free.contains(slot) ==> 0 <= slot < capacity
    }

    /// A slab in which every slot is free and holds the placeholder.
    pub open spec fn fresh(capacity: nat, fallback: GpuImage) -> SlabModel {
        SlabModel {
            free: Set::new(|slot: int| 0 <= slot < capacity),
            images: Seq::new(capacity, |slot: int| fallback),
            asset_ids: Seq::new(capacity, |slot: int| None::<AssetId>),
        }
    }

    /// Whether some slot is free.
    pub open spec fn has_free_slot(self) -> bool {
        exists|slot: int| self.free.contains(slot)
    }

    /// Whether `slot` is free and no slot below it is.
    pub open spec fn is_lowest_free(self, slot: int) -> bool {
        self.free.contains(slot) && forall|other: int| self.free.contains(other) ==> slot <= other
    }

    /// The lowest free slot.
    pub open spec fn lowest_free(self) -> int {
        choose|slot: int| self.is_lowest_free(slot)
    }

    /// The slab after `slot` was handed out for the image `asset_id`: the
    /// slot is taken, holds the placeholder and waits for that image.
    pub open spec fn take(self, slot: int, asset_id: AssetId, fallback: GpuImage) -> SlabModel {
        SlabModel {
            free: self.free.remove(slot),
            images: self.images.update(slot, fallback),
            asset_ids: self.asset_ids.update(slot, Some(asset_id)),
        }
    }

    /// The slab after `slot` was given back: the slot is free and waits for
    /// nothing; its image stays.
    pub open spec fn give_back(self, slot: int) -> SlabModel {
        SlabModel {
            free: self.free.insert(slot),
            images: self.images,
            asset_ids: self.asset_ids.update(slot, None),
        }
    }

    /// A slab with a free slot has a lowest free slot, and only one.
    pub proof fn lemma_lowest_free(self, capacity: nat)
        requires
            self.wf(capacity),
            self.has_free_slot(),
        ensures
            self.is_lowest_free(self.lowest_free()),
            0 <= self.lowest_free() < capacity,
            forall|slot: int| self.is_lowest_free(slot) ==> slot == self.lowest_free(),
    {
        let witness = choose|slot: int| self.free.contains(slot);
        let holds = |slot: int| self.free.contains(slot);
        lemma_least(holds, witness);
        let least = choose|least: int|
            0 <= least <= witness && #[trigger] holds(least) && forall|below: int|
                0 <= below < least ==> !#[trigger] holds(below);
        assert(self.is_lowest_free(least)) by {
            assert forall|other: int| self.free.contains(other) implies least <= other by {
                if other < least {
                    assert(!holds(other));
                }
            }
        }
    }
}

impl LightmapsModel {
    /// The state before anything was allocated.
    pub open spec fn empty(bindless_supported: bool, max_slabs: nat) -> LightmapsModel {
        LightmapsModel {
            bindless_supported,
            max_slabs,
            slabs: Seq::empty(),
            table: Map::empty(),
            pending: Set::empty(),
        }
    }

    /// The number of slots in each slab.
    pub open spec fn capacity(self) -> nat {
        slots_per_slab(self.bindless_supported)
    }

    /// Whether `slab` is a slab with a free slot.
    pub open spec fn has_free(self, slab: int) -> bool {
        0 <= slab < self.slabs.len() && self.slabs[slab].has_free_slot()
    }

    /// The slabs that have a free slot: what the free-slab set must hold.
    pub open spec fn free_slabs(self) -> Set<int> {
        Set::new(|slab: int| self.has_free(slab))
    }

    /// Whether `slab` has a free slot and no slab before it has one.
    pub open spec fn is_lowest_free_slab(self, slab: int) -> bool {
        self.has_free(slab) && forall|other: int| self.has_free(other) ==> slab <= other
    }

    /// The slots that are taken.
    pub open spec fn live(self) -> Set<SlotAddress> {
        Set::new(
            |address: SlotAddress|
                0 <= address.0 < self.slabs.len() && 0 <= address.1 < self.capacity()
                    && !self.slabs[address.0].free.contains(address.1),
        )
    }

    /// Whether `address` is a slot of a slab that exists.
    pub open spec fn is_slot(self, address: SlotAddress) -> bool {
        0 <= address.0 < self.slabs.len() && 0 <= address.1 < self.capacity()
    }

    /// The state is consistent: no more slabs than allowed, every slab of the
    /// one capacity, every entry of the table on a taken slot of its own,
    /// and every pending slot taken.
    pub open spec fn wf(self) -> bool {
        &&& self.slabs.len() <= self.max_slabs
        &&& forall|slab: int|
            0 <= slab < self.slabs.len() ==> (#[trigger] self.slabs[slab]).wf(self.capacity())
        &&& forall|entity: u64| #[trigger]
            self.table.contains_key(entity) ==> self.live().contains(self.table[entity].address())
        &&& forall|first: u64, second: u64|
            self.table.contains_key(first) && self.table.contains_key(second) && first != second
                ==> self.table[first].address() != self.table[second].address()
        &&& forall|address: SlotAddress| #[trigger]
            self.pending.contains(address) ==> self.live().contains(address)
    }

    /// The slot that the next allocation hands out: the lowest free slot of
    /// the first slab that has one; where no slab has one, the first slot of
    /// a new slab; and none where no slab may be added.
    pub open spec fn allocation(self) -> Option<SlotAddress> {
        if exists|slab: int| self.is_lowest_free_slab(slab) {
            let slab = choose|slab: int| self.is_lowest_free_slab(slab);
            Some((slab, self.slabs[slab].lowest_free()))
        } else if self.slabs.len() < self.max_slabs {
            Some((self.slabs.len() as int, 0int))
        } else {
            None
        }
    }

    /// The state after an allocation for the image `asset_id`.
    pub open spec fn allocate(self, asset_id: AssetId, fallback: GpuImage) -> LightmapsModel {
        match self.allocation() {
            Some(address) => if address.0 < self.slabs.len() {
                LightmapsModel {
                    slabs: self.slabs.update(
                        address.0,
                        self.slabs[address.0].take(address.1, asset_id, fallback),
                    ),
                    ..self
                }
            } else {
                LightmapsModel {
                    slabs: self.slabs.push(
                        SlabModel::fresh(self.capacity(), fallback).take(0, asset_id, fallback),
                    ),
                    ..self
                }
            },
            None => self,
        }
    }

    /// The state after the slot at `address` was given back.
    pub open spec fn release(self, address: SlotAddress) -> LightmapsModel {
        LightmapsModel {
            slabs: self.slabs.update(address.0, self.slabs[address.0].give_back(address.1)),
            ..self
        }
    }

    /// The state after an entity with a lightmap was reported. An entity
    /// that has an entry keeps it, whatever the report says; one that is
    /// not visible gets none; one for which no slot can be had gets none.
    /// Any other gets the next slot, and the slot is pending.
    pub open spec fn upsert(self, changed: ChangedLightmap, fallback: GpuImage) -> LightmapsModel {
        if self.table.contains_key(changed.entity) || !changed.visible {
            self
        } else {
            match self.allocation() {
                Some(address) => {
                    let allocated = self.allocate(changed.lightmap.image, fallback);
                    LightmapsModel {
                        table: self.table.insert(
                            changed.entity,
                            RenderLightmapView {
                                uv_rect: changed.lightmap.uv_rect,
                                slab_index: address.0,
                                slot_index: address.1,
                                bicubic_sampling: changed.lightmap.bicubic_sampling,
                            },
                        ),
                        pending: self.pending.insert(address),
                        ..allocated
                    }
                },
                None => self,
            }
        }
    }

    /// The state after an entity lost its lightmap: its slot is given back,
    /// and neither the table nor the pending set knows it any longer.
    pub open spec fn remove(self, entity: u64) -> LightmapsModel {
        if self.table.contains_key(entity) {
            let address = self.table[entity].address();
            LightmapsModel {
                table: self.table.remove(entity),
                pending: self.pending.remove(address),
                ..self.release(address)
            }
        } else {
            self
        }
    }

    /// The image that has arrived for a pending slot, if it has.
    pub open spec fn arrived(self, address: SlotAddress, images: Seq<LoadedImage>) -> Option<
        GpuImage,
    > {
        if self.pending.contains(address) && self.is_slot(address) {
            match self.slabs[address.0].asset_ids[address.1] {
                Some(asset_id) => find_image(images, asset_id),
                None => None,
            }
        } else {
            None
        }
    }

    /// Whether a pending slot stops being pending: its image has arrived, or
    /// it waits for none.
    pub open spec fn settles(self, address: SlotAddress, images: Seq<LoadedImage>) -> bool {
        self.pending.contains(address) && self.is_slot(address) && (self.arrived(
            address,
            images,
        ).is_some() || self.slabs[address.0].asset_ids[address.1].is_none())
    }

    /// The state after the pending slots among `done` were held against the
    /// loaded images: a slot whose image has arrived holds it, and a slot
    /// that settles is no longer pending and waits for nothing.
    pub open spec fn resolve_within(
        self,
        images: Seq<LoadedImage>,
        done: Set<SlotAddress>,
    ) -> LightmapsModel {
        LightmapsModel {
            slabs: Seq::new(
                self.slabs.len(),
                |slab: int|
                    SlabModel {
                        free: self.slabs[slab].free,
                        images: Seq::new(
                            self.slabs[slab].images.len(),
                            |slot: int|
                                if done.contains((slab, slot)) && self.arrived(
                                    (slab, slot),
                                    images,
                                ).is_some() {
                                    self.arrived((slab, slot), images).unwrap()
                                } else {
                                    self.slabs[slab].images[slot]
                                },
                        ),
                        asset_ids: Seq::new(
                            self.slabs[slab].asset_ids.len(),
                            |slot: int|
                                if done.contains((slab, slot)) && self.settles(
                                    (slab, slot),
                                    images,
                                ) {
                                    None
                                } else {
                                    self.slabs[slab].asset_ids[slot]
                                },
                        ),
                    },
            ),
            pending: Set::new(
                |address: SlotAddress|
                    self.pending.contains(address) && !(done.contains(address) && self.settles(
                        address,
                        images,
                    )),
            ),
            ..self
        }
    }

    /// The state after every pending slot was held against the loaded
    /// images.
    pub open spec fn resolve(self, images: Seq<LoadedImage>) -> LightmapsModel {
        self.resolve_within(images, Set::new(|address: SlotAddress| true))
    }

    /// The state after the reports in `changed` were taken in, in order.
    pub open spec fn upsert_all(self, changed: Seq<ChangedLightmap>, fallback: GpuImage)
        -> LightmapsModel
        decreases changed.len(),
    {
        if changed.len() == 0 {
            self
        } else {
            self.upsert_all(changed.drop_last(), fallback).upsert(changed.last(), fallback)
        }
    }

    /// The entities that the reports in `changed` leave without a lightmap
    /// because no slot can be had for them, in the order of the reports.
    pub open spec fn unlit(self, changed: Seq<ChangedLightmap>, fallback: GpuImage) -> Seq<u64>
        decreases changed.len(),
    {
        if changed.len() == 0 {
            Seq::empty()
        } else {
            let before = self.upsert_all(changed.drop_last(), fallback);
            let earlier = self.unlit(changed.drop_last(), fallback);
            if !before.table.contains_key(changed.last().entity) && changed.last().visible
                && before.allocation().is_none() {
                earlier.push(changed.last().entity)
            } else {
                earlier
            }
        }
    }

    /// The state after the entities in `removed` lost their lightmaps, in
    /// order, but for those that `changed` reports: a report takes
    /// precedence over a removal.
    pub open spec fn remove_all(self, removed: Seq<u64>, changed: Seq<ChangedLightmap>)
        -> LightmapsModel
        decreases removed.len(),
    {
        if removed.len() == 0 {
            self
        } else {
            let before = self.remove_all(removed.drop_last(), changed);
            if reports(changed, removed.last()) {
                before
            } else {
                before.remove(removed.last())
            }
        }
    }

    /// The state after one frame's extraction: the reports, then the
    /// removals, then the images that have arrived.
    pub open spec fn extract(
        self,
        changed: Seq<ChangedLightmap>,
        removed: Seq<u64>,
        images: Seq<LoadedImage>,
        fallback: GpuImage,
    ) -> LightmapsModel {
        self.upsert_all(changed, fallback).remove_all(removed, changed).resolve(images)
    }
}

impl LightmapsModel {
    /// Where some slab has a free slot, one slab is the first to have one.
    pub proof fn lemma_lowest_free_slab(self)
        requires
            exists|slab: int| self.has_free(slab),
        ensures
            exists|slab: int| self.is_lowest_free_slab(slab),
            forall|first: int, second: int|
                self.is_lowest_free_slab(first) && self.is_lowest_free_slab(second) ==> first
                    == second,
    {
        let witness = choose|slab: int| self.has_free(slab);
        let holds = |slab: int| self.has_free(slab);
        lemma_least(holds, witness);
        let least = choose|least: int|
            0 <= least <= witness && #[trigger] holds(least) && forall|below: int|
                0 <= below < least ==> !#[trigger] holds(below);
        assert(self.is_lowest_free_slab(least)) by {
            assert forall|other: int| self.has_free(other) implies least <= other by {
                if other < least {
                    assert(!holds(other));
                }
            }
        }
    }

    /// The slot that an allocation hands out was free, lies in an existing
    /// slab or at the start of a new one, and there is none only where every
    /// slot is taken and no slab may be added.
    pub proof fn lemma_allocation(self)
        requires
            self.wf(),
        ensures
            match self.allocation() {
                Some(address) => {
                    &&& 0 <= address.0 <= self.slabs.len()
                    &&& 0 <= address.1 < self.capacity()
                    &&& address.0 < self.max_slabs
                    &&& !self.live().contains(address)
                    &&& address.0 < self.slabs.len() ==> self.is_lowest_free_slab(address.0)
                        && self.slabs[address.0].is_lowest_free(address.1)
                    &&& address.0 == self.slabs.len() ==> address.1 == 0 && forall|slab: int|
                        !self.has_free(slab)
                },
                None => self.slabs.len() == self.max_slabs && forall|slab: int|
                    !self.has_free(slab),
            },
    {
        if exists|slab: int| self.is_lowest_free_slab(slab) {
            let slab = choose|slab: int| self.is_lowest_free_slab(slab);
            self.slabs[slab].lemma_lowest_free(self.capacity());
        } else {
            if exists|slab: int| self.has_free(slab) {
                self.lemma_lowest_free_slab();
            }
        }
    }

    /// An allocation keeps the state consistent, takes exactly the slot that
    /// it hands out, and never removes a slab.
    pub proof fn lemma_allocate(self, asset_id: AssetId, fallback: GpuImage)
        requires
            self.wf(),
        ensures
            self.allocate(asset_id, fallback).wf(),
            self.allocate(asset_id, fallback).slabs.len() >= self.slabs.len(),
            self.allocate(asset_id, fallback).table == self.table,
            self.allocate(asset_id, fallback).pending == self.pending,
            match self.allocation() {
                Some(address) => !self.live().contains(address) && self.allocate(
                    asset_id,
                    fallback,
                ).live() =~= self.live().insert(address),
                None => self.allocate(asset_id, fallback) == self,
            },
    {
        self.lemma_allocation();
        let after = self.allocate(asset_id, fallback);
        match self.allocation() {
            Some(address) => {
                assert forall|slab: int| 0 <= slab < after.slabs.len() implies (
                #[trigger] after.slabs[slab]).wf(after.capacity()) by {
                    if slab != address.0 {
                        assert(after.slabs[slab] == self.slabs[slab]);
                    }
                }
                assert forall|other: SlotAddress|
                    after.live().contains(other) <==> self.live().insert(address).contains(
                        other,
                    ) by {
                    if 0 <= other.0 < after.slabs.len() && other.0 != address.0 {
                        assert(after.slabs[other.0] == self.slabs[other.0]);
                    }
                }
                assert(after.live() =~= self.live().insert(address));
                assert forall|entity: u64| #[trigger]
                    after.table.contains_key(entity) implies after.live().contains(
                    after.table[entity].address(),
                ) by {
                    assert(self.live().contains(self.table[entity].address()));
                }
                assert forall|pending: SlotAddress| #[trigger]
                    after.pending.contains(pending) implies after.live().contains(pending) by {
                    assert(self.live().contains(pending));
                }
            },
            None => {},
        }
    }

    /// Giving back a taken slot keeps the slabs in order and frees exactly
    /// that slot.
    pub proof fn lemma_release(self, address: SlotAddress)
        requires
            self.wf(),
            self.live().contains(address),
        ensures
            self.release(address).slabs.len() == self.slabs.len(),
            forall|slab: int|
                0 <= slab < self.slabs.len() ==> (#[trigger] self.release(address).slabs[slab]).wf(
                    self.capacity(),
                ),
            self.release(address).live() =~= self.live().remove(address),
    {
        let after = self.release(address);
        assert forall|slab: int| 0 <= slab < self.slabs.len() implies (
        #[trigger] after.slabs[slab]).wf(self.capacity()) by {
            if slab != address.0 {
                assert(after.slabs[slab] == self.slabs[slab]);
            }
        }
        assert forall|other: SlotAddress|
            after.live().contains(other) <==> self.live().remove(address).contains(other) by {
            if 0 <= other.0 < after.slabs.len() && other.0 != address.0 {
                assert(after.slabs[other.0] == self.slabs[other.0]);
            }
        }
    }

    /// A report keeps the state consistent and never removes a slab.
    pub proof fn lemma_upsert(self, changed: ChangedLightmap, fallback: GpuImage)
        requires
            self.wf(),
        ensures
            self.upsert(changed, fallback).wf(),
            self.upsert(changed, fallback).slabs.len() >= self.slabs.len(),
    {
        let after = self.upsert(changed, fallback);
        if self.table.contains_key(changed.entity) || !changed.visible {
        } else {
            self.lemma_allocate(changed.lightmap.image, fallback);
            self.lemma_allocation();
            match self.allocation() {
                Some(address) => {
                    let allocated = self.allocate(changed.lightmap.image, fallback);
                    assert(after.slabs == allocated.slabs);
                    assert(after.live() =~= allocated.live());
                    assert forall|entity: u64| #[trigger]
                        after.table.contains_key(entity) implies after.live().contains(
                        after.table[entity].address(),
                    ) by {
                        if entity != changed.entity {
                            assert(self.live().contains(self.table[entity].address()));
                        }
                    }
                    assert forall|first: u64, second: u64|
                        after.table.contains_key(first) && after.table.contains_key(second)
                            && first != second implies after.table[first].address()
                        != after.table[second].address() by {
                        if first != changed.entity {
                            assert(self.live().contains(self.table[first].address()));
                        }
                        if second != changed.entity {
                            assert(self.live().contains(self.table[second].address()));
                        }
                    }
                    assert forall|pending: SlotAddress| #[trigger]
                        after.pending.contains(pending) implies after.live().contains(
                        pending,
                    ) by {
                        if pending != address {
                            assert(self.live().contains(pending));
                        }
                    }
                },
                None => {},
            }
        }
    }

    /// A removal keeps the state consistent and never removes a slab.
    pub proof fn lemma_remove(self, entity: u64)
        requires
            self.wf(),
        ensures
            self.remove(entity).wf(),
            self.remove(entity).slabs.len() == self.slabs.len(),
            self.table.contains_key(entity) ==> self.remove(entity).live() =~= self.live().remove(
                self.table[entity].address(),
            ),
    {
        if self.table.contains_key(entity) {
            let address = self.table[entity].address();
            let after = self.remove(entity);
            self.lemma_release(address);
            assert(after.slabs == self.release(address).slabs);
            assert(after.live() =~= self.release(address).live());
            assert forall|other: u64| #[trigger]
                after.table.contains_key(other) implies after.live().contains(
                after.table[other].address(),
            ) by {
                assert(self.live().contains(self.table[other].address()));
            }
            assert forall|pending: SlotAddress| #[trigger]
                after.pending.contains(pending) implies after.live().contains(pending) by {
                assert(self.live().contains(pending));
            }
        }
    }

    /// Holding pending slots against the loaded images keeps the state
    /// consistent and changes neither the slabs' number nor which slots are
    /// taken.
    pub proof fn lemma_resolve_within(self, images: Seq<LoadedImage>, done: Set<SlotAddress>)
        requires
            self.wf(),
        ensures
            self.resolve_within(images, done).wf(),
            self.resolve_within(images, done).slabs.len() == self.slabs.len(),
            self.resolve_within(images, done).live() =~= self.live(),
            self.resolve_within(images, done).table == self.table,
    {
        let after = self.resolve_within(images, done);
        assert(after.live() =~= self.live());
        assert forall|entity: u64| #[trigger]
            after.table.contains_key(entity) implies after.live().contains(
            after.table[entity].address(),
        ) by {
            assert(self.live().contains(self.table[entity].address()));
        }
        assert forall|pending: SlotAddress| #[trigger]
            after.pending.contains(pending) implies after.live().contains(pending) by {
            assert(self.live().contains(pending));
        }
    }
}

/// Whether `changed` holds a report on `entity`.
pub open spec fn reports(changed: Seq<ChangedLightmap>, entity: u64) -> bool {
    exists|position: int| 0 <= position < changed.len() && changed[position].entity == entity
}

} // verus!
