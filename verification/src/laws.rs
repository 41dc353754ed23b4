//! Laws of the slot allocator and of the table of lightmapped entities,
//! proved of the mathematical model in `model`.

use crate::model::{ChangedLightmap, LightmapsModel, LoadedImage, SlotAddress};
use crate::render_lightmap::AssetId;
use crate::slab::GpuImage;
use vstd::prelude::*;

verus! {

/// One step of a client of the allocator.
pub ghost enum SlotOp {
    /// Ask for a slot for an image.
    Allocate { asset_id: AssetId },
    /// Give a slot back.
    Release { address: SlotAddress },
}

impl LightmapsModel {
    /// The state after one step.
    pub open spec fn step(self, op: SlotOp, fallback: GpuImage) -> LightmapsModel {
        match op {
            SlotOp::Allocate { asset_id } => self.allocate(asset_id, fallback),
            SlotOp::Release { address } => self.release(address),
        }
    }

    /// The state after the steps in `ops`, in order.
    pub open spec fn run(self, ops: Seq<SlotOp>, fallback: GpuImage) -> LightmapsModel
        decreases ops.len(),
    {
        if ops.len() == 0 {
            self
        } else {
            self.run(ops.drop_last(), fallback).step(ops.last(), fallback)
        }
    }

    /// The slots that the steps in `ops` were handed and have not given
    /// back, in the order in which they were handed out.
    pub open spec fn held(self, ops: Seq<SlotOp>, fallback: GpuImage) -> Seq<SlotAddress>
        decreases ops.len(),
    {
        if ops.len() == 0 {
            Seq::empty()
        } else {
            let before = self.run(ops.drop_last(), fallback);
            let held = self.held(ops.drop_last(), fallback);
            match ops.last() {
                SlotOp::Allocate { asset_id } => match before.allocation() {
                    Some(address) => held.push(address),
                    None => held,
                },
                SlotOp::Release { address } => held.remove_value(address),
            }
        }
    }

    /// Whether the steps in `ops` keep to the one rule for clients: a slot
    /// is given back only by the one who holds it.
    pub open spec fn admits(self, ops: Seq<SlotOp>, fallback: GpuImage) -> bool
        decreases ops.len(),
    {
        if ops.len() == 0 {
            true
        } else {
            &&& self.admits(ops.drop_last(), fallback)
            &&& match ops.last() {
                SlotOp::Allocate { asset_id } => true,
                SlotOp::Release { address } => self.held(ops.drop_last(), fallback).contains(
                    address,
                ),
            }
        }
    }

    /// The slots of the table's entries and the pending slots.
    pub open spec fn bound_slots(self) -> Set<SlotAddress> {
        Set::new(
            |address: SlotAddress|
                self.pending.contains(address) || exists|entity: u64|
                    self.table.contains_key(entity) && #[trigger] self.table[entity].address()
                        == address,
        )
    }

    /// There are never more taken slots than slots: the number of slabs
    /// times the number of slots in each.
    pub proof fn lemma_live_bounded(self)
        requires
            self.wf(),
        ensures
            self.live().finite(),
            self.live().len() <= self.slabs.len() * self.capacity(),
    {
        let capacity = self.capacity() as int;
        let total = self.slabs.len() * capacity;
        let decode = |number: int|
            if capacity == 1 {
                (number, 0int)
            } else {
                (number / 4, number % 4)
            };
        let numbers = Set::new(|number: int| 0 <= number < total && self.live().contains(decode(number)));
        let range = vstd::set_lib::set_int_range(0, total);
        vstd::set_lib::lemma_int_range(0, total);
        assert(numbers.subset_of(range));
        vstd::set_lib::lemma_len_subset(numbers, range);
        assert(numbers.map(decode) =~= self.live()) by {
            assert forall|address: SlotAddress| self.live().contains(address) implies numbers.map(
                decode,
            ).contains(address) by {
                let number = address.0 * capacity + address.1;
                if capacity == 1 {
                    assert(number == address.0);
                    assert(total == self.slabs.len());
                } else {
                    assert(number == address.0 * 4 + address.1);
                    assert(total == self.slabs.len() * 4);
                }
                assert(decode(number) == address);
                assert(numbers.contains(number));
            }
        }
        vstd::set_lib::lemma_map_size_bound(numbers, self.live(), decode);
    }

    /// Whatever steps are taken, as long as a slot is given back only by the
    /// one who holds it: the state stays consistent; no slab is ever
    /// removed; the slots that are held are all different, all taken, and
    /// none of them belongs to an entry of the table; and there are never
    /// more of them than the slabs have slots.
    pub proof fn lemma_allocator_safety(self, ops: Seq<SlotOp>, fallback: GpuImage)
        requires
            self.wf(),
            self.admits(ops, fallback),
        ensures
            self.run(ops, fallback).wf(),
            self.run(ops, fallback).slabs.len() >= self.slabs.len(),
            self.run(ops, fallback).table == self.table,
            self.run(ops, fallback).pending == self.pending,
            self.run(ops, fallback).bindless_supported == self.bindless_supported,
            self.held(ops, fallback).no_duplicates(),
            forall|address: SlotAddress| #[trigger]
                self.held(ops, fallback).contains(address) ==> self.run(
                    ops,
                    fallback,
                ).live().contains(address) && !self.bound_slots().contains(address),
            self.held(ops, fallback).len() <= self.run(ops, fallback).slabs.len()
                * self.capacity(),
        decreases ops.len(),
    {
        let after = self.run(ops, fallback);
        let held = self.held(ops, fallback);
        if ops.len() == 0 {
        } else {
            let earlier = ops.drop_last();
            let before = self.run(earlier, fallback);
            let held_before = self.held(earlier, fallback);
            self.lemma_allocator_safety(earlier, fallback);
            match ops.last() {
                SlotOp::Allocate { asset_id } => {
                    before.lemma_allocate(asset_id, fallback);
                    before.lemma_allocation();
                    match before.allocation() {
                        Some(address) => {
                            assert(!held_before.contains(address));
                            assert(!self.bound_slots().contains(address)) by {
                                if self.bound_slots().contains(address) {
                                    if before.pending.contains(address) {
                                        assert(before.live().contains(address));
                                    } else {
                                        let entity = choose|entity: u64|
                                            self.table.contains_key(entity)
                                                && #[trigger] self.table[entity].address()
                                                == address;
                                        assert(before.live().contains(
                                            before.table[entity].address(),
                                        ));
                                    }
                                }
                            }
                            assert forall|other: SlotAddress|
                                held.contains(other) implies after.live().contains(other)
                                && !self.bound_slots().contains(other) by {
                                let position = choose|position: int|
                                    0 <= position < held.len() && held[position] == other;
                                if position < held_before.len() {
                                    assert(held_before.contains(held_before[position]));
                                }
                            }
                        },
                        None => {},
                    }
                },
                SlotOp::Release { address } => {
                    assert(before.live().contains(address));
                    before.lemma_release(address);
                    let position = held_before.index_of_first(address);
                    held_before.index_of_first_ensures(address);
                    let position = position.unwrap();
                    assert(held =~= held_before.remove(position));
                    assert forall|other: SlotAddress| held.contains(other) implies other
                        != address && held_before.contains(other) by {
                        let place = choose|place: int|
                            0 <= place < held.len() && held[place] == other;
                        if place < position {
                            assert(held_before[place] == other);
                        } else {
                            assert(held_before[place + 1] == other);
                        }
                    }
                    assert(after.wf()) by {
                        assert forall|entity: u64| #[trigger]
                            after.table.contains_key(entity) implies after.live().contains(
                            after.table[entity].address(),
                        ) by {
                            assert(before.live().contains(before.table[entity].address()));
                            assert(self.bound_slots().contains(self.table[entity].address()));
                        }
                        assert forall|pending: SlotAddress| #[trigger]
                            after.pending.contains(pending) implies after.live().contains(
                            pending,
                        ) by {
                            assert(before.live().contains(pending));
                            assert(self.bound_slots().contains(pending));
                        }
                    }
                },
            }
        }
        after.lemma_live_bounded();
        held.unique_seq_to_set();
        assert(held.to_set().subset_of(after.live()));
        vstd::set_lib::lemma_len_subset(held.to_set(), after.live());
    }

    /// The reports of a frame keep the state consistent and never remove a
    /// slab.
    pub proof fn lemma_upsert_all(self, changed: Seq<ChangedLightmap>, fallback: GpuImage)
        requires
            self.wf(),
        ensures
            self.upsert_all(changed, fallback).wf(),
            self.upsert_all(changed, fallback).slabs.len() >= self.slabs.len(),
        decreases changed.len(),
    {
        if changed.len() > 0 {
            self.lemma_upsert_all(changed.drop_last(), fallback);
            self.upsert_all(changed.drop_last(), fallback).lemma_upsert(changed.last(), fallback);
        }
    }

    /// The removals of a frame keep the state consistent and leave every
    /// slab in place.
    pub proof fn lemma_remove_all(self, removed: Seq<u64>, changed: Seq<ChangedLightmap>)
        requires
            self.wf(),
        ensures
            self.remove_all(removed, changed).wf(),
            self.remove_all(removed, changed).slabs.len() == self.slabs.len(),
        decreases removed.len(),
    {
        if removed.len() > 0 {
            self.lemma_remove_all(removed.drop_last(), changed);
            self.remove_all(removed.drop_last(), changed).lemma_remove(removed.last());
        }
    }

    /// Slabs are never removed: extraction keeps the state consistent, and
    /// after it there are at least as many slabs as before.
    pub proof fn lemma_extract(
        self,
        changed: Seq<ChangedLightmap>,
        removed: Seq<u64>,
        images: Seq<LoadedImage>,
        fallback: GpuImage,
    )
        requires
            self.wf(),
        ensures
            self.extract(changed, removed, images, fallback).wf(),
            self.extract(changed, removed, images, fallback).slabs.len() >= self.slabs.len(),
    {
        self.lemma_upsert_all(changed, fallback);
        let upserted = self.upsert_all(changed, fallback);
        upserted.lemma_remove_all(removed, changed);
        let removed_all = upserted.remove_all(removed, changed);
        removed_all.lemma_resolve_within(images, Set::new(|address: SlotAddress| true));
    }

    /// An entity that has an entry keeps it through any report: the report
    /// changes nothing at all.
    pub proof fn lemma_upsert_is_stable(self, changed: ChangedLightmap, fallback: GpuImage)
        requires
            self.table.contains_key(changed.entity),
        ensures
            self.upsert(changed, fallback) == self,
    {
    }

    /// Of two reports on one entity in one pass, whatever the second report
    /// says, it changes nothing that the first has done, where the first
    /// has given the entity an entry.
    pub proof fn lemma_second_upsert_is_stable(
        self,
        first: ChangedLightmap,
        second: ChangedLightmap,
        fallback: GpuImage,
    )
        requires
            first.entity == second.entity,
            self.upsert(first, fallback).table.contains_key(first.entity),
        ensures
            self.upsert(first, fallback).upsert(second, fallback) == self.upsert(first, fallback),
    {
    }

    /// An entity that has an entry has the same entry after any further
    /// reports of the pass.
    pub proof fn lemma_upsert_all_keeps_entries(
        self,
        changed: Seq<ChangedLightmap>,
        fallback: GpuImage,
        entity: u64,
    )
        requires
            self.table.contains_key(entity),
        ensures
            self.upsert_all(changed, fallback).table.contains_key(entity),
            self.upsert_all(changed, fallback).table[entity] == self.table[entity],
        decreases changed.len(),
    {
        if changed.len() > 0 {
            self.lemma_upsert_all_keeps_entries(changed.drop_last(), fallback, entity);
        }
    }
}

} // verus!
