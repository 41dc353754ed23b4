//! A slab: a binding array of fixed capacity that holds lightmaps, with a
//! bitmask that records which of its slots are free.

use crate::index::LightmapSlotIndex;
use vstd::prelude::*;
use vstd::std_specs::bits::axiom_u32_trailing_zeros;

verus! {

/// The number of lightmaps that we store in a single slab, if bindless textures
/// are in use.
///
/// If bindless textures aren't in use, then only a single lightmap can be bound
/// at a time.
pub const LIGHTMAPS_PER_SLAB: usize = 4;

/// A handle to a texture view on the GPU.
#[derive(Clone, Copy, Debug, PartialEq, Eq, Structural, Hash)]
pub struct TextureView {
    pub id: u64,
}

/// A handle to a sampler on the GPU.
#[derive(Clone, Copy, Debug, PartialEq, Eq, Structural, Hash)]
pub struct Sampler {
    pub id: u64,
}

/// An image that has been uploaded to the GPU, as far as binding it goes.
#[derive(Clone, Copy, Debug, PartialEq, Eq, Structural, Hash)]
pub struct GpuImage {
    pub texture_view: TextureView,
    pub sampler: Sampler,
}

/// The placeholder images that stand in for images that are not loaded.
#[derive(Clone, Copy, Debug, PartialEq, Eq, Structural, Hash)]
pub struct FallbackImage {
    /// The placeholder for a two-dimensional texture.
    pub d2: GpuImage,
}

/// The image that occupies one slot of a slab.
#[derive(Clone, Copy, Debug, PartialEq, Eq, Structural, Hash)]
pub struct AllocatedLightmap {
    pub gpu_image: GpuImage,
}

/// A binding array that contains lightmaps.
///
/// This will have a single binding if bindless lightmaps aren't in use.
pub struct LightmapSlab {
    /// The GPU images in this slab.
    lightmaps: Vec<AllocatedLightmap>,
    free_slots_bitmask: u32,
}

/// The number of slots in each slab: `LIGHTMAPS_PER_SLAB` where binding
/// arrays can be used, one where they cannot.
pub open spec fn slots_per_slab(bindless_supported: bool) -> nat {
    if bindless_supported {
        LIGHTMAPS_PER_SLAB as nat
    } else {
        1
    }
}

/// Whether bit `slot` of `mask` is one.
pub open spec fn slot_bit(mask: u32, slot: u32) -> bool {
    (mask >> slot) & 1 == 1
}

/// The slots below `capacity` whose bit in `mask` is one.
pub open spec fn free_slots_of(mask: u32, capacity: nat) -> Set<int> {
    Set::new(|slot: int| 0 <= slot < capacity && slot_bit(mask, slot as u32))
}

proof fn lemma_bits_of_small_mask(mask: u32)
    by (bit_vector)
    requires
        mask < 16,
    ensures
        forall|slot: u32| 4 <= slot < 32 ==> !(#[trigger] slot_bit(mask, slot)),
        mask == 0 <==> (!slot_bit(mask, 0) && !slot_bit(mask, 1) && !slot_bit(mask, 2)
            && !slot_bit(mask, 3)),
        mask < 2 <==> (!slot_bit(mask, 1) && !slot_bit(mask, 2) && !slot_bit(mask, 3)),
{
}

proof fn lemma_full_masks()
    by (bit_vector)
    ensures
        forall|slot: u32| slot < 32 ==> (#[trigger] slot_bit(1u32, slot) <==> slot < 1),
        forall|slot: u32| slot < 32 ==> (#[trigger] slot_bit(15u32, slot) <==> slot < 4),
        (1u32 << 1u32) - 1 == 1u32,
        (1u32 << 4u32) - 1 == 15u32,
{
}

proof fn lemma_clear_bit(mask: u32, slot: u32)
    by (bit_vector)
    requires
        mask < 16,
        slot < 4,
    ensures
        mask & !(1u32 << slot) < 16,
        mask < 2 ==> mask & !(1u32 << slot) < 2,
        forall|other: u32|
            other < 32 ==> (#[trigger] slot_bit(mask & !(1u32 << slot), other) <==> slot_bit(
                mask,
                other,
            ) && other != slot),
{
}

proof fn lemma_set_bit(mask: u32, slot: u32)
    by (bit_vector)
    requires
        mask < 16,
        slot < 4,
    ensures
        mask | (1u32 << slot) < 16,
        mask < 2 && slot < 1 ==> mask | (1u32 << slot) < 2,
        forall|other: u32|
            other < 32 ==> (#[trigger] slot_bit(mask | (1u32 << slot), other) <==> slot_bit(
                mask,
                other,
            ) || other == slot),
{
}

impl LightmapSlab {
    /// The number of slots in this slab.
    pub closed spec fn capacity(&self) -> nat {
        self.lightmaps@.len()
    }

    /// The image in each slot.
    pub closed spec fn images(&self) -> Seq<GpuImage> {
        self.lightmaps@.map_values(|lightmap: AllocatedLightmap| lightmap.gpu_image)
    }

    /// The bitmask of free slots: bit `i` is one where slot `i` is free.
    pub closed spec fn free_mask(&self) -> u32 {
        self.free_slots_bitmask
    }

    /// The slots that are free.
    pub open spec fn free_slots(&self) -> Set<int> {
        free_slots_of(self.free_mask(), self.capacity())
    }

    /// A slab has one slot or `LIGHTMAPS_PER_SLAB` of them, and no bit of
    /// its bitmask is set at or beyond its capacity.
    pub open spec fn wf(&self) -> bool {
        &&& self.capacity() == 1 || self.capacity() == LIGHTMAPS_PER_SLAB
        &&& self.capacity() == self.images().len()
        &&& self.free_mask() < if self.capacity() == 1 {
            2u32
        } else {
            16u32
        }
    }

    /// The bitmask is zero exactly when no slot is free, and a slot is free
    /// exactly when it lies within the capacity and its bit is one.
    pub proof fn lemma_free_slots(&self)
        requires
            self.wf(),
        ensures
            self.free_mask() == 0 <==> self.free_slots() =~= Set::<int>::empty(),
            self.free_mask() == 0 <==> self.free_slots().len() == 0,
            self.free_slots().finite(),
            self.free_slots().len() <= self.capacity(),
            forall|slot: int|
                self.free_slots().contains(slot) <==> 0 <= slot < self.capacity() && slot_bit(
                    self.free_mask(),
                    slot as u32,
                ),
    {
        let mask = self.free_mask();
        let free = self.free_slots();
        let all = Set::new(|slot: int| 0 <= slot < self.capacity());
        assert(all =~= vstd::set_lib::set_int_range(0, self.capacity() as int));
        vstd::set_lib::lemma_int_range(0, self.capacity() as int);
        assert(free.subset_of(all));
        vstd::set_lib::lemma_len_subset(free, all);
        lemma_bits_of_small_mask(mask);
        if mask == 0 {
            assert(free =~= Set::<int>::empty());
        } else {
            let slot = if slot_bit(mask, 0) {
                0int
            } else if slot_bit(mask, 1) {
                1int
            } else if slot_bit(mask, 2) {
                2int
            } else {
                3int
            };
            assert(slot_bit(mask, slot as u32));
            assert(slot < self.capacity());
            assert(free.contains(slot));
            if free.len() == 0 {
                assert(free =~= Set::<int>::empty());
            }
        }
    }

    /// A slab in which every slot is free and holds the placeholder image.
    pub fn new(fallback_images: &FallbackImage, bindless_supported: bool) -> (slab: LightmapSlab)
        ensures
            slab.wf(),
            slab.capacity() == slots_per_slab(bindless_supported),
            slab.free_slots() =~= Set::new(|slot: int| 0 <= slot < slab.capacity()),
            slab.images() =~= Seq::new(slab.capacity(), |slot: int| fallback_images.d2),
    {
        let count: usize = if bindless_supported {
            LIGHTMAPS_PER_SLAB
        } else {
            1
        };
        let mut lightmaps: Vec<AllocatedLightmap> = Vec::new();
        let mut filled: usize = 0;
        while filled < count
            invariant
                filled <= count,
                lightmaps@.len() == filled,
                forall|slot: int|
                    0 <= slot < filled ==> (#[trigger] lightmaps@[slot]).gpu_image
                        == fallback_images.d2,
            decreases count - filled,
        {
            lightmaps.push(AllocatedLightmap { gpu_image: fallback_images.d2 });
            filled = filled + 1;
        }
        proof {
            lemma_full_masks();
        }
        let shift: u32 = if bindless_supported {
            4
        } else {
            1
        };
        let free_slots_bitmask: u32 = (1u32 << shift) - 1;
        LightmapSlab { lightmaps, free_slots_bitmask }
    }

    /// Whether no slot of this slab is free.
    pub fn is_full(&self) -> (full: bool)
        ensures
            full == (self.free_mask() == 0),
    {
        self.free_slots_bitmask == 0
    }

    /// The bitmask of free slots: bit `i` is one where slot `i` is free.
    pub fn free_slots_bitmask(&self) -> (mask: u32)
        ensures
            mask == self.free_mask(),
    {
        self.free_slots_bitmask
    }

    /// Takes the lowest free slot of this slab, which must have one, and
    /// puts the placeholder image into it: whatever image the slot held
    /// before stays there until this moment.
    pub fn allocate(&mut self, fallback_images: &FallbackImage) -> (index: LightmapSlotIndex)
        requires
            old(self).wf(),
            old(self).free_mask() != 0,
        ensures
            final(self).wf(),
            final(self).capacity() == old(self).capacity(),
            final(self).images() =~= old(self).images().update(index@, fallback_images.d2),
            old(self).free_slots().contains(index@),
            forall|slot: int| old(self).free_slots().contains(slot) ==> index@ <= slot,
            final(self).free_slots() =~= old(self).free_slots().remove(index@),
    {
        let mask = self.free_slots_bitmask;
        let trailing = mask.trailing_zeros();
        proof {
            axiom_u32_trailing_zeros(mask);
            lemma_bits_of_small_mask(mask);
            assert(trailing < 32);
            assert(slot_bit(mask, trailing));
            assert(trailing < self.capacity());
            lemma_clear_bit(mask, trailing);
            assert forall|slot: int| old(self).free_slots().contains(slot) implies trailing
                <= slot by {
                if slot < trailing {
                    assert((mask >> (slot as u32)) & 1 == 0);
                }
            }
        }
        let value: u16 = trailing as u16;
        let index = LightmapSlotIndex::new(value).unwrap();
        self.free_slots_bitmask = mask & !(1u32 << trailing);
        self.lightmaps.set(trailing as usize, AllocatedLightmap { gpu_image: fallback_images.d2 });
        index
    }

    /// Puts an image into a slot of this slab.
    pub fn insert(&mut self, index: LightmapSlotIndex, gpu_image: GpuImage)
        requires
            index@ < old(self).capacity(),
        ensures
            final(self).images() =~= old(self).images().update(index@, gpu_image),
            final(self).free_mask() == old(self).free_mask(),
            final(self).capacity() == old(self).capacity(),
            old(self).wf() ==> final(self).wf(),
    {
        let slot = index.get() as usize;
        self.lightmaps.set(slot, AllocatedLightmap { gpu_image });
    }

    /// Frees a slot of this slab. The image in the slot is left alone: it is
    /// replaced when the slot is next allocated.
    pub fn remove(&mut self, index: LightmapSlotIndex)
        requires
            old(self).wf(),
            index@ < old(self).capacity(),
        ensures
            final(self).wf(),
            final(self).capacity() == old(self).capacity(),
            final(self).images() == old(self).images(),
            final(self).free_slots() =~= old(self).free_slots().insert(index@),
    {
        let slot = index.get();
        let mask = self.free_slots_bitmask;
        proof {
            lemma_set_bit(mask, slot as u32);
        }
        self.free_slots_bitmask = mask | (1u32 << (slot as u32));
    }

    /// Returns the texture views and samplers for the lightmaps in this slab,
    /// ready to be placed into a bind group.
    ///
    /// This is used when constructing bind groups in bindless mode. Slots that
    /// hold no lightmap hold the placeholder image, so both arrays are always
    /// as long as the slab's capacity.
    pub fn build_binding_arrays(&self) -> (arrays: (Vec<TextureView>, Vec<Sampler>))
        ensures
            arrays.0@ =~= self.images().map_values(|image: GpuImage| image.texture_view),
            arrays.1@ =~= self.images().map_values(|image: GpuImage| image.sampler),
    {
        let mut texture_views: Vec<TextureView> = Vec::new();
        let mut samplers: Vec<Sampler> = Vec::new();
        let mut slot: usize = 0;
        while slot < self.lightmaps.len()
            invariant
                slot <= self.lightmaps@.len(),
                texture_views@.len() == slot,
                samplers@.len() == slot,
                forall|done: int|
                    0 <= done < slot ==> (#[trigger] texture_views@[done])
                        == self.lightmaps@[done].gpu_image.texture_view,
                forall|done: int|
                    0 <= done < slot ==> (#[trigger] samplers@[done])
                        == self.lightmaps@[done].gpu_image.sampler,
            decreases self.lightmaps@.len() - slot,
        {
            texture_views.push(self.lightmaps[slot].gpu_image.texture_view);
            samplers.push(self.lightmaps[slot].gpu_image.sampler);
            slot = slot + 1;
        }
        (texture_views, samplers)
    }

    /// Returns the texture view and sampler corresponding to the first
    /// lightmap, which must exist.
    ///
    /// This is used when constructing bind groups in non-bindless mode.
    pub fn bindings_for_first_lightmap(&self) -> (bindings: (TextureView, Sampler))
        requires
            self.capacity() > 0,
        ensures
            bindings.0 == self.images()[0].texture_view,
            bindings.1 == self.images()[0].sampler,
    {
        (self.lightmaps[0].gpu_image.texture_view, self.lightmaps[0].gpu_image.sampler)
    }
}

} // verus!
