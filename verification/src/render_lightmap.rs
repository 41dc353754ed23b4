//! The lightmap of one mesh instance: where it was placed, and which part of
//! its texture the instance samples.

use crate::index::{LightmapSlabIndex, LightmapSlotIndex};
use vstd::prelude::*;

verus! {

/// The identity of an image asset.
#[derive(Clone, Copy, Debug, PartialEq, Eq, Structural, Hash)]
pub enum AssetId {
    /// A runtime identifier: the bits of the asset's index.
    Index { bits: u64 },
    /// An identifier that is stable across runs.
    Uuid { uuid: u128 },
}

/// A pair of 32-bit unsigned integers.
#[derive(Clone, Copy, Debug, PartialEq, Eq, Structural, Hash)]
pub struct UVec2 {
    pub x: u32,
    pub y: u32,
}

/// The rectangle within the lightmap texture that the UVs are relative to,
/// in fixed point: each coordinate counts steps of 1/65535, so that the
/// whole texture is the rectangle from (0, 0) to (65535, 65535).
///
/// The top left coordinate is the `min` part of the rect, and the bottom
/// right coordinate is the `max` part of the rect.
#[derive(Clone, Copy, Debug, PartialEq, Eq, Structural, Hash)]
pub struct UvRect {
    pub min_x: u32,
    pub min_y: u32,
    pub max_x: u32,
    pub max_y: u32,
}

/// Two 16-bit halves joined into one word: `low` or-ed with `high` shifted up
/// by sixteen bits. Bits of `high` that do not fit are lost, and bits of `low`
/// beyond the sixteenth stay where they are.
pub open spec fn join_halves(low: u32, high: u32) -> u32 {
    low | (high << 16u32)
}

/// What `pack_lightmap_uv_rect` returns.
pub open spec fn packed_uv_rect(maybe_rect: Option<UvRect>) -> UVec2 {
    match maybe_rect {
        Some(rect) => UVec2 {
            x: join_halves(rect.min_x, rect.min_y),
            y: join_halves(rect.max_x, rect.max_y),
        },
        None => UVec2 { x: 0, y: 0 },
    }
}

/// Packs the lightmap UV rect into 64 bits (4 16-bit unsigned integers).
pub fn pack_lightmap_uv_rect(maybe_rect: Option<UvRect>) -> (packed: UVec2)
    ensures
        packed == packed_uv_rect(maybe_rect),
{
    match maybe_rect {
        Some(rect) => UVec2 {
            x: rect.min_x | (rect.min_y << 16u32),
            y: rect.max_x | (rect.max_y << 16u32),
        },
        None => UVec2 { x: 0, y: 0 },
    }
}

/// Two halves that fit in sixteen bits can be read back from the word they
/// were joined into.
pub proof fn lemma_join_halves_splits(low: u32, high: u32)
    by (bit_vector)
    requires
        low <= 0xffff,
        high <= 0xffff,
    ensures
        join_halves(low, high) & 0xffff == low,
        join_halves(low, high) >> 16u32 == high,
{
}

/// A lightmap as the scene describes it.
#[derive(Clone, Copy, Debug, PartialEq, Eq, Structural, Hash)]
pub struct Lightmap {
    /// The lightmap texture.
    pub image: AssetId,
    /// The rectangle within the lightmap texture that the UVs are relative to.
    pub uv_rect: UvRect,
    /// Whether bicubic sampling should be used for sampling this lightmap.
    pub bicubic_sampling: bool,
}

/// Lightmap data stored in the render world.
///
/// There is one of these per visible lightmapped mesh instance.
#[derive(Clone, Copy, Debug, PartialEq, Eq, Structural, Hash)]
pub struct RenderLightmap {
    /// The rectangle within the lightmap texture that the UVs are relative to.
    pub uv_rect: UvRect,
    /// The index of the slab (i.e. binding array) in which the lightmap is
    /// located.
    pub slab_index: LightmapSlabIndex,
    /// The index of the slot (i.e. element within the binding array) in which
    /// the lightmap is located.
    ///
    /// If bindless lightmaps aren't in use, this will be 0.
    pub slot_index: LightmapSlotIndex,
    /// Whether or not bicubic sampling should be used for this lightmap.
    pub bicubic_sampling: bool,
}

/// A `RenderLightmap` with its two indices as integers.
pub ghost struct RenderLightmapView {
    pub uv_rect: UvRect,
    pub slab_index: int,
    pub slot_index: int,
    pub bicubic_sampling: bool,
}

impl View for RenderLightmap {
    type V = RenderLightmapView;

    open spec fn view(&self) -> RenderLightmapView {
        RenderLightmapView {
            uv_rect: self.uv_rect,
            slab_index: self.slab_index@,
            slot_index: self.slot_index@,
            bicubic_sampling: self.bicubic_sampling,
        }
    }
}

impl RenderLightmapView {
    /// The slab and the slot of the lightmap.
    pub open spec fn address(self) -> (int, int) {
        (self.slab_index, self.slot_index)
    }
}

impl RenderLightmap {
    /// Creates a new lightmap from a UV rect, and a slab and slot index pair.
    pub fn new(
        uv_rect: UvRect,
        slab_index: LightmapSlabIndex,
        slot_index: LightmapSlotIndex,
        bicubic_sampling: bool,
    ) -> (lightmap: Self)
        ensures
            lightmap == (RenderLightmap { uv_rect, slab_index, slot_index, bicubic_sampling }),
    {
        Self { uv_rect, slab_index, slot_index, bicubic_sampling }
    }
}

/// What is known of one slot of a slab before its image is loaded.
#[derive(Clone, Copy, Debug, PartialEq, Eq, Structural, Hash)]
pub struct AllocatedLightmapUnloaded {
    /// The image that the slot waits for. This is only present if the
    /// lightmap is allocated but not loaded.
    pub asset_id: Option<AssetId>,
}

/// The bookkeeping for one slab that does not depend on the GPU: which image
/// each slot waits for, and which slots are free.
pub struct LightmapSlabUnloaded {
    /// What each slot of the slab waits for.
    pub lightmaps: Vec<AllocatedLightmapUnloaded>,
    pub free_slots_bitmask: u32,
}

impl LightmapSlabUnloaded {
    /// The image that each slot waits for.
    pub open spec fn asset_ids(&self) -> Seq<Option<AssetId>> {
        self.lightmaps@.map_values(|lightmap: AllocatedLightmapUnloaded| lightmap.asset_id)
    }
}

} // verus!
