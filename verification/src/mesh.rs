//! Flags and keys of the mesh pipeline.

use crate::index::LodIndex;
use crate::mesh_bindings::MeshLayouts;
use crate::render_lightmap::AssetId;
use crate::render_resource::{BindGroupLayoutDescriptor, BufferBindingType};
use bevy_mesh::BaseMeshPipelineKey;
use vstd::prelude::*;
use vstd::std_specs::bits::{axiom_u32_trailing_zeros, u32_trailing_zeros};
use wgpu_types::PrimitiveTopology;

verus! {

/// `wgpu_types::PrimitiveTopology`: how the vertices of a mesh form
/// primitives.
#[verifier::external_type_specification]
pub struct ExPrimitiveTopology(PrimitiveTopology);

/// The default of `wgpu_types::PrimitiveTopology` is a list of triangles.
pub assume_specification[ <PrimitiveTopology as core::default::Default>::default ]() -> (topology:
    PrimitiveTopology)
    ensures
        topology == PrimitiveTopology::TriangleList,
;

/// The number that each primitive topology is cast to.
pub open spec fn topology_number(topology: PrimitiveTopology) -> u64 {
    match topology {
        PrimitiveTopology::PointList => 0,
        PrimitiveTopology::LineList => 1,
        PrimitiveTopology::LineStrip => 2,
        PrimitiveTopology::TriangleList => 3,
        PrimitiveTopology::TriangleStrip => 4,
    }
}

/// The cast of a `wgpu_types::PrimitiveTopology` to an integer: the number
/// that the enum gives to the variant.
#[verifier::external_body]
fn topology_to_number(topology: PrimitiveTopology) -> (number: u64)
    ensures
        number == topology_number(topology),
{
    topology as u64
}

/// `BaseMeshPipelineKey::PRIMITIVE_TOPOLOGY_MASK_BITS`: the topology takes
/// three bits of a key.
#[verifier::external_body]
fn primitive_topology_mask_bits() -> (mask: u64)
    ensures
        mask == PRIMITIVE_TOPOLOGY_MASK_BITS,
{
    BaseMeshPipelineKey::PRIMITIVE_TOPOLOGY_MASK_BITS
}

/// `BaseMeshPipelineKey::PRIMITIVE_TOPOLOGY_SHIFT_BITS`: the topology's
/// three bits stand just below the topmost bit of a key.
#[verifier::external_body]
fn primitive_topology_shift_bits() -> (shift: u64)
    ensures
        shift == PRIMITIVE_TOPOLOGY_SHIFT_BITS,
{
    BaseMeshPipelineKey::PRIMITIVE_TOPOLOGY_SHIFT_BITS
}

/// `BaseMeshPipelineKey::MORPH_TARGETS`: the topmost bit of a key.
#[verifier::external_body]
fn morph_targets_bits() -> (bits: u64)
    ensures
        bits == MORPH_TARGETS_BITS,
{
    BaseMeshPipelineKey::MORPH_TARGETS.bits()
}

/// The mask of the primitive topology, before it is shifted into place.
pub const PRIMITIVE_TOPOLOGY_MASK_BITS: u64 = 0b111;

/// The position of the lowest bit of the primitive topology.
pub const PRIMITIVE_TOPOLOGY_SHIFT_BITS: u64 = 60;

/// The bit that says that a mesh has morph targets.
pub const MORPH_TARGETS_BITS: u64 = 0x8000_0000_0000_0000;

/// The bits of a key that belong to the mesh itself rather than to the way
/// it is shaded: the topmost six.
pub const BASE_KEY_BITS: u64 = 0xfc00_0000_0000_0000;

/// A transform in three dimensions, as the bit patterns of the twelve
/// numbers of its matrix.
#[derive(Clone, Copy, Debug, PartialEq, Eq, Hash)]
pub struct Affine3 {
    pub matrix: [u32; 12],
}

/// The transforms of a mesh instance, with its flags.
#[derive(Clone, Copy, Debug, PartialEq, Eq, Hash)]
pub struct MeshTransforms {
    pub world_from_local: Affine3,
    pub previous_world_from_local: Affine3,
    pub flags: u32,
}

/// Various flags and tightly-packed values on a mesh.
///
/// Flags grow from the top bit down; other values grow from the bottom bit
/// up.
#[derive(Clone, Copy, Debug, PartialEq, Eq, Structural, Hash)]
pub struct MeshFlags {
    pub bits: u32,
}

/// What `MeshFlags::from_components` returns.
pub open spec fn mesh_flags_of(
    sign_determinant_positive: bool,
    lod_index: Option<LodIndex>,
    no_frustum_culling: bool,
    not_shadow_receiver: bool,
    transmitted_receiver: bool,
) -> u32 {
    (if not_shadow_receiver {
        0u32
    } else {
        MeshFlags::SHADOW_RECEIVER
    }) | (if no_frustum_culling {
        MeshFlags::NO_FRUSTUM_CULLING
    } else {
        0u32
    }) | (if transmitted_receiver {
        MeshFlags::TRANSMITTED_SHADOW_RECEIVER
    } else {
        0u32
    }) | (if sign_determinant_positive {
        MeshFlags::SIGN_DETERMINANT_MODEL_3X3
    } else {
        0u32
    }) | (match lod_index {
        None => 0xffffu32,
        Some(lod_index) => lod_index@ as u32,
    })
}

impl MeshFlags {
    /// Bitmask for the 16-bit index into the LOD array.
    ///
    /// This will be `u16::MAX` if this mesh has no LOD.
    pub const LOD_INDEX_MASK: u32 = 0xffff;

    /// Disables frustum culling for this mesh.
    pub const NO_FRUSTUM_CULLING: u32 = 0x1000_0000;

    pub const SHADOW_RECEIVER: u32 = 0x2000_0000;

    pub const TRANSMITTED_SHADOW_RECEIVER: u32 = 0x4000_0000;

    /// Indicates the sign of the determinant of the 3x3 model matrix. If the
    /// sign is positive, then the flag should be set, else it should not be
    /// set.
    pub const SIGN_DETERMINANT_MODEL_3X3: u32 = 0x8000_0000;

    pub const NONE: u32 = 0;

    pub const UNINITIALIZED: u32 = 0xFFFF_FFFF;

    /// The first bit of the LOD index.
    pub const LOD_INDEX_SHIFT: u32 = 0;

    /// The flags with exactly the given bits.
    pub fn from_bits_retain(bits: u32) -> (flags: MeshFlags)
        ensures
            flags.bits == bits,
    {
        MeshFlags { bits }
    }

    /// The bits of the flags.
    pub fn bits(&self) -> (bits: u32)
        ensures
            bits == self.bits,
    {
        self.bits
    }

    /// No flag and a LOD index of zero.
    pub fn empty() -> (flags: MeshFlags)
        ensures
            flags.bits == 0,
    {
        MeshFlags { bits: 0 }
    }

    /// Whether every bit of `bits` is set in these flags.
    pub fn contains(&self, bits: u32) -> (contained: bool)
        ensures
            contained == (self.bits & bits == bits),
    {
        self.bits & bits == bits
    }

    /// The flags of a mesh instance.
    ///
    /// `sign_determinant_positive` says whether the determinant of the 3x3
    /// part of the instance's transform has a positive sign.
    pub fn from_components(
        sign_determinant_positive: bool,
        lod_index: Option<LodIndex>,
        no_frustum_culling: bool,
        not_shadow_receiver: bool,
        transmitted_receiver: bool,
    ) -> (flags: MeshFlags)
        ensures
            flags.bits == mesh_flags_of(
                sign_determinant_positive,
                lod_index,
                no_frustum_culling,
                not_shadow_receiver,
                transmitted_receiver,
            ),
    {
        let mut mesh_flags: u32 = if not_shadow_receiver {
            0
        } else {
            MeshFlags::SHADOW_RECEIVER
        };
        let ghost receiver = mesh_flags;
        if no_frustum_culling {
            mesh_flags = mesh_flags | MeshFlags::NO_FRUSTUM_CULLING;
        }
        let ghost culling = mesh_flags;
        if transmitted_receiver {
            mesh_flags = mesh_flags | MeshFlags::TRANSMITTED_SHADOW_RECEIVER;
        }
        let ghost transmitted = mesh_flags;
        if sign_determinant_positive {
            mesh_flags = mesh_flags | MeshFlags::SIGN_DETERMINANT_MODEL_3X3;
        }
        let ghost sign = mesh_flags;
        let lod_index_bits: u16 = match lod_index {
            None => u16::MAX,
            Some(lod_index) => lod_index.get(),
        };
        let shifted: u32 = (lod_index_bits as u32) << MeshFlags::LOD_INDEX_SHIFT;
        mesh_flags = mesh_flags | shifted;
        proof {
            assert(receiver | 0u32 == receiver) by (bit_vector);
            assert(culling | 0u32 == culling) by (bit_vector);
            assert(transmitted | 0u32 == transmitted) by (bit_vector);
            assert(shifted == lod_index_bits as u32) by (bit_vector)
                requires
                    shifted == (lod_index_bits as u32) << 0u32,
            ;
        }
        MeshFlags { bits: mesh_flags }
    }

    /// The LOD index that these flags hold, or `None` for a mesh without
    /// LOD.
    pub fn lod_index(&self) -> (lod_index: Option<LodIndex>)
        ensures
            match lod_index {
                Some(lod_index) => lod_index@ == self.bits & MeshFlags::LOD_INDEX_MASK,
                None => self.bits & MeshFlags::LOD_INDEX_MASK == 0xffff,
            },
    {
        let low: u32 = self.bits & MeshFlags::LOD_INDEX_MASK;
        proof {
            let bits = self.bits;
            assert(bits & 0xffffu32 <= 0xffffu32) by (bit_vector);
        }
        LodIndex::new(low as u16)
    }
}

/// The flags of a mesh instance can be read back from what
/// `from_components` has packed: each flag from its own bit, and the LOD
/// index from the low sixteen bits.
pub proof fn lemma_mesh_flags_unpack(
    sign_determinant_positive: bool,
    lod_index: Option<LodIndex>,
    no_frustum_culling: bool,
    not_shadow_receiver: bool,
    transmitted_receiver: bool,
)
    ensures
        ({
            let bits = mesh_flags_of(
                sign_determinant_positive,
                lod_index,
                no_frustum_culling,
                not_shadow_receiver,
                transmitted_receiver,
            );
            &&& (bits & MeshFlags::SHADOW_RECEIVER != 0) == !not_shadow_receiver
            &&& (bits & MeshFlags::NO_FRUSTUM_CULLING != 0) == no_frustum_culling
            &&& (bits & MeshFlags::TRANSMITTED_SHADOW_RECEIVER != 0) == transmitted_receiver
            &&& (bits & MeshFlags::SIGN_DETERMINANT_MODEL_3X3 != 0) == sign_determinant_positive
            &&& bits & MeshFlags::LOD_INDEX_MASK == match lod_index {
                None => 0xffffu32,
                Some(lod_index) => lod_index@ as u32,
            }
        }),
{
    let receiver: u32 = if not_shadow_receiver {
        0
    } else {
        0x2000_0000
    };
    let culling: u32 = if no_frustum_culling {
        0x1000_0000
    } else {
        0
    };
    let transmitted: u32 = if transmitted_receiver {
        0x4000_0000
    } else {
        0
    };
    let sign: u32 = if sign_determinant_positive {
        0x8000_0000
    } else {
        0
    };
    let lod: u32 = match lod_index {
        None => 0xffffu32,
        Some(lod_index) => {
            lod_index.lemma_in_range();
            lod_index@ as u32
        },
    };
    let bits = receiver | culling | transmitted | sign | lod;
    assert({
        &&& (bits & 0x2000_0000u32 != 0) == (receiver != 0)
        &&& (bits & 0x1000_0000u32 != 0) == (culling != 0)
        &&& (bits & 0x4000_0000u32 != 0) == (transmitted != 0)
        &&& (bits & 0x8000_0000u32 != 0) == (sign != 0)
        &&& bits & 0xffffu32 == lod
    }) by (bit_vector)
        requires
            bits == receiver | culling | transmitted | sign | lod,
            receiver == 0 || receiver == 0x2000_0000u32,
            culling == 0 || culling == 0x1000_0000u32,
            transmitted == 0 || transmitted == 0x4000_0000u32,
            sign == 0 || sign == 0x8000_0000u32,
            lod <= 0xffffu32,
    ;
}

/// Various useful flags for render mesh instances.
#[derive(Clone, Copy, Debug, PartialEq, Eq, Structural, Hash)]
pub struct RenderMeshInstanceFlags {
    pub bits: u8,
}

impl RenderMeshInstanceFlags {
    /// The mesh casts shadows.
    pub const SHADOW_CASTER: u8 = 1;

    /// The mesh can participate in automatic batching.
    pub const AUTOMATIC_BATCHING: u8 = 2;

    /// The mesh had a transform last frame and so is eligible for motion
    /// vector computation.
    pub const HAS_PREVIOUS_TRANSFORM: u8 = 4;

    /// The mesh had a skin last frame and so that skin should be taken into
    /// account for motion vector computation.
    pub const HAS_PREVIOUS_SKIN: u8 = 8;

    /// The mesh had morph targets last frame and so they should be taken
    /// into account for motion vector computation.
    pub const HAS_PREVIOUS_MORPH: u8 = 16;

    /// Whether every bit of `bits` is set in these flags.
    pub fn contains(&self, bits: u8) -> (contained: bool)
        ensures
            contained == (self.bits & bits == bits),
    {
        self.bits & bits == bits
    }
}

/// The bind group layout of one kind of view.
#[derive(Debug)]
pub struct MeshPipelineViewLayout {
    pub main_layout: BindGroupLayoutDescriptor,
    pub binding_array_layout: BindGroupLayoutDescriptor,
    pub empty_layout: BindGroupLayoutDescriptor,
}

/// What tells the kinds of views apart, as a set of bits.
#[derive(Clone, Copy, Debug, PartialEq, Eq, Structural, Hash)]
pub struct MeshPipelineViewLayoutKey {
    pub bits: u32,
}

/// All data needed to construct a pipeline for rendering 3D meshes.
#[derive(Debug)]
pub struct MeshPipeline {
    /// All the mesh pipeline view layouts, each at the position that the
    /// bits of its key give.
    pub view_layouts: Vec<MeshPipelineViewLayout>,
    /// This dummy white texture is to be used in place of optional
    /// material textures.
    pub dummy_white_gpu_image: AssetId,
    pub clustered_forward_buffer_binding_type: BufferBindingType,
    pub mesh_layouts: MeshLayouts,
    /// The shader asset handle.
    pub shader: AssetId,
    /// Mesh uniforms are stored in arrays in buffers. If storage buffers are
    /// available, they are used and this will be `None`, otherwise uniform
    /// buffers will be used with batches of this many uniforms, stored at
    /// dynamic offsets within the uniform buffer.
    pub per_object_buffer_batch_size: Option<u32>,
    /// Whether binding arrays (a.k.a. bindless textures) are usable on the
    /// current render device.
    pub binding_arrays_are_usable: bool,
    /// Whether clustered decals are usable on the current render device.
    pub clustered_decals_are_usable: bool,
    /// Whether skins will use uniform buffers on account of storage buffers
    /// being unavailable on this platform.
    pub skins_use_uniform_buffers: bool,
}

impl MeshPipeline {
    /// The layout for the kind of view that `layout_key` stands for, which
    /// must be one that the pipeline knows.
    pub fn get_view_layout(&self, layout_key: MeshPipelineViewLayoutKey) -> (layout:
        &MeshPipelineViewLayout)
        requires
            layout_key.bits < self.view_layouts@.len(),
        ensures
            *layout == self.view_layouts@[layout_key.bits as int],
    {
        &self.view_layouts[layout_key.bits as usize]
    }
}

/// The key of a mesh pipeline, as a set of bits. Flags take the low bits;
/// above them stand small numbers, each in bits of its own: the base two
/// logarithm of the MSAA sample count, the blend state, the tonemapping
/// method, the shadow filter method, the view projection and the quality of
/// screen space specular transmission. The topmost bits belong to the mesh:
/// its primitive topology and whether it has morph targets.
#[derive(Clone, Copy, Debug, PartialEq, Eq, Structural, Hash)]
pub struct MeshPipelineKey {
    pub bits: u64,
}

impl MeshPipelineKey {
    // Nothing
    pub const NONE: u64 = 0;

    // Inherited bits
    pub const MORPH_TARGETS: u64 = MORPH_TARGETS_BITS;

    // Flag bits
    pub const HDR: u64 = 0x1;

    pub const TONEMAP_IN_SHADER: u64 = 0x2;

    pub const DEBAND_DITHER: u64 = 0x4;

    pub const DEPTH_PREPASS: u64 = 0x8;

    pub const NORMAL_PREPASS: u64 = 0x10;

    pub const DEFERRED_PREPASS: u64 = 0x20;

    pub const MOTION_VECTOR_PREPASS: u64 = 0x40;

    /// Guards shader codepaths that may discard, allowing early depth tests
    /// in most cases.
    pub const MAY_DISCARD: u64 = 0x80;

    pub const ENVIRONMENT_MAP: u64 = 0x100;

    pub const SCREEN_SPACE_AMBIENT_OCCLUSION: u64 = 0x200;

    /// Disables depth clipping for use with directional light shadow views.
    pub const UNCLIPPED_DEPTH_ORTHO: u64 = 0x400;

    pub const TEMPORAL_JITTER: u64 = 0x800;

    pub const READS_VIEW_TRANSMISSION_TEXTURE: u64 = 0x1000;

    pub const LIGHTMAPPED: u64 = 0x2000;

    pub const LIGHTMAP_BICUBIC_SAMPLING: u64 = 0x4000;

    pub const IRRADIANCE_VOLUME: u64 = 0x8000;

    pub const VISIBILITY_RANGE_DITHER: u64 = 0x1_0000;

    pub const SCREEN_SPACE_REFLECTIONS: u64 = 0x2_0000;

    pub const HAS_PREVIOUS_SKIN: u64 = 0x4_0000;

    pub const HAS_PREVIOUS_MORPH: u64 = 0x8_0000;

    pub const OIT_ENABLED: u64 = 0x10_0000;

    pub const DISTANCE_FOG: u64 = 0x20_0000;

    pub const LAST_FLAG: u64 = 0x20_0000;

    // Bitfields
    pub const MSAA_MASK_BITS: u64 = 0b111;

    pub const MSAA_SHIFT_BITS: u64 = 22;

    pub const BLEND_MASK_BITS: u64 = 0b111;

    pub const BLEND_SHIFT_BITS: u64 = 25;

    pub const TONEMAP_METHOD_MASK_BITS: u64 = 0b111;

    pub const TONEMAP_METHOD_SHIFT_BITS: u64 = 28;

    pub const SHADOW_FILTER_METHOD_MASK_BITS: u64 = 0b11;

    pub const SHADOW_FILTER_METHOD_SHIFT_BITS: u64 = 31;

    pub const VIEW_PROJECTION_MASK_BITS: u64 = 0b11;

    pub const VIEW_PROJECTION_SHIFT_BITS: u64 = 33;

    pub const SCREEN_SPACE_SPECULAR_TRANSMISSION_MASK_BITS: u64 = 0b11;

    pub const SCREEN_SPACE_SPECULAR_TRANSMISSION_SHIFT_BITS: u64 = 35;

    pub const MSAA_RESERVED_BITS: u64 = 0x1c0_0000;

    /// Bitmask reserving bits for the blend state.
    pub const BLEND_RESERVED_BITS: u64 = 0xe00_0000;

    // Values are just sequential within the mask.
    pub const BLEND_OPAQUE: u64 = 0;

    pub const BLEND_PREMULTIPLIED_ALPHA: u64 = 0x200_0000;

    pub const BLEND_MULTIPLY: u64 = 0x400_0000;

    pub const BLEND_ALPHA: u64 = 0x600_0000;

    pub const BLEND_ALPHA_TO_COVERAGE: u64 = 0x800_0000;

    pub const TONEMAP_METHOD_RESERVED_BITS: u64 = 0x7000_0000;

    pub const TONEMAP_METHOD_NONE: u64 = 0;

    pub const TONEMAP_METHOD_REINHARD: u64 = 0x1000_0000;

    pub const TONEMAP_METHOD_REINHARD_LUMINANCE: u64 = 0x2000_0000;

    pub const TONEMAP_METHOD_ACES_FITTED: u64 = 0x3000_0000;

    pub const TONEMAP_METHOD_AGX: u64 = 0x4000_0000;

    pub const TONEMAP_METHOD_SOMEWHAT_BORING_DISPLAY_TRANSFORM: u64 = 0x5000_0000;

    pub const TONEMAP_METHOD_TONY_MC_MAPFACE: u64 = 0x6000_0000;

    pub const TONEMAP_METHOD_BLENDER_FILMIC: u64 = 0x7000_0000;

    pub const SHADOW_FILTER_METHOD_RESERVED_BITS: u64 = 0x1_8000_0000;

    pub const SHADOW_FILTER_METHOD_HARDWARE_2X2: u64 = 0;

    pub const SHADOW_FILTER_METHOD_GAUSSIAN: u64 = 0x8000_0000;

    pub const SHADOW_FILTER_METHOD_TEMPORAL: u64 = 0x1_0000_0000;

    pub const VIEW_PROJECTION_RESERVED_BITS: u64 = 0x6_0000_0000;

    pub const VIEW_PROJECTION_NONSTANDARD: u64 = 0;

    pub const VIEW_PROJECTION_PERSPECTIVE: u64 = 0x2_0000_0000;

    pub const VIEW_PROJECTION_ORTHOGRAPHIC: u64 = 0x4_0000_0000;

    pub const VIEW_PROJECTION_RESERVED: u64 = 0x6_0000_0000;

    pub const SCREEN_SPACE_SPECULAR_TRANSMISSION_RESERVED_BITS: u64 = 0x18_0000_0000;

    pub const SCREEN_SPACE_SPECULAR_TRANSMISSION_LOW: u64 = 0;

    pub const SCREEN_SPACE_SPECULAR_TRANSMISSION_MEDIUM: u64 = 0x8_0000_0000;

    pub const SCREEN_SPACE_SPECULAR_TRANSMISSION_HIGH: u64 = 0x10_0000_0000;

    pub const SCREEN_SPACE_SPECULAR_TRANSMISSION_ULTRA: u64 = 0x18_0000_0000;

    pub const ALL_RESERVED_BITS: u64 = 0x1f_ffc0_0000;

    /// The key with exactly the given bits.
    pub fn from_bits_retain(bits: u64) -> (key: MeshPipelineKey)
        ensures
            key.bits == bits,
    {
        MeshPipelineKey { bits }
    }

    /// The bits of the key.
    pub fn bits(&self) -> (bits: u64)
        ensures
            bits == self.bits,
    {
        self.bits
    }

    /// The key that says that a mesh has morph targets, and nothing else.
    pub fn morph_targets() -> (key: MeshPipelineKey)
        ensures
            key.bits == MeshPipelineKey::MORPH_TARGETS,
    {
        MeshPipelineKey { bits: morph_targets_bits() }
    }

    /// The key that holds an MSAA sample count, which is a power of two, as
    /// its base two logarithm, and nothing else. Only three bits are kept
    /// of the logarithm.
    pub fn from_msaa_samples(msaa_samples: u32) -> (key: MeshPipelineKey)
        ensures
            key.bits == msaa_bits_of(msaa_samples),
    {
        let msaa_bits = ((msaa_samples.trailing_zeros() as u64) & Self::MSAA_MASK_BITS)
            << Self::MSAA_SHIFT_BITS;
        Self::from_bits_retain(msaa_bits)
    }

    /// The key that says whether the view is rendered with a high dynamic
    /// range, and nothing else.
    pub fn from_hdr(hdr: bool) -> (key: MeshPipelineKey)
        ensures
            key.bits == if hdr {
                MeshPipelineKey::HDR
            } else {
                MeshPipelineKey::NONE
            },
    {
        if hdr {
            MeshPipelineKey { bits: MeshPipelineKey::HDR }
        } else {
            MeshPipelineKey { bits: MeshPipelineKey::NONE }
        }
    }

    /// The MSAA sample count that the key holds.
    pub fn msaa_samples(&self) -> (samples: u32)
        ensures
            samples == msaa_samples_of(self.bits),
    {
        let logarithm = (self.bits >> Self::MSAA_SHIFT_BITS) & Self::MSAA_MASK_BITS;
        proof {
            let bits = self.bits;
            assert((bits >> 22u64) & 7u64 <= 7) by (bit_vector);
        }
        1u32 << (logarithm as u32)
    }

    /// The key that holds a primitive topology, and nothing else.
    pub fn from_primitive_topology(primitive_topology: PrimitiveTopology) -> (key:
        MeshPipelineKey)
        ensures
            key.bits == topology_bits_of(primitive_topology),
    {
        let primitive_topology_bits = (topology_to_number(primitive_topology)
            & primitive_topology_mask_bits()) << primitive_topology_shift_bits();
        Self::from_bits_retain(primitive_topology_bits)
    }

    /// The primitive topology that the key holds: the one whose number
    /// stands in the topology's bits, or a list of triangles where no
    /// topology has that number.
    pub fn primitive_topology(&self) -> (topology: PrimitiveTopology)
        ensures
            topology == topology_of(self.bits),
    {
        let primitive_topology_bits = (self.bits >> primitive_topology_shift_bits())
            & primitive_topology_mask_bits();
        if primitive_topology_bits == topology_to_number(PrimitiveTopology::PointList) {
            PrimitiveTopology::PointList
        } else if primitive_topology_bits == topology_to_number(PrimitiveTopology::LineList) {
            PrimitiveTopology::LineList
        } else if primitive_topology_bits == topology_to_number(PrimitiveTopology::LineStrip) {
            PrimitiveTopology::LineStrip
        } else if primitive_topology_bits == topology_to_number(PrimitiveTopology::TriangleList) {
            PrimitiveTopology::TriangleList
        } else if primitive_topology_bits == topology_to_number(PrimitiveTopology::TriangleStrip) {
            PrimitiveTopology::TriangleStrip
        } else {
            PrimitiveTopology::default()
        }
    }
}

/// The bits of the key that holds an MSAA sample count.
pub open spec fn msaa_bits_of(msaa_samples: u32) -> u64 {
    ((u32_trailing_zeros(msaa_samples) as u64) & MeshPipelineKey::MSAA_MASK_BITS)
        << MeshPipelineKey::MSAA_SHIFT_BITS
}

/// The MSAA sample count that the bits of a key hold.
pub open spec fn msaa_samples_of(bits: u64) -> u32 {
    1u32 << (((bits >> MeshPipelineKey::MSAA_SHIFT_BITS) & MeshPipelineKey::MSAA_MASK_BITS) as u32)
}

/// The bits of the key that holds a primitive topology.
pub open spec fn topology_bits_of(topology: PrimitiveTopology) -> u64 {
    (topology_number(topology) & PRIMITIVE_TOPOLOGY_MASK_BITS) << PRIMITIVE_TOPOLOGY_SHIFT_BITS
}

/// The primitive topology that the bits of a key hold.
pub open spec fn topology_of(bits: u64) -> PrimitiveTopology {
    let number = (bits >> PRIMITIVE_TOPOLOGY_SHIFT_BITS) & PRIMITIVE_TOPOLOGY_MASK_BITS;
    if number == 0 {
        PrimitiveTopology::PointList
    } else if number == 1 {
        PrimitiveTopology::LineList
    } else if number == 2 {
        PrimitiveTopology::LineStrip
    } else if number == 4 {
        PrimitiveTopology::TriangleStrip
    } else {
        PrimitiveTopology::TriangleList
    }
}

/// A sample count that is a power of two, up to 128, can be read back from
/// the key that holds it.
pub proof fn lemma_msaa_samples_round_trip(msaa_samples: u32)
    requires
        msaa_samples == 1 || msaa_samples == 2 || msaa_samples == 4 || msaa_samples == 8
            || msaa_samples == 16 || msaa_samples == 32 || msaa_samples == 64 || msaa_samples
            == 128,
    ensures
        msaa_samples_of(msaa_bits_of(msaa_samples)) == msaa_samples,
{
    axiom_u32_trailing_zeros(msaa_samples);
    let zeros = u32_trailing_zeros(msaa_samples);
    assert(zeros < 8 && 1u32 << zeros == msaa_samples) by (bit_vector)
        requires
            msaa_samples == 1 || msaa_samples == 2 || msaa_samples == 4 || msaa_samples == 8
                || msaa_samples == 16 || msaa_samples == 32 || msaa_samples == 64
                || msaa_samples == 128,
            zeros <= 32,
            zeros < 32 ==> (msaa_samples >> zeros) & 1u32 == 1u32,
            zeros == 32 <==> msaa_samples == 0,
    ;
    let wide = zeros as u64;
    assert((((wide & 7u64) << 22u64) >> 22u64) & 7u64 == wide) by (bit_vector)
        requires
            wide < 8,
    ;
}

/// A primitive topology can be read back from the key that holds it.
pub proof fn lemma_topology_round_trip(topology: PrimitiveTopology)
    ensures
        topology_of(topology_bits_of(topology)) == topology,
{
    let number = topology_number(topology);
    assert((((number & 7u64) << 60u64) >> 60u64) & 7u64 == number) by (bit_vector)
        requires
            number < 5,
    ;
}

/// The flags, the bitfields above them and the bits that belong to the mesh
/// share no bit: every key has room for all of them.
pub proof fn lemma_key_bits_do_not_overlap()
    ensures
        (((MeshPipelineKey::LAST_FLAG << 1) - 1) as u64 | MeshPipelineKey::ALL_RESERVED_BITS)
            & BASE_KEY_BITS == 0,
        (PRIMITIVE_TOPOLOGY_MASK_BITS << PRIMITIVE_TOPOLOGY_SHIFT_BITS)
            & MeshPipelineKey::ALL_RESERVED_BITS == 0,
        (PRIMITIVE_TOPOLOGY_MASK_BITS << PRIMITIVE_TOPOLOGY_SHIFT_BITS) | MORPH_TARGETS_BITS
            | BASE_KEY_BITS == BASE_KEY_BITS,
        MeshPipelineKey::ALL_RESERVED_BITS == MeshPipelineKey::BLEND_RESERVED_BITS
            | MeshPipelineKey::MSAA_RESERVED_BITS | MeshPipelineKey::TONEMAP_METHOD_RESERVED_BITS
            | MeshPipelineKey::SHADOW_FILTER_METHOD_RESERVED_BITS
            | MeshPipelineKey::VIEW_PROJECTION_RESERVED_BITS
            | MeshPipelineKey::SCREEN_SPACE_SPECULAR_TRANSMISSION_RESERVED_BITS,
        MeshPipelineKey::MSAA_RESERVED_BITS == MeshPipelineKey::MSAA_MASK_BITS
            << MeshPipelineKey::MSAA_SHIFT_BITS,
        MeshPipelineKey::BLEND_RESERVED_BITS == MeshPipelineKey::BLEND_MASK_BITS
            << MeshPipelineKey::BLEND_SHIFT_BITS,
        MeshPipelineKey::TONEMAP_METHOD_RESERVED_BITS == MeshPipelineKey::TONEMAP_METHOD_MASK_BITS
            << MeshPipelineKey::TONEMAP_METHOD_SHIFT_BITS,
        MeshPipelineKey::SHADOW_FILTER_METHOD_RESERVED_BITS
            == MeshPipelineKey::SHADOW_FILTER_METHOD_MASK_BITS
            << MeshPipelineKey::SHADOW_FILTER_METHOD_SHIFT_BITS,
        MeshPipelineKey::VIEW_PROJECTION_RESERVED_BITS
            == MeshPipelineKey::VIEW_PROJECTION_MASK_BITS
            << MeshPipelineKey::VIEW_PROJECTION_SHIFT_BITS,
        MeshPipelineKey::SCREEN_SPACE_SPECULAR_TRANSMISSION_RESERVED_BITS
            == MeshPipelineKey::SCREEN_SPACE_SPECULAR_TRANSMISSION_MASK_BITS
            << MeshPipelineKey::SCREEN_SPACE_SPECULAR_TRANSMISSION_SHIFT_BITS,
{
    assert((((0x20_0000u64 << 1u64) - 1) as u64 | 0x1f_ffc0_0000u64) & 0xfc00_0000_0000_0000u64
        == 0) by (bit_vector);
    assert((7u64 << 60u64) & 0x1f_ffc0_0000u64 == 0) by (bit_vector);
    assert((7u64 << 60u64) | 0x8000_0000_0000_0000u64 | 0xfc00_0000_0000_0000u64
        == 0xfc00_0000_0000_0000u64) by (bit_vector);
    assert(0x1f_ffc0_0000u64 == 0xe00_0000u64 | 0x1c0_0000u64 | 0x7000_0000u64
        | 0x1_8000_0000u64 | 0x6_0000_0000u64 | 0x18_0000_0000u64) by (bit_vector);
    assert(0x1c0_0000u64 == 7u64 << 22u64) by (bit_vector);
    assert(0xe00_0000u64 == 7u64 << 25u64) by (bit_vector);
    assert(0x7000_0000u64 == 7u64 << 28u64) by (bit_vector);
    assert(0x1_8000_0000u64 == 3u64 << 31u64) by (bit_vector);
    assert(0x6_0000_0000u64 == 3u64 << 33u64) by (bit_vector);
    assert(0x18_0000_0000u64 == 3u64 << 35u64) by (bit_vector);
}

} // verus!
