//! What the batching of mesh draws needs of each mesh instance: the record
//! that the GPU reads for it, and the key that says which instances can
//! share a draw.

use crate::binned_phase::{CompareData, MaterialBindGroupIndex};
use crate::dense_map::DenseMap;
use crate::index::{InstanceIndex, LightmapSlotIndex};
use crate::lightmaps::RenderLightmapsU;
use crate::mesh::{Affine3, MeshPipeline, MeshTransforms, RenderMeshInstanceFlags};
use crate::render_lightmap::{
    join_halves, pack_lightmap_uv_rect, packed_uv_rect, AssetId, RenderLightmap, UVec2, UvRect,
};
use vstd::prelude::*;

verus! {

/// The slot of a material within its bind group.
#[derive(Clone, Copy, Debug, PartialEq, Eq, Structural, Hash)]
pub struct MaterialBindGroupSlot {
    pub slot: u32,
}

/// Where the data of a material is bound: in which bind group, and in which
/// slot of it.
#[derive(Clone, Copy, Debug, PartialEq, Eq, Structural, Hash)]
pub struct MaterialBindingId {
    pub group: MaterialBindGroupIndex,
    pub slot: MaterialBindGroupSlot,
}

/// The transpose of the inverse of the 3x3 part of a transform, as the bit
/// patterns of its nine numbers: eight of them in two vectors of four, and
/// the ninth by itself.
#[derive(Clone, Copy, Debug, PartialEq, Eq, Hash)]
pub struct InverseTranspose3 {
    pub a: [u32; 8],
    pub b: u32,
}

/// What a mesh instance holds whether its uniform is built on the CPU or on
/// the GPU.
#[derive(Clone, Copy, Debug, PartialEq, Eq, Structural, Hash)]
pub struct RenderMeshInstanceShared {
    /// The mesh of the instance.
    pub mesh_asset_id: AssetId,
    /// Where the material of the instance is bound.
    pub material_bindings_index: MaterialBindingId,
    /// Flags of the instance, among them whether it may be batched.
    pub flags: RenderMeshInstanceFlags,
    /// A number that the user attached to the instance.
    pub tag: u32,
}

impl RenderMeshInstanceShared {
    /// Whether the instance can share a draw with others.
    pub open spec fn spec_should_batch(&self) -> bool {
        self.flags.bits & RenderMeshInstanceFlags::AUTOMATIC_BATCHING
            == RenderMeshInstanceFlags::AUTOMATIC_BATCHING
    }

    /// Whether the instance can share a draw with others: it can unless it
    /// has opted out of automatic batching.
    #[verifier::when_used_as_spec(spec_should_batch)]
    pub fn should_batch(&self) -> (batch: bool)
        ensures
            batch == self.spec_should_batch(),
    {
        self.flags.contains(RenderMeshInstanceFlags::AUTOMATIC_BATCHING)
    }
}

/// A mesh instance whose uniform is built on the CPU.
#[derive(Clone, Copy, Debug, PartialEq, Eq, Hash)]
pub struct RenderMeshInstanceCpu {
    pub shared: RenderMeshInstanceShared,
    /// The transforms of the instance.
    pub transforms: MeshTransforms,
    /// The transpose of the inverse of the instance's transform.
    pub local_from_world_transpose: InverseTranspose3,
}

/// A mesh instance whose uniform is built on the GPU.
#[derive(Clone, Copy, Debug, PartialEq, Eq, Structural, Hash)]
pub struct RenderMeshInstanceGpu {
    pub shared: RenderMeshInstanceShared,
    /// The index of the instance's uniform in the buffer that the GPU
    /// fills.
    pub current_uniform_index: InstanceIndex,
}

/// The mesh instances of the render world, by entity, in one of the two
/// modes of building their uniforms.
pub enum RenderMeshInstances {
    /// The uniforms are built here, by the CPU.
    CpuBuilding(DenseMap<RenderMeshInstanceCpu>),
    /// The uniforms are built by a compute pass on the GPU.
    GpuBuilding(DenseMap<RenderMeshInstanceGpu>),
}

impl RenderMeshInstances {
    /// The table of instances is consistent.
    pub open spec fn wf(&self) -> bool {
        match self {
            RenderMeshInstances::CpuBuilding(instances) => instances.wf(),
            RenderMeshInstances::GpuBuilding(instances) => instances.wf(),
        }
    }
}

/// The part of a vertex buffer that holds the vertices of one mesh.
#[derive(Clone, Copy, Debug, PartialEq, Eq, Structural, Hash)]
pub struct MeshBufferSlice {
    /// The index of the first vertex of the mesh.
    pub start: u32,
    /// The index after the last vertex of the mesh.
    pub end: u32,
}

/// Where the vertices of each mesh lie.
pub struct MeshAllocator {
    /// The slice of each mesh that has one.
    pub vertex_slices: Vec<(AssetId, MeshBufferSlice)>,
}

/// The slice that stands first in `slices` under the mesh `mesh`.
pub open spec fn find_slice(slices: Seq<(AssetId, MeshBufferSlice)>, mesh: AssetId) -> Option<
    MeshBufferSlice,
>
    decreases slices.len(),
{
    if slices.len() == 0 {
        None
    } else if slices[0].0 == mesh {
        Some(slices[0].1)
    } else {
        find_slice(slices.drop_first(), mesh)
    }
}

impl MeshAllocator {
    /// The slice of the vertex buffer that holds the vertices of `mesh`.
    pub fn mesh_vertex_slice(&self, mesh: &AssetId) -> (slice: Option<MeshBufferSlice>)
        ensures
            slice == find_slice(self.vertex_slices@, *mesh),
    {
        let mut position: usize = 0;
        proof {
            assert(self.vertex_slices@.subrange(0, self.vertex_slices@.len() as int)
                =~= self.vertex_slices@);
        }
        while position < self.vertex_slices.len()
            invariant
                position <= self.vertex_slices@.len(),
                find_slice(self.vertex_slices@, *mesh) == find_slice(
                    self.vertex_slices@.subrange(position as int, self.vertex_slices@.len() as int),
                    *mesh,
                ),
            decreases self.vertex_slices@.len() - position,
        {
            let ghost rest = self.vertex_slices@.subrange(
                position as int,
                self.vertex_slices@.len() as int,
            );
            proof {
                assert(rest[0] == self.vertex_slices@[position as int]);
                assert(rest.drop_first() =~= self.vertex_slices@.subrange(
                    position as int + 1,
                    self.vertex_slices@.len() as int,
                ));
            }
            if self.vertex_slices[position].0 == *mesh {
                return Some(self.vertex_slices[position].1);
            }
            position = position + 1;
        }
        None
    }
}

/// The index of the skin of each skinned entity.
pub struct SkinUniforms {
    pub skin_indices: DenseMap<u32>,
}

impl SkinUniforms {
    /// The index of the skin of `entity`, if it has one.
    pub fn skin_index(&self, entity: u64) -> (index: Option<u32>)
        requires
            self.skin_indices.wf(),
        ensures
            index == if self.skin_indices@.contains_key(entity) {
                Some(self.skin_indices@[entity])
            } else {
                None::<u32>
            },
    {
        match self.skin_indices.get(entity) {
            Some(index) => Some(*index),
            None => None,
        }
    }
}

/// The record that the GPU reads for one mesh instance. Every field is one
/// or more 32-bit words; numbers that are not integers stand as their bit
/// patterns.
#[derive(Clone, Copy, Debug, PartialEq, Eq, Hash)]
pub struct MeshUniform {
    /// The transform of the instance, as three rows of four.
    pub world_from_local: [u32; 12],
    /// The transform of the instance in the previous frame, as three rows of
    /// four.
    pub previous_world_from_local: [u32; 12],
    /// Eight of the nine numbers of the transposed inverse of the
    /// transform.
    pub local_from_world_transpose_a: [u32; 8],
    /// The ninth.
    pub local_from_world_transpose_b: u32,
    pub flags: u32,
    /// The rectangle of the lightmap that the instance samples, packed: four
    /// 16-bit numbers.
    pub lightmap_uv_rect: UVec2,
    /// The index of the first vertex of the instance's mesh.
    pub first_vertex_index: u32,
    /// The index of the instance's skin, or `u32::MAX` if it has none.
    pub current_skin_index: u32,
    /// The slot of the material in its bind group in the low sixteen bits,
    /// and the slot of the lightmap in its slab in the high sixteen, or
    /// `u16::MAX` there if the instance has no lightmap.
    pub material_and_lightmap_bind_group_slot: u32,
    /// A number that the user attached to the instance.
    pub tag: u32,
    /// Padding.
    pub pad: u32,
}

/// The transform with its rows and columns exchanged: three rows of four,
/// row `i` made of the `i`-th numbers of the three columns of the matrix
/// and of the translation.
pub open spec fn transposed(transform: Affine3) -> Seq<u32> {
    Seq::new(12, |word: int| transform.matrix@[(word % 4) * 3 + word / 4])
}

impl Affine3 {
    /// The transform as three rows of four numbers, from its four columns of
    /// three.
    pub fn to_transpose(&self) -> (rows: [u32; 12])
        ensures
            rows@ == transposed(*self),
    {
        let m = &self.matrix;
        let rows = [
            m[0],
            m[3],
            m[6],
            m[9],
            m[1],
            m[4],
            m[7],
            m[10],
            m[2],
            m[5],
            m[8],
            m[11],
        ];
        proof {
            assert(rows@ =~= transposed(*self));
        }
        rows
    }
}

/// The slot of a lightmap as the uniform holds it: `u16::MAX` for none.
pub open spec fn lightmap_slot_of(maybe_lightmap: Option<(LightmapSlotIndex, UvRect)>) -> u32 {
    match maybe_lightmap {
        None => 0xffffu32,
        Some(lightmap) => lightmap.0@ as u32,
    }
}

/// The rectangle of a lightmap, if there is a lightmap.
pub open spec fn lightmap_rect_of(maybe_lightmap: Option<(LightmapSlotIndex, UvRect)>) -> Option<
    UvRect,
> {
    match maybe_lightmap {
        None => None,
        Some(lightmap) => Some(lightmap.1),
    }
}

impl MeshUniform {
    /// What `MeshUniform::new` returns.
    pub open spec fn spec_new(
        mesh_transforms: MeshTransforms,
        local_from_world_transpose: InverseTranspose3,
        first_vertex_index: u32,
        material_bind_group_slot: MaterialBindGroupSlot,
        maybe_lightmap: Option<(LightmapSlotIndex, UvRect)>,
        current_skin_index: Option<u32>,
        tag: Option<u32>,
        uniform: MeshUniform,
    ) -> bool {
        &&& uniform.world_from_local@ == transposed(mesh_transforms.world_from_local)
        &&& uniform.previous_world_from_local@ == transposed(
            mesh_transforms.previous_world_from_local,
        )
        &&& uniform.local_from_world_transpose_a == local_from_world_transpose.a
        &&& uniform.local_from_world_transpose_b == local_from_world_transpose.b
        &&& uniform.flags == mesh_transforms.flags
        &&& uniform.lightmap_uv_rect == packed_uv_rect(lightmap_rect_of(maybe_lightmap))
        &&& uniform.first_vertex_index == first_vertex_index
        &&& uniform.current_skin_index == match current_skin_index {
            Some(index) => index,
            None => u32::MAX,
        }
        &&& uniform.material_and_lightmap_bind_group_slot == join_halves(
            material_bind_group_slot.slot,
            lightmap_slot_of(maybe_lightmap),
        )
        &&& uniform.tag == match tag {
            Some(tag) => tag,
            None => 0,
        }
        &&& uniform.pad == 0
    }

    /// The record for a mesh instance.
    pub fn new(
        mesh_transforms: &MeshTransforms,
        local_from_world_transpose: &InverseTranspose3,
        first_vertex_index: u32,
        material_bind_group_slot: MaterialBindGroupSlot,
        maybe_lightmap: Option<(LightmapSlotIndex, UvRect)>,
        current_skin_index: Option<u32>,
        tag: Option<u32>,
    ) -> (uniform: MeshUniform)
        ensures
            MeshUniform::spec_new(
                *mesh_transforms,
                *local_from_world_transpose,
                first_vertex_index,
                material_bind_group_slot,
                maybe_lightmap,
                current_skin_index,
                tag,
                uniform,
            ),
    {
        let lightmap_bind_group_slot: u16 = match maybe_lightmap {
            None => u16::MAX,
            Some((slot_index, _)) => slot_index.get(),
        };
        let maybe_rect = match maybe_lightmap {
            None => None,
            Some((_, uv_rect)) => Some(uv_rect),
        };
        MeshUniform {
            world_from_local: mesh_transforms.world_from_local.to_transpose(),
            previous_world_from_local: mesh_transforms.previous_world_from_local.to_transpose(),
            lightmap_uv_rect: pack_lightmap_uv_rect(maybe_rect),
            local_from_world_transpose_a: local_from_world_transpose.a,
            local_from_world_transpose_b: local_from_world_transpose.b,
            flags: mesh_transforms.flags,
            first_vertex_index,
            current_skin_index: match current_skin_index {
                Some(index) => index,
                None => u32::MAX,
            },
            material_and_lightmap_bind_group_slot: material_bind_group_slot.slot | ((
            lightmap_bind_group_slot as u32) << 16u32),
            tag: match tag {
                Some(tag) => tag,
                None => 0,
            },
            pad: 0,
        }
    }
}

/// A function for one mode of building mesh uniforms was called in the
/// other mode: the pipeline is configured wrongly.
#[derive(Clone, Copy, Debug, PartialEq, Eq, Structural, Hash)]
pub enum UniformModeError {
    /// The function is for uniforms built on the CPU, but they are built on
    /// the GPU.
    GpuBuilding,
    /// The function is for uniforms built on the GPU, but they are built on
    /// the CPU.
    CpuBuilding,
}

/// The lightmap of an entity, if it has one.
pub open spec fn lightmap_of(lightmaps: RenderLightmapsU, entity: u64) -> Option<RenderLightmap> {
    if lightmaps.render_lightmaps@.contains_key(entity) {
        Some(lightmaps.render_lightmaps@[entity])
    } else {
        None
    }
}

/// The batch key of an instance: the bind group of its material, its mesh,
/// and the slab of its lightmap, if it has one; and no key at all for an
/// instance that has opted out of batching.
pub open spec fn compare_data_of(
    shared: RenderMeshInstanceShared,
    maybe_lightmap: Option<RenderLightmap>,
) -> Option<CompareData> {
    if shared.spec_should_batch() {
        Some(
            CompareData {
                material_bind_group: shared.material_bindings_index.group,
                mesh_asset: shared.mesh_asset_id,
                lightmap_slab: match maybe_lightmap {
                    Some(lightmap) => Some(lightmap.slab_index),
                    None => None,
                },
            },
        )
    } else {
        None
    }
}

/// The index of the first vertex of a mesh: the start of its slice, or zero
/// for a mesh without one.
pub open spec fn first_vertex_of(mesh_allocator: MeshAllocator, mesh: AssetId) -> u32 {
    match find_slice(mesh_allocator.vertex_slices@, mesh) {
        Some(slice) => slice.start,
        None => 0,
    }
}

/// Whether `uniform` is the record of the instance `instance` of the entity
/// `entity`.
pub open spec fn is_uniform_of(
    instance: RenderMeshInstanceCpu,
    lightmaps: RenderLightmapsU,
    mesh_allocator: MeshAllocator,
    skin_uniforms: SkinUniforms,
    entity: u64,
    uniform: MeshUniform,
) -> bool {
    MeshUniform::spec_new(
        instance.transforms,
        instance.local_from_world_transpose,
        first_vertex_of(mesh_allocator, instance.shared.mesh_asset_id),
        instance.shared.material_bindings_index.slot,
        match lightmap_of(lightmaps, entity) {
            Some(lightmap) => Some((lightmap.slot_index, lightmap.uv_rect)),
            None => None,
        },
        if skin_uniforms.skin_indices@.contains_key(entity) {
            Some(skin_uniforms.skin_indices@[entity])
        } else {
            None
        },
        Some(instance.shared.tag),
        uniform,
    )
}

fn key_for(shared: &RenderMeshInstanceShared, maybe_lightmap: Option<&RenderLightmap>) -> (key:
    Option<CompareData>)
    ensures
        key == compare_data_of(
            *shared,
            match maybe_lightmap {
                Some(lightmap) => Some(*lightmap),
                None => None,
            },
        ),
{
    if shared.should_batch() {
        Some(
            CompareData {
                material_bind_group: shared.material_bindings_index.group,
                mesh_asset: shared.mesh_asset_id,
                lightmap_slab: match maybe_lightmap {
                    Some(lightmap) => Some(lightmap.slab_index),
                    None => None,
                },
            },
        )
    } else {
        None
    }
}

fn uniform_for(
    instance: &RenderMeshInstanceCpu,
    lightmaps: &RenderLightmapsU,
    mesh_allocator: &MeshAllocator,
    skin_uniforms: &SkinUniforms,
    main_entity: u64,
) -> (uniform: MeshUniform)
    requires
        lightmaps.render_lightmaps.wf(),
        skin_uniforms.skin_indices.wf(),
    ensures
        is_uniform_of(*instance, *lightmaps, *mesh_allocator, *skin_uniforms, main_entity, uniform),
{
    let first_vertex_index =
        match mesh_allocator.mesh_vertex_slice(&instance.shared.mesh_asset_id) {
            Some(mesh_vertex_slice) => mesh_vertex_slice.start,
            None => 0,
        };
    let maybe_lightmap = lightmaps.render_lightmaps.get(main_entity);
    let current_skin_index = skin_uniforms.skin_index(main_entity);
    MeshUniform::new(
        &instance.transforms,
        &instance.local_from_world_transpose,
        first_vertex_index,
        instance.shared.material_bindings_index.slot,
        match maybe_lightmap {
            Some(lightmap) => Some((lightmap.slot_index, lightmap.uv_rect)),
            None => None,
        },
        current_skin_index,
        Some(instance.shared.tag),
    )
}

/// One entry of the table that tells the GPU how to fill in the parameters
/// of an indirect draw.
#[derive(Clone, Copy, Debug, PartialEq, Eq, Structural, Hash)]
pub struct IndirectParametersCpuMetadata {
    /// The index of the first instance of the batch in the output buffer.
    pub base_output_index: u32,
    /// The index of the batch set that the batch belongs to, or `u32::MAX`
    /// for a batch outside any batch set.
    pub batch_set_index: u32,
}

/// The tables of indirect draw parameters of one phase: one for meshes with
/// indices, one for meshes without.
pub struct UntypedPhaseIndirectParametersBuffers {
    pub indexed: Vec<IndirectParametersCpuMetadata>,
    pub non_indexed: Vec<IndirectParametersCpuMetadata>,
}

impl MeshPipeline {
    /// The uniform and the batch key of the mesh instance of an entity, for
    /// uniforms built on the CPU.
    ///
    /// Fails where uniforms are built on the GPU: this function must never
    /// be called then. Returns `None` for an entity without a mesh instance.
    /// The batch key is `None` for an instance that has opted out of
    /// batching.
    pub fn get_batch_data(
        mesh_instances: &RenderMeshInstances,
        lightmaps: &RenderLightmapsU,
        mesh_allocator: &MeshAllocator,
        skin_uniforms: &SkinUniforms,
        main_entity: u64,
    ) -> (data: Result<Option<(MeshUniform, Option<CompareData>)>, UniformModeError>)
        requires
            mesh_instances.wf(),
            lightmaps.render_lightmaps.wf(),
            skin_uniforms.skin_indices.wf(),
        ensures
            match *mesh_instances {
                RenderMeshInstances::GpuBuilding(_) => data == Err::<
                    Option<(MeshUniform, Option<CompareData>)>,
                    UniformModeError,
                >(UniformModeError::GpuBuilding),
                RenderMeshInstances::CpuBuilding(instances) => match data {
                    Ok(Some(found)) => instances@.contains_key(main_entity) && is_uniform_of(
                        instances@[main_entity],
                        *lightmaps,
                        *mesh_allocator,
                        *skin_uniforms,
                        main_entity,
                        found.0,
                    ) && found.1 == compare_data_of(
                        instances@[main_entity].shared,
                        lightmap_of(*lightmaps, main_entity),
                    ),
                    Ok(None) => !instances@.contains_key(main_entity),
                    Err(_) => false,
                },
            },
    {
        let mesh_instances = match mesh_instances {
            RenderMeshInstances::CpuBuilding(mesh_instances) => mesh_instances,
            RenderMeshInstances::GpuBuilding(_) => {
                return Err(UniformModeError::GpuBuilding);
            },
        };
        let mesh_instance = match mesh_instances.get(main_entity) {
            Some(mesh_instance) => mesh_instance,
            None => {
                return Ok(None);
            },
        };
        let maybe_lightmap = lightmaps.render_lightmaps.get(main_entity);
        Ok(
            Some(
                (
                    uniform_for(mesh_instance, lightmaps, mesh_allocator, skin_uniforms, main_entity),
                    key_for(&mesh_instance.shared, maybe_lightmap),
                ),
            ),
        )
    }

    /// The index of the uniform and the batch key of the mesh instance of an
    /// entity, for uniforms built on the GPU.
    ///
    /// Fails where uniforms are built on the CPU: this function must never
    /// be called then. Returns `None` for an entity without a mesh instance.
    pub fn get_index_and_compare_data(
        mesh_instances: &RenderMeshInstances,
        lightmaps: &RenderLightmapsU,
        main_entity: u64,
    ) -> (data: Result<Option<(InstanceIndex, Option<CompareData>)>, UniformModeError>)
        requires
            mesh_instances.wf(),
            lightmaps.render_lightmaps.wf(),
        ensures
            match *mesh_instances {
                RenderMeshInstances::CpuBuilding(_) => data == Err::<
                    Option<(InstanceIndex, Option<CompareData>)>,
                    UniformModeError,
                >(UniformModeError::CpuBuilding),
                RenderMeshInstances::GpuBuilding(instances) => data == Ok::<
                    Option<(InstanceIndex, Option<CompareData>)>,
                    UniformModeError,
                >(
                    if instances@.contains_key(main_entity) {
                        Some(
                            (
                                instances@[main_entity].current_uniform_index,
                                compare_data_of(
                                    instances@[main_entity].shared,
                                    lightmap_of(*lightmaps, main_entity),
                                ),
                            ),
                        )
                    } else {
                        None
                    },
                ),
            },
    {
        // This should only be called during GPU building.
        let mesh_instances = match mesh_instances {
            RenderMeshInstances::GpuBuilding(mesh_instances) => mesh_instances,
            RenderMeshInstances::CpuBuilding(_) => {
                return Err(UniformModeError::CpuBuilding);
            },
        };
        let mesh_instance = match mesh_instances.get(main_entity) {
            Some(mesh_instance) => mesh_instance,
            None => {
                return Ok(None);
            },
        };
        let maybe_lightmap = lightmaps.render_lightmaps.get(main_entity);
        Ok(
            Some(
                (
                    mesh_instance.current_uniform_index,
                    key_for(&mesh_instance.shared, maybe_lightmap),
                ),
            ),
        )
    }

    /// The uniform of the mesh instance of an entity in a binned phase, for
    /// uniforms built on the CPU.
    ///
    /// Fails where uniforms are built on the GPU: this function must never
    /// be called then. Returns `None` for an entity without a mesh instance.
    pub fn get_binned_batch_data(
        mesh_instances: &RenderMeshInstances,
        lightmaps: &RenderLightmapsU,
        mesh_allocator: &MeshAllocator,
        skin_uniforms: &SkinUniforms,
        main_entity: u64,
    ) -> (data: Result<Option<MeshUniform>, UniformModeError>)
        requires
            mesh_instances.wf(),
            lightmaps.render_lightmaps.wf(),
            skin_uniforms.skin_indices.wf(),
        ensures
            match *mesh_instances {
                RenderMeshInstances::GpuBuilding(_) => data == Err::<
                    Option<MeshUniform>,
                    UniformModeError,
                >(UniformModeError::GpuBuilding),
                RenderMeshInstances::CpuBuilding(instances) => match data {
                    Ok(Some(uniform)) => instances@.contains_key(main_entity) && is_uniform_of(
                        instances@[main_entity],
                        *lightmaps,
                        *mesh_allocator,
                        *skin_uniforms,
                        main_entity,
                        uniform,
                    ),
                    Ok(None) => !instances@.contains_key(main_entity),
                    Err(_) => false,
                },
            },
    {
        let mesh_instances = match mesh_instances {
            RenderMeshInstances::CpuBuilding(mesh_instances) => mesh_instances,
            RenderMeshInstances::GpuBuilding(_) => {
                return Err(UniformModeError::GpuBuilding);
            },
        };
        let mesh_instance = match mesh_instances.get(main_entity) {
            Some(mesh_instance) => mesh_instance,
            None => {
                return Ok(None);
            },
        };
        Ok(Some(uniform_for(mesh_instance, lightmaps, mesh_allocator, skin_uniforms, main_entity)))
    }

    /// The index of the uniform of the mesh instance of an entity in a
    /// binned phase, for uniforms built on the GPU.
    ///
    /// Fails where uniforms are built on the CPU: this function must never
    /// be called then. Returns `None` for an entity without a mesh instance.
    pub fn get_binned_index(mesh_instances: &RenderMeshInstances, main_entity: u64) -> (index:
        Result<Option<InstanceIndex>, UniformModeError>)
        requires
            mesh_instances.wf(),
        ensures
            match *mesh_instances {
                RenderMeshInstances::CpuBuilding(_) => index == Err::<
                    Option<InstanceIndex>,
                    UniformModeError,
                >(UniformModeError::CpuBuilding),
                RenderMeshInstances::GpuBuilding(instances) => index == Ok::<
                    Option<InstanceIndex>,
                    UniformModeError,
                >(
                    if instances@.contains_key(main_entity) {
                        Some(instances@[main_entity].current_uniform_index)
                    } else {
                        None
                    },
                ),
            },
    {
        // This should only be called during GPU building.
        let mesh_instances = match mesh_instances {
            RenderMeshInstances::GpuBuilding(mesh_instances) => mesh_instances,
            RenderMeshInstances::CpuBuilding(_) => {
                return Err(UniformModeError::CpuBuilding);
            },
        };
        match mesh_instances.get(main_entity) {
            Some(entity) => Ok(Some(entity.current_uniform_index)),
            None => Ok(None),
        }
    }

    /// Writes the entry for one batch into the table of indirect draw
    /// parameters: into the table for meshes with indices or into the one
    /// for meshes without, at `indirect_parameters_offset`, which must lie
    /// within that table.
    pub fn write_batch_indirect_parameters_metadata(
        indexed: bool,
        base_output_index: u32,
        batch_set_index: Option<InstanceIndex>,
        phase_indirect_parameters_buffers: &mut UntypedPhaseIndirectParametersBuffers,
        indirect_parameters_offset: u32,
    )
        requires
            indexed ==> indirect_parameters_offset < old(
                phase_indirect_parameters_buffers,
            ).indexed@.len(),
            !indexed ==> indirect_parameters_offset < old(
                phase_indirect_parameters_buffers,
            ).non_indexed@.len(),
        ensures
            final(phase_indirect_parameters_buffers).indexed@ == if indexed {
                old(phase_indirect_parameters_buffers).indexed@.update(
                    indirect_parameters_offset as int,
                    indirect_parameters_of(base_output_index, batch_set_index),
                )
            } else {
                old(phase_indirect_parameters_buffers).indexed@
            },
            final(phase_indirect_parameters_buffers).non_indexed@ == if indexed {
                old(phase_indirect_parameters_buffers).non_indexed@
            } else {
                old(phase_indirect_parameters_buffers).non_indexed@.update(
                    indirect_parameters_offset as int,
                    indirect_parameters_of(base_output_index, batch_set_index),
                )
            },
    {
        let indirect_parameters = IndirectParametersCpuMetadata {
            base_output_index,
            batch_set_index: match batch_set_index {
                Some(batch_set_index) => batch_set_index.get(),
                None => !0u32,
            },
        };
        proof {
            assert(!0u32 == 0xffff_ffffu32) by (bit_vector);
        }
        if indexed {
            phase_indirect_parameters_buffers.indexed.set(
                indirect_parameters_offset as usize,
                indirect_parameters,
            );
        } else {
            phase_indirect_parameters_buffers.non_indexed.set(
                indirect_parameters_offset as usize,
                indirect_parameters,
            );
        }
    }
}

/// The entry for a batch: its first instance, and its batch set, or
/// `u32::MAX` for a batch outside any batch set.
pub open spec fn indirect_parameters_of(
    base_output_index: u32,
    batch_set_index: Option<InstanceIndex>,
) -> IndirectParametersCpuMetadata {
    IndirectParametersCpuMetadata {
        base_output_index,
        batch_set_index: match batch_set_index {
            Some(batch_set_index) => batch_set_index@ as u32,
            None => u32::MAX,
        },
    }
}

} // verus!
