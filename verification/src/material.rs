//! The properties of a material that the mesh pipeline reads.

use crate::labelled::{
    labelled_get, labelled_ids, labelled_len, labelled_new, labelled_push, LabelledIds,
};
use crate::material_key::ErasedMaterialKey;
use crate::mesh::{MeshPipeline, MeshPipelineKey};
use crate::render_resource::BindGroupLayoutDescriptor;
use vstd::prelude::*;

verus! {

/// The index of the bind group that holds the data of a material.
pub const MATERIAL_BIND_GROUP_INDEX: usize = 3;

/// The key of the pipeline of a material: the key of the mesh pipeline, the
/// key of the material, and the type of the material.
#[derive(Clone, Copy, Debug)]
pub struct ErasedMaterialPipelineKey {
    pub mesh_key: MeshPipelineKey,
    pub material_key: ErasedMaterialKey,
    pub type_id: u64,
}

/// Render pipeline data for a given material.
#[derive(Debug)]
pub struct MaterialPipeline {
    pub mesh_pipeline: MeshPipeline,
}

/// How good the blur of screen space specular transmission is.
#[derive(Clone, Copy, Debug, PartialEq, Eq, Structural, Hash)]
pub enum ScreenSpaceTransmissionQuality {
    Low,
    Medium,
    High,
    Ultra,
}

/// The bits of the mesh pipeline key for a quality of screen space specular
/// transmission.
pub open spec fn transmission_key_bits(quality: ScreenSpaceTransmissionQuality) -> u64 {
    match quality {
        ScreenSpaceTransmissionQuality::Low => {
            MeshPipelineKey::SCREEN_SPACE_SPECULAR_TRANSMISSION_LOW
        },
        ScreenSpaceTransmissionQuality::Medium => {
            MeshPipelineKey::SCREEN_SPACE_SPECULAR_TRANSMISSION_MEDIUM
        },
        ScreenSpaceTransmissionQuality::High => {
            MeshPipelineKey::SCREEN_SPACE_SPECULAR_TRANSMISSION_HIGH
        },
        ScreenSpaceTransmissionQuality::Ultra => {
            MeshPipelineKey::SCREEN_SPACE_SPECULAR_TRANSMISSION_ULTRA
        },
    }
}

/// The mesh pipeline key that holds a quality of screen space specular
/// transmission, and nothing else.
pub fn screen_space_specular_transmission_pipeline_key(
    screen_space_transmissive_blur_quality: ScreenSpaceTransmissionQuality,
) -> (key: MeshPipelineKey)
    ensures
        key.bits == transmission_key_bits(screen_space_transmissive_blur_quality),
{
    match screen_space_transmissive_blur_quality {
        ScreenSpaceTransmissionQuality::Low => MeshPipelineKey {
            bits: MeshPipelineKey::SCREEN_SPACE_SPECULAR_TRANSMISSION_LOW,
        },
        ScreenSpaceTransmissionQuality::Medium => MeshPipelineKey {
            bits: MeshPipelineKey::SCREEN_SPACE_SPECULAR_TRANSMISSION_MEDIUM,
        },
        ScreenSpaceTransmissionQuality::High => MeshPipelineKey {
            bits: MeshPipelineKey::SCREEN_SPACE_SPECULAR_TRANSMISSION_HIGH,
        },
        ScreenSpaceTransmissionQuality::Ultra => MeshPipelineKey {
            bits: MeshPipelineKey::SCREEN_SPACE_SPECULAR_TRANSMISSION_ULTRA,
        },
    }
}

/// Each quality has bits of its own, within the bits that are reserved for
/// the quality.
pub proof fn lemma_transmission_key_bits(
    first: ScreenSpaceTransmissionQuality,
    second: ScreenSpaceTransmissionQuality,
)
    ensures
        transmission_key_bits(first) == transmission_key_bits(second) <==> first == second,
        transmission_key_bits(first)
            & MeshPipelineKey::SCREEN_SPACE_SPECULAR_TRANSMISSION_RESERVED_BITS
            == transmission_key_bits(first),
{
    let bits = transmission_key_bits(first);
    assert(bits & 0x18_0000_0000u64 == bits) by (bit_vector)
        requires
            bits == 0 || bits == 0x8_0000_0000u64 || bits == 0x10_0000_0000u64 || bits
                == 0x18_0000_0000u64,
    ;
}

/// The entities that need their pipelines specialized, for materials of the
/// type `M`.
pub struct EntitiesNeedingSpecialization<M> {
    pub entities: Vec<u64>,
    pub _marker: core::marker::PhantomData<M>,
}

impl<M> Default for EntitiesNeedingSpecialization<M> {
    fn default() -> (entities: Self)
        ensures
            entities.entities@.len() == 0,
    {
        Self { entities: Vec::new(), _marker: core::marker::PhantomData }
    }
}

/// Render method used for opaque materials.
#[derive(Clone, Copy, Debug, PartialEq, Eq, Structural, Hash)]
pub enum OpaqueRendererMethod {
    Forward,
    Deferred,
    Auto,
}

/// How the alpha of a material is used. A threshold stands as the bit
/// pattern of its number.
#[derive(Clone, Copy, Debug, PartialEq, Eq, Structural, Hash)]
pub enum AlphaMode {
    Opaque,
    Mask(u32),
    Blend,
    Premultiplied,
    AlphaToCoverage,
    Add,
    Multiply,
}

/// Default render method used for opaque materials.
#[derive(Clone, Copy, Debug, PartialEq, Eq, Structural, Hash)]
pub struct DefaultOpaqueRendererMethod(pub OpaqueRendererMethod);

impl DefaultOpaqueRendererMethod {
    pub fn forward() -> (method: Self)
        ensures
            method.0 == OpaqueRendererMethod::Forward,
    {
        DefaultOpaqueRendererMethod(OpaqueRendererMethod::Forward)
    }

    pub fn deferred() -> (method: Self)
        ensures
            method.0 == OpaqueRendererMethod::Deferred,
    {
        DefaultOpaqueRendererMethod(OpaqueRendererMethod::Deferred)
    }

    pub fn set_to_forward(&mut self)
        ensures
            final(self).0 == OpaqueRendererMethod::Forward,
    {
        self.0 = OpaqueRendererMethod::Forward;
    }

    pub fn set_to_deferred(&mut self)
        ensures
            final(self).0 == OpaqueRendererMethod::Deferred,
    {
        self.0 = OpaqueRendererMethod::Deferred;
    }
}

impl Default for DefaultOpaqueRendererMethod {
    fn default() -> (method: Self)
        ensures
            method.0 == OpaqueRendererMethod::Forward,
    {
        DefaultOpaqueRendererMethod(OpaqueRendererMethod::Forward)
    }
}

/// A label of a shader, as the number that stands for it.
#[derive(Clone, Copy, Debug, PartialEq, Eq, Structural, Hash)]
pub struct InternedShaderLabel {
    pub id: u32,
}

/// A label of a draw function, as the number that stands for it.
#[derive(Clone, Copy, Debug, PartialEq, Eq, Structural, Hash)]
pub struct InternedDrawFunctionLabel {
    pub id: u32,
}

/// A label that names a shader of a material.
pub trait ShaderLabel {
    /// The number that stands for the label.
    spec fn interned(&self) -> InternedShaderLabel;

    /// The number that stands for the label.
    fn intern(&self) -> (label: InternedShaderLabel)
        ensures
            label == self.interned(),
    ;
}

/// A label that names a draw function of a material.
pub trait DrawFunctionLabel {
    /// The number that stands for the label.
    spec fn interned(&self) -> InternedDrawFunctionLabel;

    /// The number that stands for the label.
    fn intern(&self) -> (label: InternedDrawFunctionLabel)
        ensures
            label == self.interned(),
    ;
}

#[derive(Debug, Hash, PartialEq, Eq, Clone, Default)]
pub struct MaterialVertexShader;

#[derive(Debug, Hash, PartialEq, Eq, Clone, Default)]
pub struct MaterialFragmentShader;

#[derive(Debug, Hash, PartialEq, Eq, Clone, Default)]
pub struct PrepassVertexShader;

#[derive(Debug, Hash, PartialEq, Eq, Clone, Default)]
pub struct PrepassFragmentShader;

#[derive(Debug, Hash, PartialEq, Eq, Clone, Default)]
pub struct DeferredVertexShader;

#[derive(Debug, Hash, PartialEq, Eq, Clone, Default)]
pub struct DeferredFragmentShader;

#[derive(Debug, Hash, PartialEq, Eq, Clone, Default)]
pub struct MeshletFragmentShader;

#[derive(Debug, Hash, PartialEq, Eq, Clone, Default)]
pub struct MeshletPrepassFragmentShader;

#[derive(Debug, Hash, PartialEq, Eq, Clone, Default)]
pub struct MeshletDeferredFragmentShader;

#[derive(Debug, Hash, PartialEq, Eq, Clone, Default)]
pub struct MaterialDrawFunction;

#[derive(Debug, Hash, PartialEq, Eq, Clone, Default)]
pub struct PrepassDrawFunction;

#[derive(Debug, Hash, PartialEq, Eq, Clone, Default)]
pub struct DeferredDrawFunction;

#[derive(Debug, Hash, PartialEq, Eq, Clone, Default)]
pub struct ShadowsDrawFunction;

impl ShaderLabel for MaterialVertexShader {
    open spec fn interned(&self) -> InternedShaderLabel {
        InternedShaderLabel { id: 0 }
    }

    fn intern(&self) -> (label: InternedShaderLabel) {
        InternedShaderLabel { id: 0 }
    }
}

impl ShaderLabel for MaterialFragmentShader {
    open spec fn interned(&self) -> InternedShaderLabel {
        InternedShaderLabel { id: 1 }
    }

    fn intern(&self) -> (label: InternedShaderLabel) {
        InternedShaderLabel { id: 1 }
    }
}

impl ShaderLabel for PrepassVertexShader {
    open spec fn interned(&self) -> InternedShaderLabel {
        InternedShaderLabel { id: 2 }
    }

    fn intern(&self) -> (label: InternedShaderLabel) {
        InternedShaderLabel { id: 2 }
    }
}

impl ShaderLabel for PrepassFragmentShader {
    open spec fn interned(&self) -> InternedShaderLabel {
        InternedShaderLabel { id: 3 }
    }

    fn intern(&self) -> (label: InternedShaderLabel) {
        InternedShaderLabel { id: 3 }
    }
}

impl ShaderLabel for DeferredVertexShader {
    open spec fn interned(&self) -> InternedShaderLabel {
        InternedShaderLabel { id: 4 }
    }

    fn intern(&self) -> (label: InternedShaderLabel) {
        InternedShaderLabel { id: 4 }
    }
}

impl ShaderLabel for DeferredFragmentShader {
    open spec fn interned(&self) -> InternedShaderLabel {
        InternedShaderLabel { id: 5 }
    }

    fn intern(&self) -> (label: InternedShaderLabel) {
        InternedShaderLabel { id: 5 }
    }
}

impl ShaderLabel for MeshletFragmentShader {
    open spec fn interned(&self) -> InternedShaderLabel {
        InternedShaderLabel { id: 6 }
    }

    fn intern(&self) -> (label: InternedShaderLabel) {
        InternedShaderLabel { id: 6 }
    }
}

impl ShaderLabel for MeshletPrepassFragmentShader {
    open spec fn interned(&self) -> InternedShaderLabel {
        InternedShaderLabel { id: 7 }
    }

    fn intern(&self) -> (label: InternedShaderLabel) {
        InternedShaderLabel { id: 7 }
    }
}

impl ShaderLabel for MeshletDeferredFragmentShader {
    open spec fn interned(&self) -> InternedShaderLabel {
        InternedShaderLabel { id: 8 }
    }

    fn intern(&self) -> (label: InternedShaderLabel) {
        InternedShaderLabel { id: 8 }
    }
}

impl DrawFunctionLabel for MaterialDrawFunction {
    open spec fn interned(&self) -> InternedDrawFunctionLabel {
        InternedDrawFunctionLabel { id: 0 }
    }

    fn intern(&self) -> (label: InternedDrawFunctionLabel) {
        InternedDrawFunctionLabel { id: 0 }
    }
}

impl DrawFunctionLabel for PrepassDrawFunction {
    open spec fn interned(&self) -> InternedDrawFunctionLabel {
        InternedDrawFunctionLabel { id: 1 }
    }

    fn intern(&self) -> (label: InternedDrawFunctionLabel) {
        InternedDrawFunctionLabel { id: 1 }
    }
}

impl DrawFunctionLabel for DeferredDrawFunction {
    open spec fn interned(&self) -> InternedDrawFunctionLabel {
        InternedDrawFunctionLabel { id: 2 }
    }

    fn intern(&self) -> (label: InternedDrawFunctionLabel) {
        InternedDrawFunctionLabel { id: 2 }
    }
}

impl DrawFunctionLabel for ShadowsDrawFunction {
    open spec fn interned(&self) -> InternedDrawFunctionLabel {
        InternedDrawFunctionLabel { id: 3 }
    }

    fn intern(&self) -> (label: InternedDrawFunctionLabel) {
        InternedDrawFunctionLabel { id: 3 }
    }
}

/// The identifier of a draw function.
#[derive(Clone, Copy, Debug, PartialEq, Eq, Structural, Hash)]
pub struct DrawFunctionId(pub u32);

/// A handle to a shader.
#[derive(Clone, Copy, Debug, PartialEq, Eq, Structural, Hash)]
pub struct ShaderHandle {
    pub id: u64,
}

/// In which phase the meshes of a material are drawn.
#[derive(Clone, Copy, Debug, PartialEq, Eq, Structural, Hash)]
pub enum RenderPhaseType {
    Opaque,
    AlphaMask,
    Transmissive,
    Transparent,
}

impl Default for RenderPhaseType {
    fn default() -> (phase: Self)
        ensures
            phase == RenderPhaseType::Opaque,
    {
        RenderPhaseType::Opaque
    }
}

/// Common material properties, calculated for a specific material instance.
pub struct MaterialProperties {
    /// Is this material should be rendered by the deferred renderer when
    /// its alpha mode is opaque or mask.
    pub render_method: OpaqueRendererMethod,
    /// The alpha mode of this material.
    pub alpha_mode: AlphaMode,
    /// The bits in the mesh pipeline key for this material.
    ///
    /// These are precalculated so that we can just "or" them together.
    pub mesh_pipeline_key_bits: MeshPipelineKey,
    /// Add a bias to the view depth of the mesh which can be used to force a
    /// specific render order for meshes with equal depth, to avoid
    /// z-fighting. The bias stands as the bit pattern of its number.
    pub depth_bias: u32,
    /// Whether the material would like to read from the view transmission
    /// texture.
    pub reads_view_transmission_texture: bool,
    pub render_phase_type: RenderPhaseType,
    pub material_layout: Option<BindGroupLayoutDescriptor>,
    /// The draw functions of the material, each under its label.
    pub draw_functions: LabelledIds,
    /// The shaders of the material, each under its label.
    pub shaders: LabelledIds,
    /// Whether this material *actually* uses bindless resources, taking the
    /// platform support (or lack thereof) of bindless resources into account.
    pub bindless: bool,
    /// The key for this material, typically a bitfield of flags that are
    /// used to modify the pipeline descriptor used for this material.
    pub material_key: ErasedMaterialKey,
    /// Whether shadows are enabled for this material
    pub shadows_enabled: bool,
    /// Whether prepass is enabled for this material
    pub prepass_enabled: bool,
}

impl Default for MaterialProperties {
    fn default() -> (properties: Self)
        ensures
            properties.wf(),
            properties.shaders().len() == 0,
            properties.draw_functions().len() == 0,
    {
        MaterialProperties::new()
    }
}

/// The identifier that stands first in `pairs` under the label `label`.
pub open spec fn find_labelled(pairs: Seq<(u32, u64)>, label: u32) -> Option<u64>
    decreases pairs.len(),
{
    if pairs.len() == 0 {
        None
    } else if pairs[0].0 == label {
        Some(pairs[0].1)
    } else {
        find_labelled(pairs.drop_first(), label)
    }
}

fn find_in(list: &LabelledIds, label: u32) -> (found: Option<u64>)
    ensures
        found == find_labelled(labelled_ids(*list), label),
        found.is_some() ==> exists|position: int|
            0 <= position < labelled_ids(*list).len() && labelled_ids(*list)[position] == (
                label,
                found.unwrap(),
            ),
{
    let ghost pairs = labelled_ids(*list);
    let count = labelled_len(list);
    let mut position: usize = 0;
    proof {
        assert(pairs.subrange(0, pairs.len() as int) =~= pairs);
    }
    while position < count
        invariant
            position <= count,
            count == pairs.len(),
            pairs == labelled_ids(*list),
            find_labelled(pairs, label) == find_labelled(
                pairs.subrange(position as int, pairs.len() as int),
                label,
            ),
        decreases count - position,
    {
        let ghost rest = pairs.subrange(position as int, pairs.len() as int);
        proof {
            assert(rest[0] == pairs[position as int]);
            assert(rest.drop_first() =~= pairs.subrange(position as int + 1, pairs.len() as int));
        }
        let pair = labelled_get(list, position);
        if pair.0 == label {
            return Some(pair.1);
        }
        position = position + 1;
    }
    None
}

impl MaterialProperties {
    /// The shaders of the material, each with its label, in the order in
    /// which they were added.
    pub open spec fn shaders(&self) -> Seq<(u32, u64)> {
        labelled_ids(self.shaders)
    }

    /// The draw functions of the material, each with its label, in the
    /// order in which they were added.
    pub open spec fn draw_functions(&self) -> Seq<(u32, u64)> {
        labelled_ids(self.draw_functions)
    }

    /// Every draw function is held as the number of its identifier.
    pub open spec fn wf(&self) -> bool {
        forall|position: int|
            0 <= position < self.draw_functions().len() ==> (
            #[trigger] self.draw_functions()[position]).1 <= u32::MAX
    }

    /// The properties of a material that has no shader and no draw function
    /// yet: an opaque material, rendered forward, with the key of a material
    /// without a key.
    pub fn new() -> (properties: Self)
        ensures
            properties.wf(),
            properties.shaders().len() == 0,
            properties.draw_functions().len() == 0,
            properties.render_method == OpaqueRendererMethod::Forward,
            properties.alpha_mode == AlphaMode::Opaque,
            properties.mesh_pipeline_key_bits.bits == MeshPipelineKey::NONE,
            properties.render_phase_type == RenderPhaseType::Opaque,
            properties.material_layout.is_none(),
            !properties.bindless && !properties.reads_view_transmission_texture
                && !properties.shadows_enabled && !properties.prepass_enabled,
            properties.depth_bias == 0,
    {
        MaterialProperties {
            render_method: OpaqueRendererMethod::Forward,
            alpha_mode: AlphaMode::Opaque,
            mesh_pipeline_key_bits: MeshPipelineKey { bits: MeshPipelineKey::NONE },
            depth_bias: 0,
            reads_view_transmission_texture: false,
            render_phase_type: RenderPhaseType::Opaque,
            material_layout: None,
            draw_functions: labelled_new(),
            shaders: labelled_new(),
            bindless: false,
            material_key: ErasedMaterialKey::default(),
            shadows_enabled: false,
            prepass_enabled: false,
        }
    }

    /// The shader that was added first under the label `label`, if any was.
    pub fn get_shader<L: ShaderLabel>(&self, label: L) -> (shader: Option<ShaderHandle>)
        ensures
            shader == match find_labelled(self.shaders(), label.interned().id) {
                Some(id) => Some(ShaderHandle { id }),
                None => None,
            },
    {
        match find_in(&self.shaders, label.intern().id) {
            Some(id) => Some(ShaderHandle { id }),
            None => None,
        }
    }

    /// Adds a shader under a label, after the shaders that the material
    /// has.
    pub fn add_shader<L: ShaderLabel>(&mut self, label: L, shader: ShaderHandle)
        ensures
            final(self).shaders() == old(self).shaders().push((label.interned().id, shader.id)),
            final(self).draw_functions() == old(self).draw_functions(),
            old(self).wf() ==> final(self).wf(),
    {
        labelled_push(&mut self.shaders, label.intern().id, shader.id);
    }

    /// The draw function that was added first under the label `label`, if
    /// any was.
    pub fn get_draw_function<L: DrawFunctionLabel>(&self, label: L) -> (draw_function: Option<
        DrawFunctionId,
    >)
        requires
            self.wf(),
        ensures
            match draw_function {
                Some(draw_function) => find_labelled(
                    self.draw_functions(),
                    label.interned().id,
                ) == Some(draw_function.0 as u64),
                None => find_labelled(self.draw_functions(), label.interned().id).is_none(),
            },
    {
        match find_in(&self.draw_functions, label.intern().id) {
            Some(id) => Some(DrawFunctionId(id as u32)),
            None => None,
        }
    }

    /// Adds a draw function under a label, after the draw functions that
    /// the material has.
    pub fn add_draw_function<L: DrawFunctionLabel>(
        &mut self,
        label: L,
        draw_function: DrawFunctionId,
    )
        ensures
            final(self).draw_functions() == old(self).draw_functions().push(
                (label.interned().id, draw_function.0 as u64),
            ),
            final(self).shaders() == old(self).shaders(),
            old(self).wf() ==> final(self).wf(),
    {
        labelled_push(&mut self.draw_functions, label.intern().id, draw_function.0 as u64);
    }
}

} // verus!
