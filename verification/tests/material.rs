use mesh_pipeline::material::{
    screen_space_specular_transmission_pipeline_key, AlphaMode, DefaultOpaqueRendererMethod,
    DeferredDrawFunction, DeferredFragmentShader, DeferredVertexShader, DrawFunctionId,
    DrawFunctionLabel, EntitiesNeedingSpecialization, InternedDrawFunctionLabel,
    InternedShaderLabel, MaterialDrawFunction, MaterialFragmentShader, MaterialProperties,
    MaterialVertexShader, MeshletDeferredFragmentShader, MeshletFragmentShader,
    MeshletPrepassFragmentShader, OpaqueRendererMethod, PrepassDrawFunction,
    PrepassFragmentShader, PrepassVertexShader, RenderPhaseType,
    ScreenSpaceTransmissionQuality, ShaderHandle, ShaderLabel, ShadowsDrawFunction,
    MATERIAL_BIND_GROUP_INDEX,
};
use mesh_pipeline::material_key::{ErasedMaterialKey, KeyTypeId, MaterialKeyValue};
use mesh_pipeline::mesh::MeshPipelineKey;
use mesh_pipeline::pipeline_cache::{
    CachedComputePipelineId, CachedRenderPipelineId, ComputePipelineDescriptor,
    PipelineDescriptor, RenderPipelineDescriptor,
};
use mesh_pipeline::pipeline_specializer::{
    MeshVertexBufferLayoutRef, MissingVertexAttributeError, SpecializedComputePipeline,
    SpecializedMeshPipeline, SpecializedMeshPipelineError, SpecializedRenderPipeline,
};

#[test]
fn each_quality_of_transmission_has_its_key() {
    assert_eq!(
        screen_space_specular_transmission_pipeline_key(ScreenSpaceTransmissionQuality::Low).bits(),
        0
    );
    assert_eq!(
        screen_space_specular_transmission_pipeline_key(ScreenSpaceTransmissionQuality::Medium)
            .bits(),
        1 << 35
    );
    assert_eq!(
        screen_space_specular_transmission_pipeline_key(ScreenSpaceTransmissionQuality::High)
            .bits(),
        2 << 35
    );
    assert_eq!(
        screen_space_specular_transmission_pipeline_key(ScreenSpaceTransmissionQuality::Ultra)
            .bits(),
        MeshPipelineKey::SCREEN_SPACE_SPECULAR_TRANSMISSION_ULTRA
    );
}

#[test]
fn the_default_method_for_opaque_materials_can_be_set() {
    assert_eq!(
        DefaultOpaqueRendererMethod::forward().0,
        OpaqueRendererMethod::Forward
    );
    assert_eq!(
        DefaultOpaqueRendererMethod::deferred().0,
        OpaqueRendererMethod::Deferred
    );
    let mut method = DefaultOpaqueRendererMethod::default();
    assert_eq!(method.0, OpaqueRendererMethod::Forward);
    method.set_to_deferred();
    assert_eq!(method, DefaultOpaqueRendererMethod::deferred());
    method.set_to_forward();
    assert_eq!(method, DefaultOpaqueRendererMethod::forward());
    assert_eq!(RenderPhaseType::default(), RenderPhaseType::Opaque);
    assert_eq!(MATERIAL_BIND_GROUP_INDEX, 3);
    assert_eq!(
        EntitiesNeedingSpecialization::<u8>::default().entities,
        Vec::<u64>::new()
    );
}

#[test]
fn labels_are_told_apart() {
    let shaders = [
        MaterialVertexShader.intern(),
        MaterialFragmentShader.intern(),
        PrepassVertexShader.intern(),
        PrepassFragmentShader.intern(),
        DeferredVertexShader.intern(),
        DeferredFragmentShader.intern(),
        MeshletFragmentShader.intern(),
        MeshletPrepassFragmentShader.intern(),
        MeshletDeferredFragmentShader.intern(),
    ];
    for (first, label) in shaders.iter().enumerate() {
        assert_eq!(*label, InternedShaderLabel { id: first as u32 });
    }
    let draw_functions = [
        MaterialDrawFunction.intern(),
        PrepassDrawFunction.intern(),
        DeferredDrawFunction.intern(),
        ShadowsDrawFunction.intern(),
    ];
    for (first, label) in draw_functions.iter().enumerate() {
        assert_eq!(*label, InternedDrawFunctionLabel { id: first as u32 });
    }
}

#[test]
fn new_properties_are_those_of_a_plain_opaque_material() {
    let properties = MaterialProperties::new();
    assert_eq!(properties.render_method, OpaqueRendererMethod::Forward);
    assert_eq!(properties.alpha_mode, AlphaMode::Opaque);
    assert_eq!(properties.mesh_pipeline_key_bits.bits(), 0);
    assert_eq!(properties.depth_bias, 0);
    assert_eq!(properties.render_phase_type, RenderPhaseType::Opaque);
    assert!(properties.material_layout.is_none());
    assert!(!properties.bindless);
    assert!(!properties.shadows_enabled);
    assert!(!properties.prepass_enabled);
    assert!(!properties.reads_view_transmission_texture);
    assert_eq!(properties.material_key, ErasedMaterialKey::default());
    assert_eq!(properties.get_shader(MaterialFragmentShader), None);
    assert_eq!(properties.get_draw_function(MaterialDrawFunction), None);
}

#[test]
fn the_first_shader_under_a_label_is_found() {
    let mut properties = MaterialProperties::new();
    properties.add_shader(MaterialFragmentShader, ShaderHandle { id: 10 });
    properties.add_shader(PrepassFragmentShader, ShaderHandle { id: 20 });
    properties.add_shader(MaterialFragmentShader, ShaderHandle { id: 30 });
    properties.add_shader(DeferredFragmentShader, ShaderHandle { id: u64::MAX });
    properties.add_shader(MeshletFragmentShader, ShaderHandle { id: 50 });
    assert_eq!(
        properties.get_shader(MaterialFragmentShader),
        Some(ShaderHandle { id: 10 })
    );
    assert_eq!(
        properties.get_shader(PrepassFragmentShader),
        Some(ShaderHandle { id: 20 })
    );
    assert_eq!(
        properties.get_shader(DeferredFragmentShader),
        Some(ShaderHandle { id: u64::MAX })
    );
    assert_eq!(
        properties.get_shader(MeshletFragmentShader),
        Some(ShaderHandle { id: 50 })
    );
    assert_eq!(properties.get_shader(MaterialVertexShader), None);
    assert_eq!(properties.get_draw_function(MaterialDrawFunction), None);
}

#[test]
fn the_first_draw_function_under_a_label_is_found() {
    let mut properties = MaterialProperties::new();
    properties.add_draw_function(ShadowsDrawFunction, DrawFunctionId(4));
    properties.add_draw_function(MaterialDrawFunction, DrawFunctionId(u32::MAX));
    properties.add_draw_function(ShadowsDrawFunction, DrawFunctionId(6));
    assert_eq!(
        properties.get_draw_function(ShadowsDrawFunction),
        Some(DrawFunctionId(4))
    );
    assert_eq!(
        properties.get_draw_function(MaterialDrawFunction),
        Some(DrawFunctionId(u32::MAX))
    );
    assert_eq!(properties.get_draw_function(PrepassDrawFunction), None);
    assert_eq!(properties.get_draw_function(DeferredDrawFunction), None);
    assert_eq!(properties.get_shader(MaterialVertexShader), None);
}

#[test]
fn erased_keys_are_equal_when_type_and_value_are() {
    let standard = KeyTypeId { id: 1 };
    let custom = KeyTypeId { id: 2 };
    let key = ErasedMaterialKey::new(standard, MaterialKeyValue::Bits(5));
    assert_eq!(key, ErasedMaterialKey::new(standard, MaterialKeyValue::Bits(5)));
    assert_ne!(key, ErasedMaterialKey::new(standard, MaterialKeyValue::Bits(6)));
    assert_ne!(key, ErasedMaterialKey::new(custom, MaterialKeyValue::Bits(5)));
    assert_ne!(key, ErasedMaterialKey::new(standard, MaterialKeyValue::Unit));
    assert_eq!(key.to_key(standard), MaterialKeyValue::Bits(5));
    assert_eq!(key.clone(), key);
    assert_eq!(
        key.stored_hash(),
        ErasedMaterialKey::new(custom, MaterialKeyValue::Bits(5)).stored_hash()
    );
    assert_eq!(
        ErasedMaterialKey::default(),
        ErasedMaterialKey::new(KeyTypeId { id: 0 }, MaterialKeyValue::Unit)
    );
    assert_eq!(
        ErasedMaterialKey::default().to_key(KeyTypeId { id: 0 }),
        MaterialKeyValue::Unit
    );
}

struct Wireframe;

impl SpecializedRenderPipeline for Wireframe {
    type Key = u8;

    fn specialize(&self, key: u8) -> RenderPipelineDescriptor {
        RenderPipelineDescriptor {
            label: if key == 0 { "plain" } else { "wireframe" },
            layout: vec![],
        }
    }
}

impl SpecializedComputePipeline for Wireframe {
    type Key = u8;

    fn specialize(&self, _key: u8) -> ComputePipelineDescriptor {
        ComputePipelineDescriptor {
            label: "compute",
            layout: vec![],
        }
    }
}

impl SpecializedMeshPipeline for Wireframe {
    type Key = u8;

    fn specialize(
        &self,
        _key: u8,
        layout: &MeshVertexBufferLayoutRef,
    ) -> Result<RenderPipelineDescriptor, SpecializedMeshPipelineError> {
        if layout.attribute_ids.contains(&0) {
            Ok(RenderPipelineDescriptor {
                label: "mesh",
                layout: vec![],
            })
        } else {
            Err(SpecializedMeshPipelineError::MissingVertexAttribute(
                MissingVertexAttributeError { attribute_id: 0 },
            ))
        }
    }
}

#[test]
fn pipelines_can_be_specialized_by_key() {
    assert_eq!(
        SpecializedRenderPipeline::specialize(&Wireframe, 1).label,
        "wireframe"
    );
    assert_eq!(
        SpecializedComputePipeline::specialize(&Wireframe, 1).label,
        "compute"
    );
    assert_eq!(
        SpecializedMeshPipeline::specialize(
            &Wireframe,
            1,
            &MeshVertexBufferLayoutRef {
                attribute_ids: vec![3]
            }
        )
        .err(),
        Some(SpecializedMeshPipelineError::MissingVertexAttribute(
            MissingVertexAttributeError { attribute_id: 0 }
        ))
    );
    let descriptors = vec![
        PipelineDescriptor::RenderPipelineDescriptor(Box::new(
            SpecializedRenderPipeline::specialize(&Wireframe, 0),
        )),
        PipelineDescriptor::ComputePipelineDescriptor(Box::new(
            SpecializedComputePipeline::specialize(&Wireframe, 0),
        )),
    ];
    assert!(matches!(
        &descriptors[0],
        PipelineDescriptor::RenderPipelineDescriptor(descriptor) if descriptor.label == "plain"
    ));
    assert!(matches!(
        &descriptors[1],
        PipelineDescriptor::ComputePipelineDescriptor(_)
    ));
    assert_eq!(CachedRenderPipelineId::INVALID, usize::MAX);
    assert_eq!(CachedComputePipelineId::INVALID, usize::MAX);
    assert_eq!(CachedComputePipelineId(3).id(), 3);
}
