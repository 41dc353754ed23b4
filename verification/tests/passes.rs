use mesh_pipeline::binned_phase::{
    BinnedRenderPhase, CompareData, DrawBatch, MaterialBindGroupIndex,
};
use mesh_pipeline::core_3d::{
    MainOpaquePass3dNode, MainTransparentPass3dNode, OpaquePassView, SkyboxBindGroup,
    SkyboxPipelineId, TransparentPassView, ViewSortedRenderPhases, ViewUniformOffset, World,
};
use mesh_pipeline::dense_map::DenseMap;
use mesh_pipeline::pipeline_cache::{CachedRenderPipelineId, PipelineCache, RenderPipeline};
use mesh_pipeline::render_graph::{
    run_view_passes, App, CopyTextureToBuffer, CurrentGpuPickingBufferIndex,
    EntityIndexBufferCopyNode, EntityIndexBufferCopyPlugin, ExtractedGpuPickingCamera,
    LightmapPlugin, Node3d, PassWork, Schedule, SubApp, System, SystemRegistration, ViewPasses,
};
use mesh_pipeline::render_pass::{
    BindGroupId, Camera3d, Camera3dDepthLoadOp, ClearColorConfig, Color, ExtractedCamera,
    LoadOp, Operations, PassCommand, RenderPassColorAttachment,
    RenderPassDepthStencilAttachment, StoreOp, ViewDepthTexture, ViewTarget, Viewport,
    VisibleMeshIdTextures,
};
use mesh_pipeline::render_lightmap::AssetId;
use mesh_pipeline::render_resource::Buffer;
use mesh_pipeline::slab::TextureView;
use mesh_pipeline::sorted_phase::{SortedItem, SortedRenderPhase};

const RED: Color = Color {
    red: 0x3f80_0000,
    green: 0,
    blue: 0,
    alpha: 0x3f80_0000,
};

const BLUE: Color = Color {
    red: 0,
    green: 0,
    blue: 0x3f80_0000,
    alpha: 0x3f80_0000,
};

const NO_MESH: Color = Color {
    red: 0,
    green: 0,
    blue: 0,
    alpha: 0,
};

struct Scene {
    camera: ExtractedCamera,
    camera_3d: Camera3d,
    target: ViewTarget,
    depth: ViewDepthTexture,
    opaque: BinnedRenderPhase,
    alpha_mask: BinnedRenderPhase,
    world: World,
}

fn scene() -> Scene {
    Scene {
        camera: ExtractedCamera { viewport: None },
        camera_3d: Camera3d {
            clear_color: ClearColorConfig::Default,
            depth_load_op: Camera3dDepthLoadOp::Clear(0),
        },
        target: ViewTarget {
            view: TextureView { id: 1 },
            resolve_target: None,
        },
        depth: ViewDepthTexture {
            view: TextureView { id: 2 },
        },
        opaque: BinnedRenderPhase::new(),
        alpha_mask: BinnedRenderPhase::new(),
        world: World {
            clear_color: RED,
            pipeline_cache: PipelineCache {
                render_pipelines: vec![None, Some(RenderPipeline { id: 77 })],
            },
        },
    }
}

fn opaque_view(scene: &Scene) -> OpaquePassView<'_> {
    OpaquePassView {
        camera: &scene.camera,
        camera_3d: &scene.camera_3d,
        opaque_phase: Some(&scene.opaque),
        alpha_mask_phase: Some(&scene.alpha_mask),
        target: &scene.target,
        depth: &scene.depth,
        depth_prepass: false,
        normal_prepass: false,
        motion_vector_prepass: false,
        gpu_picking_camera: false,
        skybox_pipeline: None,
        skybox_bind_group: None,
        mesh_id_textures: None,
        view_uniform_offset: ViewUniformOffset { offset: 256 },
    }
}

fn transparent_view(scene: &Scene, view_entity: u64) -> TransparentPassView<'_> {
    TransparentPassView {
        view_entity,
        camera: &scene.camera,
        target: &scene.target,
        depth: &scene.depth,
        gpu_picking_camera: false,
        mesh_id_textures: None,
    }
}

fn key(material: u32) -> CompareData {
    CompareData {
        material_bind_group: MaterialBindGroupIndex { index: material },
        mesh_asset: AssetId::Index { bits: 7 },
        lightmap_slab: None,
    }
}

fn color(view: u64, load: LoadOp<Color>) -> Option<RenderPassColorAttachment> {
    Some(RenderPassColorAttachment {
        view: TextureView { id: view },
        resolve_target: None,
        ops: Operations {
            load,
            store: StoreOp::Store,
        },
    })
}

fn depth(load: LoadOp<u32>) -> Option<RenderPassDepthStencilAttachment> {
    Some(RenderPassDepthStencilAttachment {
        view: TextureView { id: 2 },
        depth_ops: Some(Operations {
            load,
            store: StoreOp::Store,
        }),
        stencil_ops: None,
    })
}

fn phases_with(view_entity: u64, items: &[(u64, i64)]) -> ViewSortedRenderPhases {
    let mut phase = SortedRenderPhase::new();
    for (entity, depth) in items {
        phase.add(SortedItem {
            entity: *entity,
            depth: *depth,
        });
    }
    phase.sort();
    let mut phases = DenseMap::new();
    phases.insert(view_entity, phase);
    ViewSortedRenderPhases { phases }
}

#[test]
fn the_opaque_pass_of_an_empty_view_draws_nothing() {
    let scene = scene();
    let task = MainOpaquePass3dNode.run(&opaque_view(&scene), &scene.world).unwrap();
    assert_eq!(task.encoder_label, "main_opaque_pass_3d_command_encoder");
    assert_eq!(task.descriptor.label, "main_opaque_pass_3d");
    assert_eq!(
        task.descriptor.color_attachments,
        vec![color(1, LoadOp::Clear(RED))]
    );
    assert_eq!(
        task.descriptor.depth_stencil_attachment,
        depth(LoadOp::Clear(0))
    );
    assert_eq!(task.commands, vec![]);
}

#[test]
fn the_opaque_pass_is_skipped_for_a_view_without_its_phases() {
    let scene = scene();
    let mut view = opaque_view(&scene);
    view.opaque_phase = None;
    assert_eq!(MainOpaquePass3dNode.run(&view, &scene.world), None);
    let mut view = opaque_view(&scene);
    view.alpha_mask_phase = None;
    assert_eq!(MainOpaquePass3dNode.run(&view, &scene.world), None);
}

#[test]
fn the_colour_is_cleared_as_the_camera_says() {
    let mut scene = scene();
    scene.camera_3d.clear_color = ClearColorConfig::Custom(BLUE);
    let task = MainOpaquePass3dNode.run(&opaque_view(&scene), &scene.world).unwrap();
    assert_eq!(
        task.descriptor.color_attachments,
        vec![color(1, LoadOp::Clear(BLUE))]
    );
    scene.camera_3d.clear_color = ClearColorConfig::Keep;
    let task = MainOpaquePass3dNode.run(&opaque_view(&scene), &scene.world).unwrap();
    assert_eq!(task.descriptor.color_attachments, vec![color(1, LoadOp::Load)]);
}

#[test]
fn the_target_brings_its_resolve_target() {
    let mut scene = scene();
    scene.target.resolve_target = Some(TextureView { id: 11 });
    let task = MainOpaquePass3dNode.run(&opaque_view(&scene), &scene.world).unwrap();
    assert_eq!(
        task.descriptor.color_attachments,
        vec![Some(RenderPassColorAttachment {
            view: TextureView { id: 1 },
            resolve_target: Some(TextureView { id: 11 }),
            ops: Operations {
                load: LoadOp::Clear(RED),
                store: StoreOp::Store,
            },
        })]
    );
}

#[test]
fn any_prepass_makes_the_opaque_pass_load_the_depth() {
    let mut scene = scene();
    scene.camera_3d.depth_load_op = Camera3dDepthLoadOp::Clear(0x3f00_0000);
    for prepasses in 0..8u32 {
        let mut view = opaque_view(&scene);
        view.depth_prepass = prepasses & 1 != 0;
        view.normal_prepass = prepasses & 2 != 0;
        view.motion_vector_prepass = prepasses & 4 != 0;
        let task = MainOpaquePass3dNode.run(&view, &scene.world).unwrap();
        let expected = if prepasses == 0 {
            LoadOp::Clear(0x3f00_0000)
        } else {
            LoadOp::Load
        };
        assert_eq!(task.descriptor.depth_stencil_attachment, depth(expected));
    }
    scene.camera_3d.depth_load_op = Camera3dDepthLoadOp::Load;
    let task = MainOpaquePass3dNode.run(&opaque_view(&scene), &scene.world).unwrap();
    assert_eq!(task.descriptor.depth_stencil_attachment, depth(LoadOp::Load));
    assert_eq!(Camera3dDepthLoadOp::Clear(5).into(), LoadOp::Clear(5));
    assert_eq!(Camera3dDepthLoadOp::Load.into(), LoadOp::Load);
}

#[test]
fn picking_adds_an_attachment_and_changes_nothing_else() {
    let mut scene = scene();
    scene.opaque.add(1, Some(key(1)));
    let plain = MainOpaquePass3dNode.run(&opaque_view(&scene), &scene.world).unwrap();

    let mut view = opaque_view(&scene);
    view.gpu_picking_camera = true;
    view.mesh_id_textures = Some(VisibleMeshIdTextures {
        main: TextureView { id: 5 },
    });
    let picking = MainOpaquePass3dNode.run(&view, &scene.world).unwrap();
    assert_eq!(
        picking.descriptor.color_attachments,
        vec![color(1, LoadOp::Clear(RED)), color(5, LoadOp::Clear(NO_MESH))]
    );
    assert_eq!(
        picking.descriptor.color_attachments[0],
        plain.descriptor.color_attachments[0]
    );
    assert_eq!(
        picking.descriptor.depth_stencil_attachment,
        plain.descriptor.depth_stencil_attachment
    );
    assert_eq!(picking.commands, plain.commands);
    assert_eq!(VisibleMeshIdTextures::clear_color(), NO_MESH);

    let mut view = opaque_view(&scene);
    view.gpu_picking_camera = true;
    assert_eq!(MainOpaquePass3dNode.run(&view, &scene.world).unwrap(), plain);
    let mut view = opaque_view(&scene);
    view.mesh_id_textures = Some(VisibleMeshIdTextures {
        main: TextureView { id: 5 },
    });
    assert_eq!(MainOpaquePass3dNode.run(&view, &scene.world).unwrap(), plain);

    scene.camera_3d.clear_color = ClearColorConfig::Keep;
    let mut view = opaque_view(&scene);
    view.gpu_picking_camera = true;
    view.mesh_id_textures = Some(VisibleMeshIdTextures {
        main: TextureView { id: 5 },
    });
    let picking = MainOpaquePass3dNode.run(&view, &scene.world).unwrap();
    assert_eq!(
        picking.descriptor.color_attachments,
        vec![color(1, LoadOp::Load), color(5, LoadOp::Load)]
    );
}

#[test]
fn the_opaque_pass_records_viewport_opaque_alpha_mask_and_skybox_in_this_order() {
    let mut scene = scene();
    let viewport = Viewport {
        physical_position: (10, 20),
        physical_size: (640, 480),
        depth: (0, 0x3f80_0000),
    };
    scene.camera.viewport = Some(viewport);
    scene.opaque.add(1, Some(key(1)));
    scene.opaque.add(2, Some(key(1)));
    scene.opaque.add(3, None);
    scene.alpha_mask.add(4, Some(key(2)));
    let mut view = opaque_view(&scene);
    view.skybox_pipeline = Some(SkyboxPipelineId(CachedRenderPipelineId(1)));
    view.skybox_bind_group = Some(SkyboxBindGroup((BindGroupId { id: 9 }, 64)));
    let task = MainOpaquePass3dNode.run(&view, &scene.world).unwrap();
    assert_eq!(
        task.commands,
        vec![
            PassCommand::SetCameraViewport(viewport),
            PassCommand::DrawBatch(DrawBatch {
                key: Some(key(1)),
                first_instance: 0,
                instance_count: 2
            }),
            PassCommand::DrawBatch(DrawBatch {
                key: None,
                first_instance: 2,
                instance_count: 1
            }),
            PassCommand::DrawBatch(DrawBatch {
                key: Some(key(2)),
                first_instance: 0,
                instance_count: 1
            }),
            PassCommand::SetRenderPipeline(RenderPipeline { id: 77 }),
            PassCommand::SetBindGroup {
                index: 0,
                bind_group: BindGroupId { id: 9 },
                offsets: (256, 64)
            },
            PassCommand::Draw {
                vertices: (0, 3),
                instances: (0, 1)
            },
        ]
    );
}

#[test]
fn the_skybox_is_drawn_only_when_all_of_it_is_there() {
    let scene = scene();
    let pipeline = |index: usize| Some(SkyboxPipelineId(CachedRenderPipelineId(index)));
    let bind_group = Some(SkyboxBindGroup((BindGroupId { id: 9 }, 64)));
    for (skybox_pipeline, skybox_bind_group) in [
        (None, bind_group),
        (pipeline(1), None),
        (pipeline(0), bind_group),
        (pipeline(2), bind_group),
        (pipeline(usize::MAX), bind_group),
    ] {
        let mut view = opaque_view(&scene);
        view.skybox_pipeline = skybox_pipeline;
        view.skybox_bind_group = skybox_bind_group;
        let task = MainOpaquePass3dNode.run(&view, &scene.world).unwrap();
        assert_eq!(task.commands, vec![]);
    }
    assert_eq!(
        scene.world.pipeline_cache.get_render_pipeline(CachedRenderPipelineId(1)),
        Some(RenderPipeline { id: 77 })
    );
    assert_eq!(CachedRenderPipelineId(4).id(), 4);
}

#[test]
fn the_transparent_pass_is_skipped_without_work() {
    let scene = scene();
    let view = transparent_view(&scene, 3);
    assert_eq!(MainTransparentPass3dNode.run(&view, None), None);
    let phases = phases_with(4, &[(1, 1)]);
    assert_eq!(MainTransparentPass3dNode.run(&view, Some(&phases)), None);
    let phases = phases_with(3, &[]);
    assert_eq!(MainTransparentPass3dNode.run(&view, Some(&phases)), None);
}

#[test]
fn the_transparent_pass_loads_colour_and_depth_and_draws_from_back_to_front() {
    let mut scene = scene();
    let viewport = Viewport {
        physical_position: (0, 0),
        physical_size: (64, 48),
        depth: (0, 0x3f80_0000),
    };
    scene.camera.viewport = Some(viewport);
    let phases = phases_with(3, &[(1, 5), (2, 9), (3, 5), (4, 1)]);
    let mut view = transparent_view(&scene, 3);
    view.gpu_picking_camera = true;
    view.mesh_id_textures = Some(VisibleMeshIdTextures {
        main: TextureView { id: 5 },
    });
    let task = MainTransparentPass3dNode.run(&view, Some(&phases)).unwrap();
    assert_eq!(
        task.encoder_label,
        "main_transparent_pass_3d_command_encoder"
    );
    assert_eq!(task.descriptor.label, "main_transparent_pass_3d");
    assert_eq!(
        task.descriptor.color_attachments,
        vec![color(1, LoadOp::Load), color(5, LoadOp::Load)]
    );
    assert_eq!(task.descriptor.depth_stencil_attachment, depth(LoadOp::Load));
    assert_eq!(
        task.commands,
        vec![
            PassCommand::SetCameraViewport(viewport),
            PassCommand::DrawItem(2),
            PassCommand::DrawItem(1),
            PassCommand::DrawItem(3),
            PassCommand::DrawItem(4),
        ]
    );
}

#[test]
fn a_view_with_only_transparent_work_still_runs_its_transparent_pass() {
    let scene = scene();
    let phases = phases_with(3, &[(1, 5), (2, 9)]);
    let view = ViewPasses {
        opaque: opaque_view(&scene),
        transparent: transparent_view(&scene, 3),
        gpu_picking_camera: None,
    };
    let work = run_view_passes(
        &view,
        &scene.world,
        Some(&phases),
        &CurrentGpuPickingBufferIndex(0),
    );
    assert_eq!(work.len(), 2);
    assert_eq!(work[0].0, Node3d::MainOpaquePass);
    assert_eq!(work[1].0, Node3d::MainTransparentPass);
    match &work[0].1 {
        PassWork::Render(task) => assert_eq!(task.commands, vec![]),
        PassWork::Copy(_) => panic!("the opaque pass copies nothing"),
    }
    match &work[1].1 {
        PassWork::Render(task) => {
            assert_eq!(
                task.commands,
                vec![PassCommand::DrawItem(2), PassCommand::DrawItem(1)]
            );
            assert_eq!(task.descriptor.depth_stencil_attachment, depth(LoadOp::Load));
        }
        PassWork::Copy(_) => panic!("the transparent pass copies nothing"),
    }

    let mut without_phases = opaque_view(&scene);
    without_phases.opaque_phase = None;
    without_phases.alpha_mask_phase = None;
    let view = ViewPasses {
        opaque: without_phases,
        transparent: transparent_view(&scene, 3),
        gpu_picking_camera: None,
    };
    let work = run_view_passes(
        &view,
        &scene.world,
        Some(&phases),
        &CurrentGpuPickingBufferIndex(0),
    );
    assert_eq!(work.len(), 1);
    assert_eq!(work[0].0, Node3d::MainTransparentPass);
}

#[test]
fn the_passes_of_a_view_come_in_their_order() {
    let mut scene = scene();
    scene.opaque.add(1, Some(key(1)));
    let phases = phases_with(3, &[(1, 5)]);
    let picking_camera = ExtractedGpuPickingCamera {
        buffers: vec![Buffer { id: 20 }, Buffer { id: 21 }],
    };
    let mut opaque = opaque_view(&scene);
    opaque.gpu_picking_camera = true;
    opaque.mesh_id_textures = Some(VisibleMeshIdTextures {
        main: TextureView { id: 5 },
    });
    let view = ViewPasses {
        opaque,
        transparent: transparent_view(&scene, 3),
        gpu_picking_camera: Some(&picking_camera),
    };
    let work = run_view_passes(
        &view,
        &scene.world,
        Some(&phases),
        &CurrentGpuPickingBufferIndex(1),
    );
    let nodes: Vec<Node3d> = work.iter().map(|done| done.0).collect();
    assert_eq!(
        nodes,
        vec![
            Node3d::MainOpaquePass,
            Node3d::MainTransparentPass,
            Node3d::EntityIndexBufferCopy
        ]
    );
    assert_eq!(
        work[2].1,
        PassWork::Copy(CopyTextureToBuffer {
            source: TextureView { id: 5 },
            destination: Buffer { id: 21 },
        })
    );
    let work = run_view_passes(&view, &scene.world, None, &CurrentGpuPickingBufferIndex(0));
    let nodes: Vec<Node3d> = work.iter().map(|done| done.0).collect();
    assert_eq!(
        nodes,
        vec![Node3d::MainOpaquePass, Node3d::EntityIndexBufferCopy]
    );
}

#[test]
fn the_nodes_follow_one_another() {
    assert_eq!(
        Node3d::MainOpaquePass.next(),
        Some(Node3d::MainTransmissivePass)
    );
    assert_eq!(
        Node3d::MainTransmissivePass.next(),
        Some(Node3d::MainTransparentPass)
    );
    assert_eq!(Node3d::MainTransparentPass.next(), Some(Node3d::Upscaling));
    assert_eq!(
        Node3d::Upscaling.next(),
        Some(Node3d::EntityIndexBufferCopy)
    );
    assert_eq!(Node3d::EntityIndexBufferCopy.next(), None);
}

#[test]
fn the_copy_goes_into_the_buffer_of_the_frame() {
    let camera = ExtractedGpuPickingCamera {
        buffers: vec![Buffer { id: 20 }, Buffer { id: 21 }],
    };
    let textures = VisibleMeshIdTextures {
        main: TextureView { id: 5 },
    };
    let mut index = CurrentGpuPickingBufferIndex(0);
    let mut destinations = Vec::new();
    for _ in 0..4 {
        destinations.push(EntityIndexBufferCopyNode.run(&textures, &camera, &index).destination.id);
        index = index.toggle(2);
    }
    assert_eq!(destinations, vec![20, 21, 20, 21]);
    assert_eq!(
        EntityIndexBufferCopyNode.run(&textures, &camera, &index).source,
        TextureView { id: 5 }
    );
    assert_eq!(CurrentGpuPickingBufferIndex(2).toggle(3), CurrentGpuPickingBufferIndex(0));
}

fn empty_app(renders: bool) -> App {
    App {
        shader_libraries: vec![],
        render_app: if renders {
            Some(SubApp {
                systems: vec![],
                graph_nodes: vec![Node3d::MainOpaquePass, Node3d::Upscaling],
                graph_edges: vec![(Node3d::MainOpaquePass, Node3d::Upscaling)],
            })
        } else {
            None
        },
    }
}

#[test]
fn the_copy_plugin_places_its_node_after_upscaling() {
    let mut app = empty_app(true);
    EntityIndexBufferCopyPlugin.build(&mut app);
    let render_app = app.render_app.unwrap();
    assert_eq!(
        render_app.graph_nodes,
        vec![
            Node3d::MainOpaquePass,
            Node3d::Upscaling,
            Node3d::EntityIndexBufferCopy
        ]
    );
    assert_eq!(
        render_app.graph_edges,
        vec![
            (Node3d::MainOpaquePass, Node3d::Upscaling),
            (Node3d::Upscaling, Node3d::EntityIndexBufferCopy)
        ]
    );
    assert_eq!(render_app.systems, vec![]);
    assert_eq!(app.shader_libraries, Vec::<&str>::new());

    let mut app = empty_app(false);
    EntityIndexBufferCopyPlugin.build(&mut app);
    assert!(app.render_app.is_none());
    assert_eq!(app.shader_libraries, Vec::<&str>::new());
}

#[test]
fn the_lightmap_plugin_adds_its_two_systems() {
    let mut app = empty_app(true);
    LightmapPlugin.build(&mut app);
    assert_eq!(app.shader_libraries, vec!["lightmap.wgsl"]);
    let render_app = app.render_app.unwrap();
    assert_eq!(
        render_app.systems,
        vec![
            SystemRegistration {
                schedule: Schedule::RenderStartup,
                system: System::InitRenderLightmaps,
                after: None,
            },
            SystemRegistration {
                schedule: Schedule::ExtractSchedule,
                system: System::ExtractLightmaps,
                after: Some(System::MeshExtractionSystems),
            },
        ]
    );
    assert_eq!(render_app.graph_nodes.len(), 2);

    let mut app = empty_app(false);
    LightmapPlugin.build(&mut app);
    assert_eq!(app.shader_libraries, vec!["lightmap.wgsl"]);
    assert!(app.render_app.is_none());
}
