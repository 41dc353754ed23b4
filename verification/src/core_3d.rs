//! The main passes of a view in three dimensions: what each pass does to its
//! attachments, and which draws it records.

use crate::binned_phase::{BinnedPhaseView, BinnedRenderPhase, DrawBatch};
use crate::pipeline_cache::{CachedRenderPipelineId, PipelineCache};
use crate::render_pass::{
    BindGroupId, Camera3d, ClearColorConfig, Color, CommandBufferTask,
    ExtractedCamera, LoadOp, Operations, PassCommand, RenderPassColorAttachment,
    RenderPassDepthStencilAttachment, RenderPassDescriptor, StoreOp, ViewDepthTexture,
    ViewTarget, VisibleMeshIdTextures,
};
use crate::sorted_phase::{SortedItem, SortedRenderPhase};
use vstd::prelude::*;

verus! {

/// The pipeline that draws the skybox of a view.
#[derive(Clone, Copy, Debug, PartialEq, Eq, Hash)]
pub struct SkyboxPipelineId(pub CachedRenderPipelineId);

/// The bind group of the skybox of a view, with its dynamic offset.
#[derive(Clone, Copy, Debug, PartialEq, Eq, Hash)]
pub struct SkyboxBindGroup(pub (BindGroupId, u32));

/// Where the uniform of a view lies in the buffer of view uniforms.
#[derive(Clone, Copy, Debug, PartialEq, Eq, Hash)]
pub struct ViewUniformOffset {
    pub offset: u32,
}

/// What the render world holds beside the views.
pub struct World {
    /// The colour that views are cleared with unless they bring their own.
    pub clear_color: Color,
    pub pipeline_cache: PipelineCache,
}

/// What the main opaque pass reads of a view.
pub struct OpaquePassView<'a> {
    pub camera: &'a ExtractedCamera,
    pub camera_3d: &'a Camera3d,
    /// The phase of opaque meshes, if the view has one in this frame.
    pub opaque_phase: Option<&'a BinnedRenderPhase>,
    /// The phase of alpha-masked meshes, if the view has one in this frame.
    pub alpha_mask_phase: Option<&'a BinnedRenderPhase>,
    pub target: &'a ViewTarget,
    pub depth: &'a ViewDepthTexture,
    /// Whether a depth prepass runs for the view.
    pub depth_prepass: bool,
    /// Whether a normal prepass runs for the view.
    pub normal_prepass: bool,
    /// Whether a motion vector prepass runs for the view.
    pub motion_vector_prepass: bool,
    /// Whether the view takes part in picking on the GPU.
    pub gpu_picking_camera: bool,
    pub skybox_pipeline: Option<SkyboxPipelineId>,
    pub skybox_bind_group: Option<SkyboxBindGroup>,
    pub mesh_id_textures: Option<VisibleMeshIdTextures>,
    pub view_uniform_offset: ViewUniformOffset,
}

/// What is done to the colour of a view when the opaque pass begins: it is
/// cleared with the world's colour, cleared with the camera's own colour, or
/// kept.
pub open spec fn color_load_op(clear_color: ClearColorConfig, world_color: Color) -> LoadOp<
    Color,
> {
    match clear_color {
        ClearColorConfig::Default => LoadOp::Clear(world_color),
        ClearColorConfig::Custom(color) => LoadOp::Clear(color),
        ClearColorConfig::Keep => LoadOp::Load,
    }
}

/// What is done to the mesh identifiers of a view when the opaque pass
/// begins: they are kept where the colour is kept, and cleared otherwise.
pub open spec fn mesh_id_load_op(clear_color: ClearColorConfig) -> LoadOp<Color> {
    match clear_color {
        ClearColorConfig::Keep => LoadOp::Load,
        _ => LoadOp::Clear(VisibleMeshIdTextures::spec_clear_color()),
    }
}

/// What is done to the depth of a view when the opaque pass begins: where
/// any prepass runs, it has written the depth buffer, which is kept; else
/// the camera decides.
pub open spec fn depth_load_op(
    depth_prepass: bool,
    normal_prepass: bool,
    motion_vector_prepass: bool,
    camera_3d: Camera3d,
) -> LoadOp<u32> {
    if depth_prepass || normal_prepass || motion_vector_prepass {
        LoadOp::Load
    } else {
        camera_3d.depth_load_op.spec_into()
    }
}

/// The attachment for mesh identifiers, which a pass has only for a view
/// that takes part in picking and has the texture for it.
pub open spec fn mesh_id_attachment(
    gpu_picking_camera: bool,
    mesh_id_textures: Option<VisibleMeshIdTextures>,
    load: LoadOp<Color>,
) -> Seq<Option<RenderPassColorAttachment>> {
    if gpu_picking_camera && mesh_id_textures.is_some() {
        seq![
            Some(
                mesh_id_textures.unwrap().spec_get_color_attachment(
                    Operations { load, store: StoreOp::Store },
                ),
            ),
        ]
    } else {
        seq![]
    }
}

/// The colour attachments of the opaque pass: the target of the view, and
/// after it the mesh identifiers where the view has them.
pub open spec fn opaque_color_attachments(view: OpaquePassView, world: World) -> Seq<
    Option<RenderPassColorAttachment>,
> {
    seq![
        Some(
            view.target.spec_get_color_attachment(
                Operations {
                    load: color_load_op(view.camera_3d.clear_color, world.clear_color),
                    store: StoreOp::Store,
                },
            ),
        ),
    ] + mesh_id_attachment(
        view.gpu_picking_camera,
        view.mesh_id_textures,
        mesh_id_load_op(view.camera_3d.clear_color),
    )
}

/// The depth attachment of the opaque pass, which loads the depth buffer or
/// clears it, and keeps what it writes.
pub open spec fn opaque_depth_attachment(view: OpaquePassView) -> RenderPassDepthStencilAttachment {
    RenderPassDepthStencilAttachment {
        view: view.depth.view,
        depth_ops: Some(
            Operations {
                load: depth_load_op(
                    view.depth_prepass,
                    view.normal_prepass,
                    view.motion_vector_prepass,
                    *view.camera_3d,
                ),
                store: StoreOp::Store,
            },
        ),
        stencil_ops: None,
    }
}

/// The command that restricts drawing to the viewport of a camera, if the
/// camera has one.
pub open spec fn viewport_commands(camera: ExtractedCamera) -> Seq<PassCommand> {
    match camera.viewport {
        Some(viewport) => seq![PassCommand::SetCameraViewport(viewport)],
        None => seq![],
    }
}

/// The commands that draw the skybox with a fullscreen triangle, where the
/// view has a skybox whose pipeline is ready.
pub open spec fn skybox_commands(view: OpaquePassView, world: World) -> Seq<PassCommand> {
    if view.skybox_pipeline.is_some() && view.skybox_bind_group.is_some()
        && world.pipeline_cache.spec_get_render_pipeline(view.skybox_pipeline.unwrap().0).is_some() {
        seq![
            PassCommand::SetRenderPipeline(
                world.pipeline_cache.spec_get_render_pipeline(
                    view.skybox_pipeline.unwrap().0,
                ).unwrap(),
            ),
            PassCommand::SetBindGroup {
                index: 0,
                bind_group: view.skybox_bind_group.unwrap().0.0,
                offsets: (view.view_uniform_offset.offset, view.skybox_bind_group.unwrap().0.1),
            },
            PassCommand::Draw { vertices: (0, 3), instances: (0, 1) },
        ]
    } else {
        seq![]
    }
}

/// The draws of a binned phase as commands.
pub open spec fn batch_commands(phase: BinnedPhaseView) -> Seq<PassCommand> {
    phase.draws().map_values(|draw: DrawBatch| PassCommand::DrawBatch(draw))
}

/// The draws of a sorted phase as commands.
pub open spec fn item_commands(items: Seq<SortedItem>) -> Seq<PassCommand> {
    items.map_values(|item: SortedItem| PassCommand::DrawItem(item.entity))
}

/// The commands of the opaque pass: the viewport, the opaque draws, the
/// alpha-masked draws, the skybox.
pub open spec fn opaque_commands(
    view: OpaquePassView,
    world: World,
    opaque: BinnedPhaseView,
    alpha_mask: BinnedPhaseView,
) -> Seq<PassCommand> {
    viewport_commands(*view.camera) + batch_commands(opaque) + batch_commands(alpha_mask)
        + skybox_commands(view, world)
}

fn push_batches(commands: &mut Vec<PassCommand>, phase: &BinnedRenderPhase)
    requires
        phase@.instance_count() <= usize::MAX,
    ensures
        final(commands)@ == old(commands)@ + batch_commands(phase@),
{
    let draws = phase.render();
    let mut position: usize = 0;
    while position < draws.len()
        invariant
            position <= draws@.len(),
            draws@ == phase@.draws(),
            commands@ == old(commands)@ + batch_commands(phase@).subrange(0, position as int),
        decreases draws@.len() - position,
    {
        commands.push(PassCommand::DrawBatch(draws[position]));
        proof {
            assert(batch_commands(phase@).subrange(0, position as int + 1) =~= batch_commands(
                phase@,
            ).subrange(0, position as int).push(PassCommand::DrawBatch(draws@[position as int])));
        }
        position = position + 1;
    }
    proof {
        assert(batch_commands(phase@).subrange(0, position as int) =~= batch_commands(phase@));
    }
}

fn push_viewport(commands: &mut Vec<PassCommand>, camera: &ExtractedCamera)
    ensures
        final(commands)@ == old(commands)@ + viewport_commands(*camera),
{
    match camera.viewport {
        Some(viewport) => {
            commands.push(PassCommand::SetCameraViewport(viewport));
            proof {
                assert(commands@ =~= old(commands)@ + viewport_commands(*camera));
            }
        },
        None => {
            proof {
                assert(commands@ =~= old(commands)@ + viewport_commands(*camera));
            }
        },
    }
}

fn push_mesh_ids(
    color_attachments: &mut Vec<Option<RenderPassColorAttachment>>,
    gpu_picking_camera: bool,
    mesh_id_textures: Option<VisibleMeshIdTextures>,
    load: LoadOp<Color>,
)
    ensures
        final(color_attachments)@ == old(color_attachments)@ + mesh_id_attachment(
            gpu_picking_camera,
            mesh_id_textures,
            load,
        ),
{
    if gpu_picking_camera {
        if let Some(mesh_id_textures) = mesh_id_textures {
            color_attachments.push(
                Some(
                    mesh_id_textures.get_color_attachment(
                        Operations { load, store: StoreOp::Store },
                    ),
                ),
            );
        }
    }
    proof {
        assert(color_attachments@ =~= old(color_attachments)@ + mesh_id_attachment(
            gpu_picking_camera,
            mesh_id_textures,
            load,
        ));
    }
}

/// Whether the opaque pass has work for a view: the view has both of its
/// binned phases in this frame.
pub open spec fn opaque_pass_runs(view: OpaquePassView) -> bool {
    view.opaque_phase.is_some() && view.alpha_mask_phase.is_some()
}

/// Whether `task` is the task of the opaque pass of a view that has both of
/// its phases.
pub open spec fn is_opaque_task(task: CommandBufferTask, view: OpaquePassView, world: World)
    -> bool {
    &&& task.encoder_label == "main_opaque_pass_3d_command_encoder"
    &&& task.descriptor.label == "main_opaque_pass_3d"
    &&& task.descriptor.color_attachments@ == opaque_color_attachments(view, world)
    &&& task.descriptor.depth_stencil_attachment == Some(opaque_depth_attachment(view))
    &&& task.commands@ == opaque_commands(
        view,
        world,
        view.opaque_phase.unwrap()@,
        view.alpha_mask_phase.unwrap()@,
    )
}

/// Picking only adds to a pass. The attachment for mesh identifiers comes
/// after the colour of the view and changes nothing else: the first colour
/// attachment of the opaque pass, its depth attachment and its commands are
/// the same for a view with picking as for the same view without.
pub proof fn lemma_picking_is_additive(view: OpaquePassView, world: World)
    ensures
        ({
            let plain = OpaquePassView { gpu_picking_camera: false, mesh_id_textures: None, ..view };
            &&& opaque_color_attachments(plain, world).len() == 1
            &&& opaque_color_attachments(view, world)[0] == opaque_color_attachments(
                plain,
                world,
            )[0]
            &&& opaque_color_attachments(view, world).len() <= 2
            &&& opaque_depth_attachment(view) == opaque_depth_attachment(plain)
            &&& forall|opaque: BinnedPhaseView, alpha_mask: BinnedPhaseView|
                opaque_commands(view, world, opaque, alpha_mask) == opaque_commands(
                    plain,
                    world,
                    opaque,
                    alpha_mask,
                )
        }),
{
}

/// A render graph node that runs the opaque binned phase and the
/// alpha-masked binned phase of a view, and draws its skybox.
#[derive(Default)]
pub struct MainOpaquePass3dNode;

impl MainOpaquePass3dNode {
    /// Sets up the main opaque pass of a view.
    ///
    /// A view that lacks one of its two phases in this frame is skipped:
    /// there is no task for it. For any other view the task begins the pass
    /// with the attachments of the view, and records the draws of the two
    /// phases and of the skybox. A phase that holds nothing adds no draw.
    /// Nothing of the scene is changed.
    pub fn run(&self, view: &OpaquePassView, world: &World) -> (task: Option<CommandBufferTask>)
        requires
            view.opaque_phase.is_some() ==> view.opaque_phase.unwrap()@.instance_count()
                <= usize::MAX,
            view.alpha_mask_phase.is_some() ==> view.alpha_mask_phase.unwrap()@.instance_count()
                <= usize::MAX,
        ensures
            task.is_some() <==> opaque_pass_runs(*view),
            task.is_some() ==> is_opaque_task(task.unwrap(), *view, *world),
    {
        let opaque_phase = match view.opaque_phase {
            Some(phase) => phase,
            None => {
                return None;
            },
        };
        let alpha_mask_phase = match view.alpha_mask_phase {
            Some(phase) => phase,
            None => {
                return None;
            },
        };
        let mut color_attachments: Vec<Option<RenderPassColorAttachment>> = Vec::new();
        color_attachments.push(
            Some(
                view.target.get_color_attachment(
                    Operations {
                        load: match view.camera_3d.clear_color {
                            ClearColorConfig::Default => LoadOp::Clear(world.clear_color),
                            ClearColorConfig::Custom(color) => LoadOp::Clear(color),
                            ClearColorConfig::Keep => LoadOp::Load,
                        },
                        store: StoreOp::Store,
                    },
                ),
            ),
        );
        push_mesh_ids(
            &mut color_attachments,
            view.gpu_picking_camera,
            view.mesh_id_textures,
            match view.camera_3d.clear_color {
                ClearColorConfig::Keep => LoadOp::Load,
                _ => LoadOp::Clear(VisibleMeshIdTextures::clear_color()),
            },
        );
        proof {
            assert(color_attachments@ =~= opaque_color_attachments(*view, *world));
        }
        // NOTE: The opaque main pass loads the depth buffer and possibly overwrites it
        let depth_stencil_attachment = Some(
            RenderPassDepthStencilAttachment {
                view: view.depth.view,
                depth_ops: Some(
                    Operations {
                        load: if view.depth_prepass || view.normal_prepass
                            || view.motion_vector_prepass {
                            // if any prepass runs, it will generate a depth buffer so we
                            // should use it, even if only the normal_prepass is used.
                            LoadOp::Load
                        } else {
                            view.camera_3d.depth_load_op.into()
                        },
                        store: StoreOp::Store,
                    },
                ),
                stencil_ops: None,
            },
        );
        let mut commands: Vec<PassCommand> = Vec::new();
        push_viewport(&mut commands, view.camera);
        // Opaque draws
        if !opaque_phase.is_empty() {
            push_batches(&mut commands, opaque_phase);
        } else {
            proof {
                assert(batch_commands(opaque_phase@) =~= Seq::<PassCommand>::empty());
            }
        }
        // Alpha draws
        if !alpha_mask_phase.is_empty() {
            push_batches(&mut commands, alpha_mask_phase);
        } else {
            proof {
                assert(batch_commands(alpha_mask_phase@) =~= Seq::<PassCommand>::empty());
            }
        }
        let ghost drawn = commands@;
        // Skybox draw using a fullscreen triangle
        if let (Some(skybox_pipeline), Some(skybox_bind_group)) = (
            view.skybox_pipeline,
            view.skybox_bind_group,
        ) {
            if let Some(pipeline) = world.pipeline_cache.get_render_pipeline(skybox_pipeline.0) {
                commands.push(PassCommand::SetRenderPipeline(pipeline));
                commands.push(
                    PassCommand::SetBindGroup {
                        index: 0,
                        bind_group: skybox_bind_group.0.0,
                        offsets: (view.view_uniform_offset.offset, skybox_bind_group.0.1),
                    },
                );
                commands.push(PassCommand::Draw { vertices: (0, 3), instances: (0, 1) });
            }
        }
        proof {
            assert(commands@ =~= drawn + skybox_commands(*view, *world));
            assert(commands@ =~= opaque_commands(
                *view,
                *world,
                opaque_phase@,
                alpha_mask_phase@,
            ));
        }
        Some(
            CommandBufferTask {
                encoder_label: "main_opaque_pass_3d_command_encoder",
                descriptor: RenderPassDescriptor {
                    label: "main_opaque_pass_3d",
                    color_attachments,
                    depth_stencil_attachment,
                },
                commands,
            },
        )
    }
}

/// The sorted phases of the views that have one in this frame, by the
/// entity of the view.
pub struct ViewSortedRenderPhases {
    pub phases: crate::dense_map::DenseMap<SortedRenderPhase>,
}

/// What the main transparent pass reads of a view.
pub struct TransparentPassView<'a> {
    /// The entity of the view.
    pub view_entity: u64,
    pub camera: &'a ExtractedCamera,
    pub target: &'a ViewTarget,
    pub depth: &'a ViewDepthTexture,
    /// Whether the view takes part in picking on the GPU.
    pub gpu_picking_camera: bool,
    pub mesh_id_textures: Option<VisibleMeshIdTextures>,
}

/// The colour attachments of the transparent pass: the target of the view,
/// which keeps what the earlier passes have written, and after it the mesh
/// identifiers where the view has them, which were cleared in the opaque
/// pass and are kept too.
pub open spec fn transparent_color_attachments(view: TransparentPassView) -> Seq<
    Option<RenderPassColorAttachment>,
> {
    seq![
        Some(
            view.target.spec_get_color_attachment(
                Operations { load: LoadOp::Load, store: StoreOp::Store },
            ),
        ),
    ] + mesh_id_attachment(view.gpu_picking_camera, view.mesh_id_textures, LoadOp::Load)
}

/// The depth attachment of the transparent pass, which loads the depth
/// buffer, so that opaque meshes occlude transparent ones.
pub open spec fn transparent_depth_attachment(view: TransparentPassView)
    -> RenderPassDepthStencilAttachment {
    RenderPassDepthStencilAttachment {
        view: view.depth.view,
        depth_ops: Some(Operations { load: LoadOp::Load, store: StoreOp::Store }),
        stencil_ops: None,
    }
}

/// Whether the transparent pass has work for a view: there are sorted
/// phases in this frame, the view has one, and it holds something.
pub open spec fn transparent_pass_runs(
    view: TransparentPassView,
    transparent_phases: Option<&ViewSortedRenderPhases>,
) -> bool {
    &&& transparent_phases.is_some()
    &&& transparent_phases.unwrap().phases@.contains_key(view.view_entity)
    &&& transparent_phases.unwrap().phases@[view.view_entity].items@.len() > 0
}

/// Whether `task` is the task of the transparent pass of a view for which
/// the pass runs.
pub open spec fn is_transparent_task(
    task: CommandBufferTask,
    view: TransparentPassView,
    transparent_phases: Option<&ViewSortedRenderPhases>,
) -> bool {
    &&& task.encoder_label == "main_transparent_pass_3d_command_encoder"
    &&& task.descriptor.label == "main_transparent_pass_3d"
    &&& task.descriptor.color_attachments@ == transparent_color_attachments(view)
    &&& task.descriptor.depth_stencil_attachment == Some(transparent_depth_attachment(view))
    &&& task.commands@ == viewport_commands(*view.camera) + item_commands(
        transparent_phases.unwrap().phases@[view.view_entity].items@,
    )
}

/// A render graph node that runs the transparent sorted phase of a view.
#[derive(Default)]
pub struct MainTransparentPass3dNode;

impl MainTransparentPass3dNode {
    /// Sets up the main transparent pass of a view.
    ///
    /// Where this frame has no sorted phases, or none for the view, or one
    /// that holds nothing, the pass is skipped: there is no task, and that
    /// is no error. Else the task begins the pass with the attachments of
    /// the view, all of which keep what they hold, and records one draw for
    /// each item of the phase, in the order of the phase, which is from back
    /// to front once the phase is sorted. Nothing of the scene is changed.
    pub fn run(
        &self,
        view: &TransparentPassView,
        transparent_phases: Option<&ViewSortedRenderPhases>,
    ) -> (task: Option<CommandBufferTask>)
        requires
            transparent_phases.is_some() ==> transparent_phases.unwrap().phases.wf(),
        ensures
            task.is_some() <==> transparent_pass_runs(*view, transparent_phases),
            task.is_some() ==> is_transparent_task(task.unwrap(), *view, transparent_phases),
    {
        let transparent_phases = match transparent_phases {
            Some(transparent_phases) => transparent_phases,
            None => {
                return None;
            },
        };
        let transparent_phase = match transparent_phases.phases.get(view.view_entity) {
            Some(transparent_phase) => transparent_phase,
            None => {
                return None;
            },
        };
        if transparent_phase.is_empty() {
            return None;
        }
        // Run the transparent pass, sorted back-to-front
        // NOTE: The transparent pass loads the color buffer as well as overwriting it
        // where appropriate.
        let mut color_attachments: Vec<Option<RenderPassColorAttachment>> = Vec::new();
        color_attachments.push(
            Some(
                view.target.get_color_attachment(
                    Operations { load: LoadOp::Load, store: StoreOp::Store },
                ),
            ),
        );
        // The texture is already cleared in the opaque pass
        push_mesh_ids(
            &mut color_attachments,
            view.gpu_picking_camera,
            view.mesh_id_textures,
            LoadOp::Load,
        );
        proof {
            assert(color_attachments@ =~= transparent_color_attachments(*view));
        }
        // NOTE: For the transparent pass we load the depth buffer. There should be no
        // need to write to it, but what is written is stored, so that the depth
        // buffer is not cleared.
        // As the opaque and alpha mask passes run first, opaque meshes can occlude
        // transparent ones.
        let depth_stencil_attachment = Some(
            RenderPassDepthStencilAttachment {
                view: view.depth.view,
                depth_ops: Some(Operations { load: LoadOp::Load, store: StoreOp::Store }),
                stencil_ops: None,
            },
        );
        let mut commands: Vec<PassCommand> = Vec::new();
        push_viewport(&mut commands, view.camera);
        let ghost before = commands@;
        let draws = transparent_phase.render();
        let mut position: usize = 0;
        while position < draws.len()
            invariant
                position <= draws@.len(),
                draws@ == transparent_phase.items@.map_values(|item: SortedItem| item.entity),
                commands@ == before + item_commands(transparent_phase.items@).subrange(
                    0,
                    position as int,
                ),
            decreases draws@.len() - position,
        {
            commands.push(PassCommand::DrawItem(draws[position]));
            proof {
                assert(item_commands(transparent_phase.items@).subrange(0, position as int + 1)
                    =~= item_commands(transparent_phase.items@).subrange(
                    0,
                    position as int,
                ).push(PassCommand::DrawItem(draws@[position as int])));
            }
            position = position + 1;
        }
        proof {
            assert(item_commands(transparent_phase.items@).subrange(0, position as int)
                =~= item_commands(transparent_phase.items@));
        }
        Some(
            CommandBufferTask {
                encoder_label: "main_transparent_pass_3d_command_encoder",
                descriptor: RenderPassDescriptor {
                    label: "main_transparent_pass_3d",
                    color_attachments,
                    depth_stencil_attachment,
                },
                commands,
            },
        )
    }
}

} // verus!
