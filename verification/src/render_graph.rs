//! The passes of a view in their order, and what plugins add to an app.

use crate::core_3d::{
    is_opaque_task, is_transparent_task, opaque_pass_runs, transparent_pass_runs,
    MainOpaquePass3dNode, MainTransparentPass3dNode, OpaquePassView, TransparentPassView,
    ViewSortedRenderPhases, World,
};
use crate::render_pass::{CommandBufferTask, VisibleMeshIdTextures};
use crate::render_resource::Buffer;
use crate::slab::TextureView;
use vstd::prelude::*;

verus! {

/// The nodes of the render graph of a view in three dimensions.
#[derive(Clone, Copy, Debug, PartialEq, Eq, Structural, Hash)]
pub enum Node3d {
    /// The opaque pass, which draws the opaque meshes and then the
    /// alpha-masked ones.
    MainOpaquePass,
    /// The pass for meshes that transmit light, where there are any.
    MainTransmissivePass,
    /// The pass for transparent meshes.
    MainTransparentPass,
    /// The pass that scales the view up to its target.
    Upscaling,
    /// The copy of the mesh identifiers into a buffer that the CPU can read.
    EntityIndexBufferCopy,
}

impl Node3d {
    /// The place of a node in the order of the passes.
    pub open spec fn rank(self) -> int {
        match self {
            Node3d::MainOpaquePass => 0,
            Node3d::MainTransmissivePass => 1,
            Node3d::MainTransparentPass => 2,
            Node3d::Upscaling => 3,
            Node3d::EntityIndexBufferCopy => 4,
        }
    }

    /// What `next` returns.
    pub open spec fn spec_next(self) -> Option<Node3d> {
        match self {
            Node3d::MainOpaquePass => Some(Node3d::MainTransmissivePass),
            Node3d::MainTransmissivePass => Some(Node3d::MainTransparentPass),
            Node3d::MainTransparentPass => Some(Node3d::Upscaling),
            Node3d::Upscaling => Some(Node3d::EntityIndexBufferCopy),
            Node3d::EntityIndexBufferCopy => None,
        }
    }

    /// The node that runs after this one, if this is not the last. The
    /// order is fixed, because a later pass reads what an earlier pass has
    /// written.
    #[verifier::when_used_as_spec(spec_next)]
    pub fn next(self) -> (next: Option<Node3d>)
        ensures
            next == self.spec_next(),
            next.is_some() ==> next.unwrap().rank() == self.rank() + 1,
            next.is_none() <==> self == Node3d::EntityIndexBufferCopy,
    {
        match self {
            Node3d::MainOpaquePass => Some(Node3d::MainTransmissivePass),
            Node3d::MainTransmissivePass => Some(Node3d::MainTransparentPass),
            Node3d::MainTransparentPass => Some(Node3d::Upscaling),
            Node3d::Upscaling => Some(Node3d::EntityIndexBufferCopy),
            Node3d::EntityIndexBufferCopy => None,
        }
    }
}

/// The camera of a view that takes part in picking on the GPU: the buffers
/// that the mesh identifiers are copied into, in turn.
pub struct ExtractedGpuPickingCamera {
    pub buffers: Vec<Buffer>,
}

/// Which of the buffers of a picking camera is written in this frame.
#[derive(Clone, Copy, Debug, PartialEq, Eq, Structural, Hash)]
pub struct CurrentGpuPickingBufferIndex(pub usize);

impl CurrentGpuPickingBufferIndex {
    /// The index for the next frame, where the buffers are `count` many:
    /// the next buffer, and after the last buffer the first again.
    pub fn toggle(&self, count: usize) -> (next: CurrentGpuPickingBufferIndex)
        requires
            count > 0,
            self.0 < count,
        ensures
            next.0 == if self.0 + 1 == count {
                0
            } else {
                self.0 + 1
            },
            next.0 < count,
    {
        if self.0 + 1 == count {
            CurrentGpuPickingBufferIndex(0)
        } else {
            CurrentGpuPickingBufferIndex(self.0 + 1)
        }
    }
}

/// A copy of a texture into a buffer.
#[derive(Clone, Copy, Debug, PartialEq, Eq, Hash)]
pub struct CopyTextureToBuffer {
    pub source: TextureView,
    pub destination: Buffer,
}

/// The node that copies the mesh identifiers of a view into the buffer of
/// this frame.
#[derive(Default)]
pub struct EntityIndexBufferCopyNode;

impl EntityIndexBufferCopyNode {
    /// The copy for a view: from the texture of mesh identifiers into the
    /// buffer that the index of this frame selects, which must be one of
    /// the camera's buffers.
    pub fn run(
        &self,
        mesh_id_textures: &VisibleMeshIdTextures,
        gpu_picking_camera: &ExtractedGpuPickingCamera,
        current_buffer_index: &CurrentGpuPickingBufferIndex,
    ) -> (copy: CopyTextureToBuffer)
        requires
            current_buffer_index.0 < gpu_picking_camera.buffers@.len(),
        ensures
            copy == (CopyTextureToBuffer {
                source: mesh_id_textures.main,
                destination: gpu_picking_camera.buffers@[current_buffer_index.0 as int],
            }),
    {
        CopyTextureToBuffer {
            source: mesh_id_textures.main,
            destination: gpu_picking_camera.buffers[current_buffer_index.0],
        }
    }
}

/// When a system runs.
#[derive(Clone, Copy, Debug, PartialEq, Eq, Structural, Hash)]
pub enum Schedule {
    /// Once, when the render world starts.
    RenderStartup,
    /// In every frame, while the scene is extracted.
    ExtractSchedule,
}

/// The systems that plugins of this crate add.
#[derive(Clone, Copy, Debug, PartialEq, Eq, Structural, Hash)]
pub enum System {
    InitRenderLightmaps,
    ExtractLightmaps,
    /// The systems that extract meshes, as a set.
    MeshExtractionSystems,
}

/// A system in a schedule, perhaps ordered after another.
#[derive(Clone, Copy, Debug, PartialEq, Eq, Hash)]
pub struct SystemRegistration {
    pub schedule: Schedule,
    pub system: System,
    pub after: Option<System>,
}

/// The render world's part of an app: its systems, and the nodes and edges
/// of its render graph.
pub struct SubApp {
    pub systems: Vec<SystemRegistration>,
    pub graph_nodes: Vec<Node3d>,
    /// Each edge says that its first node runs before its second.
    pub graph_edges: Vec<(Node3d, Node3d)>,
}

/// An app, as far as plugins of this crate change it.
pub struct App {
    /// The shader libraries that have been loaded, by file name.
    pub shader_libraries: Vec<&'static str>,
    /// The render world's part, if the app renders at all.
    pub render_app: Option<SubApp>,
}

/// The plugin that adds the copy of mesh identifiers to the render graph.
pub struct EntityIndexBufferCopyPlugin;

impl EntityIndexBufferCopyPlugin {
    /// Adds the node for the copy to the render graph, with an edge that
    /// places it after upscaling. An app that does not render is left as it
    /// is.
    pub fn build(&self, app: &mut App)
        ensures
            final(app).shader_libraries@ == old(app).shader_libraries@,
            final(app).render_app.is_some() == old(app).render_app.is_some(),
            final(app).render_app.is_some() ==> {
                let before = old(app).render_app.unwrap();
                let after = final(app).render_app.unwrap();
                &&& after.systems@ == before.systems@
                &&& after.graph_nodes@ == before.graph_nodes@.push(Node3d::EntityIndexBufferCopy)
                &&& after.graph_edges@ == before.graph_edges@.push(
                    (Node3d::Upscaling, Node3d::EntityIndexBufferCopy),
                )
            },
    {
        match &mut app.render_app {
            Some(render_app) => {
                render_app.graph_nodes.push(Node3d::EntityIndexBufferCopy);
                render_app.graph_edges.push((Node3d::Upscaling, Node3d::EntityIndexBufferCopy));
            },
            None => {},
        }
    }
}

/// A plugin that provides an implementation of lightmaps.
pub struct LightmapPlugin;

impl LightmapPlugin {
    /// Loads the shader library for lightmaps, and adds the two systems
    /// that keep the lightmaps of the render world: the one that sets them
    /// up when the render world starts, and the one that brings them up to
    /// date in every frame, after the meshes are extracted. An app that
    /// does not render gets the shader library and nothing else.
    pub fn build(&self, app: &mut App)
        ensures
            final(app).shader_libraries@ == old(app).shader_libraries@.push("lightmap.wgsl"),
            final(app).render_app.is_some() == old(app).render_app.is_some(),
            final(app).render_app.is_some() ==> {
                let before = old(app).render_app.unwrap();
                let after = final(app).render_app.unwrap();
                &&& after.graph_nodes@ == before.graph_nodes@
                &&& after.graph_edges@ == before.graph_edges@
                &&& after.systems@ == before.systems@.push(
                    SystemRegistration {
                        schedule: Schedule::RenderStartup,
                        system: System::InitRenderLightmaps,
                        after: None,
                    },
                ).push(
                    SystemRegistration {
                        schedule: Schedule::ExtractSchedule,
                        system: System::ExtractLightmaps,
                        after: Some(System::MeshExtractionSystems),
                    },
                )
            },
    {
        app.shader_libraries.push("lightmap.wgsl");
        match &mut app.render_app {
            Some(render_app) => {
                render_app.systems.push(
                    SystemRegistration {
                        schedule: Schedule::RenderStartup,
                        system: System::InitRenderLightmaps,
                        after: None,
                    },
                );
                render_app.systems.push(
                    SystemRegistration {
                        schedule: Schedule::ExtractSchedule,
                        system: System::ExtractLightmaps,
                        after: Some(System::MeshExtractionSystems),
                    },
                );
            },
            None => {},
        }
    }
}

/// What one node of the render graph has set up for a view.
#[derive(Debug, PartialEq, Eq)]
pub enum PassWork {
    /// A render pass, to be encoded into a command buffer.
    Render(CommandBufferTask),
    /// A copy of mesh identifiers.
    Copy(CopyTextureToBuffer),
}

/// What the nodes of the render graph read of a view.
pub struct ViewPasses<'a> {
    pub opaque: OpaquePassView<'a>,
    pub transparent: TransparentPassView<'a>,
    /// The camera for picking on the GPU, if the view has one.
    pub gpu_picking_camera: Option<&'a ExtractedGpuPickingCamera>,
}

/// Whether the copy of mesh identifiers runs for a view: the view has the
/// texture of mesh identifiers and a picking camera.
pub open spec fn copy_runs(view: ViewPasses) -> bool {
    view.opaque.mesh_id_textures.is_some() && view.gpu_picking_camera.is_some()
}

/// The nodes that have work for a view, in the order of the passes.
pub open spec fn nodes_with_work(
    view: ViewPasses,
    transparent_phases: Option<&ViewSortedRenderPhases>,
) -> Seq<Node3d> {
    (if opaque_pass_runs(view.opaque) {
        seq![Node3d::MainOpaquePass]
    } else {
        seq![]
    }) + (if transparent_pass_runs(view.transparent, transparent_phases) {
        seq![Node3d::MainTransparentPass]
    } else {
        seq![]
    }) + (if copy_runs(view) {
        seq![Node3d::EntityIndexBufferCopy]
    } else {
        seq![]
    })
}

/// Whether `work` is what its node sets up for a view: for the opaque pass
/// and the transparent pass the task of the pass, for the copy of mesh
/// identifiers the copy into the buffer of this frame.
pub open spec fn is_work_of(
    work: (Node3d, PassWork),
    view: ViewPasses,
    world: World,
    transparent_phases: Option<&ViewSortedRenderPhases>,
    current_buffer_index: CurrentGpuPickingBufferIndex,
) -> bool {
    match work {
        (Node3d::MainOpaquePass, PassWork::Render(task)) => is_opaque_task(
            task,
            view.opaque,
            world,
        ),
        (Node3d::MainTransparentPass, PassWork::Render(task)) => is_transparent_task(
            task,
            view.transparent,
            transparent_phases,
        ),
        (Node3d::EntityIndexBufferCopy, PassWork::Copy(copy)) => copy_runs(view) && copy == (
        CopyTextureToBuffer {
            source: view.opaque.mesh_id_textures.unwrap().main,
            destination: view.gpu_picking_camera.unwrap().buffers@[current_buffer_index.0 as int],
        }),
        _ => false,
    }
}

/// Sets up the passes of one view, in their order: the opaque pass, the
/// transparent pass, the copy of mesh identifiers. A pass that has nothing
/// to work on is skipped, and the others run all the same. What comes back
/// is the work of each pass that ran, in the order in which the command
/// buffers have to be submitted.
pub fn run_view_passes(
    view: &ViewPasses,
    world: &World,
    transparent_phases: Option<&ViewSortedRenderPhases>,
    current_buffer_index: &CurrentGpuPickingBufferIndex,
) -> (work: Vec<(Node3d, PassWork)>)
    requires
        view.opaque.opaque_phase.is_some() ==> view.opaque.opaque_phase.unwrap()@.instance_count()
            <= usize::MAX,
        view.opaque.alpha_mask_phase.is_some()
            ==> view.opaque.alpha_mask_phase.unwrap()@.instance_count() <= usize::MAX,
        transparent_phases.is_some() ==> transparent_phases.unwrap().phases.wf(),
        view.gpu_picking_camera.is_some() ==> current_buffer_index.0
            < view.gpu_picking_camera.unwrap().buffers@.len(),
    ensures
        work@.map_values(|done: (Node3d, PassWork)| done.0) == nodes_with_work(
            *view,
            transparent_phases,
        ),
        forall|first: int, second: int|
            0 <= first < second < work@.len() ==> work@[first].0.rank() < work@[second].0.rank(),
        forall|position: int|
            0 <= position < work@.len() ==> is_work_of(
                #[trigger] work@[position],
                *view,
                *world,
                transparent_phases,
                *current_buffer_index,
            ),
{
    let mut work: Vec<(Node3d, PassWork)> = Vec::new();
    match MainOpaquePass3dNode.run(&view.opaque, world) {
        Some(task) => {
            work.push((Node3d::MainOpaquePass, PassWork::Render(task)));
        },
        None => {},
    }
    match MainTransparentPass3dNode.run(&view.transparent, transparent_phases) {
        Some(task) => {
            work.push((Node3d::MainTransparentPass, PassWork::Render(task)));
        },
        None => {},
    }
    match (&view.opaque.mesh_id_textures, view.gpu_picking_camera) {
        (Some(mesh_id_textures), Some(gpu_picking_camera)) => {
            let copy = EntityIndexBufferCopyNode.run(
                mesh_id_textures,
                gpu_picking_camera,
                current_buffer_index,
            );
            work.push((Node3d::EntityIndexBufferCopy, PassWork::Copy(copy)));
        },
        _ => {},
    }
    proof {
        assert(work@.map_values(|done: (Node3d, PassWork)| done.0) =~= nodes_with_work(
            *view,
            transparent_phases,
        ));
    }
    work
}

} // verus!
