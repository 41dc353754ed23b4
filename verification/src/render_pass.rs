//! Descriptions of render passes, and the tasks that encode them.
//!
//! A pass is set up on the render thread: the attachments and what is done
//! to them are decided there, from the state of the frame. What is left, the
//! encoding of the commands, is handed over as a task that owns all it
//! needs, so that it can run anywhere.

use crate::binned_phase::DrawBatch;
use crate::pipeline_cache::RenderPipeline;
use crate::slab::TextureView;
use vstd::prelude::*;

verus! {

/// A colour, as the bit patterns of its red, green, blue and alpha parts.
#[derive(Clone, Copy, Debug, PartialEq, Eq, Structural, Hash)]
pub struct Color {
    pub red: u32,
    pub green: u32,
    pub blue: u32,
    pub alpha: u32,
}

/// What is done to an attachment when a pass begins.
#[derive(Clone, Copy, Debug, PartialEq, Eq, Hash)]
pub enum LoadOp<V> {
    /// The attachment is filled with a value.
    Clear(V),
    /// The attachment keeps what it holds.
    Load,
}

/// What is done to an attachment when a pass ends.
#[derive(Clone, Copy, Debug, PartialEq, Eq, Structural, Hash)]
pub enum StoreOp {
    /// What the pass has written is kept.
    Store,
    /// What the pass has written is dropped.
    Discard,
}

/// What is done to an attachment when a pass begins and when it ends.
#[derive(Clone, Copy, Debug, PartialEq, Eq, Hash)]
pub struct Operations<V> {
    pub load: LoadOp<V>,
    pub store: StoreOp,
}

/// A colour attachment of a pass.
#[derive(Clone, Copy, Debug, PartialEq, Eq, Hash)]
pub struct RenderPassColorAttachment {
    /// The texture view that the pass writes to.
    pub view: TextureView,
    /// The texture view that receives the resolved output, if the view is
    /// multisampled.
    pub resolve_target: Option<TextureView>,
    pub ops: Operations<Color>,
}

/// The depth and stencil attachment of a pass. A depth stands as the bit
/// pattern of its number.
#[derive(Clone, Copy, Debug, PartialEq, Eq, Hash)]
pub struct RenderPassDepthStencilAttachment {
    pub view: TextureView,
    pub depth_ops: Option<Operations<u32>>,
    pub stencil_ops: Option<Operations<u32>>,
}

/// A render pass that is to be begun.
#[derive(Debug, PartialEq, Eq)]
pub struct RenderPassDescriptor {
    pub label: &'static str,
    pub color_attachments: Vec<Option<RenderPassColorAttachment>>,
    pub depth_stencil_attachment: Option<RenderPassDepthStencilAttachment>,
}

/// The part of the render target that a camera draws to.
#[derive(Clone, Copy, Debug, PartialEq, Eq, Hash)]
pub struct Viewport {
    pub physical_position: (u32, u32),
    pub physical_size: (u32, u32),
    /// The least and the greatest depth, as the bit patterns of the two
    /// numbers.
    pub depth: (u32, u32),
}

/// A handle to a bind group on the GPU.
#[derive(Clone, Copy, Debug, PartialEq, Eq, Structural, Hash)]
pub struct BindGroupId {
    pub id: u64,
}

/// One command of a render pass.
#[derive(Clone, Copy, Debug, PartialEq, Eq, Hash)]
pub enum PassCommand {
    /// Restrict drawing to the viewport of the camera.
    SetCameraViewport(Viewport),
    /// Draw a range of the instances of a binned phase.
    DrawBatch(DrawBatch),
    /// Draw one entity of a sorted phase.
    DrawItem(u64),
    /// Use a render pipeline for the draws that follow.
    SetRenderPipeline(RenderPipeline),
    /// Bind a bind group at an index, with two dynamic offsets.
    SetBindGroup { index: u32, bind_group: BindGroupId, offsets: (u32, u32) },
    /// Draw vertices from `vertices.0` up to `vertices.1`, for the
    /// instances from `instances.0` up to `instances.1`.
    Draw { vertices: (u32, u32), instances: (u32, u32) },
}

/// The encoding of one render pass, as a task that owns what it needs: the
/// pass that is to be begun and the commands that are recorded in it, in
/// order. Whoever runs the task gets one command buffer from it; the
/// command buffers of a view are submitted in the order of its passes.
#[derive(Debug, PartialEq, Eq)]
pub struct CommandBufferTask {
    /// The label of the command encoder.
    pub encoder_label: &'static str,
    pub descriptor: RenderPassDescriptor,
    pub commands: Vec<PassCommand>,
}

/// How the colour of a view is cleared.
#[derive(Clone, Copy, Debug, PartialEq, Eq, Hash)]
pub enum ClearColorConfig {
    /// With the clear colour of the world.
    Default,
    /// With a colour of the camera's own.
    Custom(Color),
    /// Not at all: the view keeps what it holds.
    Keep,
}

/// What is done to the depth buffer when the main pass of a camera begins.
#[derive(Clone, Copy, Debug, PartialEq, Eq, Hash)]
pub enum Camera3dDepthLoadOp {
    /// The depth buffer is filled with a depth, given as the bit pattern of
    /// its number.
    Clear(u32),
    /// The depth buffer keeps what it holds.
    Load,
}

impl Camera3dDepthLoadOp {
    /// The same as a load operation.
    pub open spec fn spec_into(self) -> LoadOp<u32> {
        match self {
            Camera3dDepthLoadOp::Clear(depth) => LoadOp::Clear(depth),
            Camera3dDepthLoadOp::Load => LoadOp::Load,
        }
    }

    /// The same as a load operation.
    #[verifier::when_used_as_spec(spec_into)]
    pub fn into(self) -> (load: LoadOp<u32>)
        ensures
            load == self.spec_into(),
    {
        match self {
            Camera3dDepthLoadOp::Clear(depth) => LoadOp::Clear(depth),
            Camera3dDepthLoadOp::Load => LoadOp::Load,
        }
    }
}

/// The settings of a camera in three dimensions that the main passes read.
#[derive(Clone, Copy, Debug, PartialEq, Eq, Hash)]
pub struct Camera3d {
    pub clear_color: ClearColorConfig,
    pub depth_load_op: Camera3dDepthLoadOp,
}

/// A camera as the render world sees it.
#[derive(Clone, Copy, Debug, PartialEq, Eq, Hash)]
pub struct ExtractedCamera {
    pub viewport: Option<Viewport>,
}

/// The texture that a view is rendered to.
#[derive(Clone, Copy, Debug, PartialEq, Eq, Hash)]
pub struct ViewTarget {
    /// The texture view that passes write to.
    pub view: TextureView,
    /// The texture view that receives the resolved output, if the view is
    /// multisampled.
    pub resolve_target: Option<TextureView>,
}

impl ViewTarget {
    /// What `get_color_attachment` returns.
    pub open spec fn spec_get_color_attachment(&self, ops: Operations<Color>)
        -> RenderPassColorAttachment {
        RenderPassColorAttachment { view: self.view, resolve_target: self.resolve_target, ops }
    }

    /// The colour attachment for a pass that writes to this target.
    pub fn get_color_attachment(&self, ops: Operations<Color>) -> (attachment:
        RenderPassColorAttachment)
        ensures
            attachment == self.spec_get_color_attachment(ops),
    {
        RenderPassColorAttachment { view: self.view, resolve_target: self.resolve_target, ops }
    }
}

/// The depth texture of a view.
#[derive(Clone, Copy, Debug, PartialEq, Eq, Hash)]
pub struct ViewDepthTexture {
    pub view: TextureView,
}

/// The texture that holds, for each pixel of a view, which mesh is visible
/// there.
#[derive(Clone, Copy, Debug, PartialEq, Eq, Hash)]
pub struct VisibleMeshIdTextures {
    pub main: TextureView,
}

impl VisibleMeshIdTextures {
    /// The colour that stands for "no mesh": all parts zero.
    pub open spec fn spec_clear_color() -> Color {
        Color { red: 0, green: 0, blue: 0, alpha: 0 }
    }

    /// The colour that stands for "no mesh".
    #[verifier::when_used_as_spec(spec_clear_color)]
    pub fn clear_color() -> (color: Color)
        ensures
            color == Self::spec_clear_color(),
    {
        Color { red: 0, green: 0, blue: 0, alpha: 0 }
    }

    /// What `get_color_attachment` returns.
    pub open spec fn spec_get_color_attachment(&self, ops: Operations<Color>)
        -> RenderPassColorAttachment {
        RenderPassColorAttachment { view: self.main, resolve_target: None, ops }
    }

    /// The colour attachment for a pass that writes mesh identifiers.
    pub fn get_color_attachment(&self, ops: Operations<Color>) -> (attachment:
        RenderPassColorAttachment)
        ensures
            attachment == self.spec_get_color_attachment(ops),
    {
        RenderPassColorAttachment { view: self.main, resolve_target: None, ops }
    }
}

} // verus!
