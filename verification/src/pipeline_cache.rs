//! Identifiers of cached pipelines, and descriptors of pipelines.

use crate::render_resource::BindGroupLayoutDescriptor;
use vstd::prelude::*;

verus! {

/// The index of a pipeline in a pipeline cache.
pub type CachedPipelineId = usize;

/// What a render pipeline is to be created from.
#[derive(Debug)]
pub struct RenderPipelineDescriptor {
    pub label: &'static str,
    pub layout: Vec<BindGroupLayoutDescriptor>,
}

/// What a compute pipeline is to be created from.
#[derive(Debug)]
pub struct ComputePipelineDescriptor {
    pub label: &'static str,
    pub layout: Vec<BindGroupLayoutDescriptor>,
}

/// A descriptor for a pipeline.
///
/// Used to store a heterogenous collection of render and compute pipeline
/// descriptors together.
#[derive(Debug)]
pub enum PipelineDescriptor {
    RenderPipelineDescriptor(Box<RenderPipelineDescriptor>),
    ComputePipelineDescriptor(Box<ComputePipelineDescriptor>),
}

/// Index of a cached render pipeline in a pipeline cache.
#[derive(Clone, Copy, Debug, PartialEq, Eq, Structural, Hash)]
pub struct CachedRenderPipelineId(pub CachedPipelineId);

impl CachedRenderPipelineId {
    /// An invalid cached render pipeline index, often used to initialize a
    /// variable.
    pub const INVALID: usize = usize::MAX;

    #[inline]
    pub fn id(&self) -> (id: usize)
        ensures
            id == self.0,
    {
        self.0
    }
}

/// Index of a cached compute pipeline in a pipeline cache.
#[derive(Clone, Copy, Debug, PartialEq, Eq, Structural, Hash)]
pub struct CachedComputePipelineId(pub CachedPipelineId);

impl CachedComputePipelineId {
    /// An invalid cached compute pipeline index, often used to initialize a
    /// variable.
    pub const INVALID: usize = usize::MAX;

    #[inline]
    pub fn id(&self) -> (id: usize)
        ensures
            id == self.0,
    {
        self.0
    }
}

/// A handle to a render pipeline on the GPU.
#[derive(Clone, Copy, Debug, PartialEq, Eq, Structural, Hash)]
pub struct RenderPipeline {
    pub id: u64,
}

/// The pipelines that have been asked for, each at the index that its
/// identifier holds: ready, or not ready yet.
pub struct PipelineCache {
    pub render_pipelines: Vec<Option<RenderPipeline>>,
}

impl PipelineCache {
    /// What `get_render_pipeline` returns.
    pub open spec fn spec_get_render_pipeline(&self, id: CachedRenderPipelineId) -> Option<
        RenderPipeline,
    > {
        if id.0 < self.render_pipelines@.len() {
            self.render_pipelines@[id.0 as int]
        } else {
            None
        }
    }

    /// The render pipeline with the given identifier, if the cache knows
    /// the identifier and the pipeline is ready.
    pub fn get_render_pipeline(&self, id: CachedRenderPipelineId) -> (pipeline: Option<
        RenderPipeline,
    >)
        ensures
            pipeline == self.spec_get_render_pipeline(id),
    {
        if id.0 < self.render_pipelines.len() {
            self.render_pipelines[id.0]
        } else {
            None
        }
    }
}

} // verus!
