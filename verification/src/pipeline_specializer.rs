//! Traits for pipelines that come in variants, one for each value of a key.

use crate::pipeline_cache::{ComputePipelineDescriptor, RenderPipelineDescriptor};
use vstd::prelude::*;

verus! {

/// A trait that allows constructing different variants of a render pipeline
/// from a key.
///
/// Note: This is intended for modifying your pipeline descriptor on the basis
/// of a key. If your key contains no data then you don't need to specialize.
pub trait SpecializedRenderPipeline {
    /// The key that defines each "variant" of the render pipeline.
    type Key: Clone + core::hash::Hash + PartialEq + Eq;

    /// Construct a new render pipeline based on the provided key.
    fn specialize(&self, key: Self::Key) -> RenderPipelineDescriptor;
}

/// A trait that allows constructing different variants of a compute pipeline
/// from a key.
///
/// Note: This is intended for modifying your pipeline descriptor on the basis
/// of a key. If your key contains no data then you don't need to specialize.
pub trait SpecializedComputePipeline {
    /// The key that defines each "variant" of the compute pipeline.
    type Key: Clone + core::hash::Hash + PartialEq + Eq;

    /// Construct a new compute pipeline based on the provided key.
    fn specialize(&self, key: Self::Key) -> ComputePipelineDescriptor;
}

/// A vertex attribute that a pipeline needs and a mesh lacks.
#[derive(Clone, Copy, Debug, PartialEq, Eq, Structural, Hash)]
pub struct MissingVertexAttributeError {
    /// The identifier of the attribute.
    pub attribute_id: u64,
}

/// Why a mesh pipeline could not be specialized.
#[derive(Clone, Copy, Debug, PartialEq, Eq, Structural, Hash)]
pub enum SpecializedMeshPipelineError {
    MissingVertexAttribute(MissingVertexAttributeError),
}

/// The layout of the vertex buffer of a mesh: the identifiers of its
/// attributes, in order.
#[derive(Debug)]
pub struct MeshVertexBufferLayoutRef {
    pub attribute_ids: Vec<u64>,
}

/// A trait that allows constructing different variants of a render pipeline
/// from a key and the particular mesh's vertex buffer layout.
pub trait SpecializedMeshPipeline {
    /// The key that defines each "variant" of the render pipeline.
    type Key: Clone + core::hash::Hash + PartialEq + Eq;

    /// Construct a new render pipeline based on the provided key and vertex
    /// layout.
    ///
    /// The returned pipeline descriptor should have a single vertex buffer,
    /// which is derived from `layout`.
    fn specialize(&self, key: Self::Key, layout: &MeshVertexBufferLayoutRef) -> Result<
        RenderPipelineDescriptor,
        SpecializedMeshPipelineError,
    >;
}

} // verus!
