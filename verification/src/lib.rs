//! The core of a mesh renderer that allocates GPU resources and batches
//! draws, frame by frame.
//!
//! - `slab`, `lightmaps`: slabs of lightmap slots with a bitmask of free
//!   slots each, and the allocator that hands slots out and takes them back.
//! - `model`, `laws`: what the allocator and the table of lightmapped
//!   entities stand for, and what holds of them whatever is done.
//! - `mesh_batch`, `binned_phase`, `sorted_phase`: the record and the batch
//!   key of a mesh instance, and the phases that group or order instances.
//! - `core_3d`, `render_graph`: the passes of a view, in their order.
//! - `mesh_bindings`, `render_resource`, `mesh`, `material`: layouts, bind
//!   groups, flags and keys of the mesh pipeline.
//!
//! Nothing here touches the GPU or the scene: every function takes plain
//! values and gives plain values back, and says exactly which.

pub mod binned_phase;
pub mod bitset;
pub mod core_3d;
pub mod dense_map;
pub mod index;
pub mod labelled;
pub mod laws;
pub mod lightmaps;
pub mod material;
pub mod material_key;
pub mod mesh;
pub mod mesh_batch;
pub mod mesh_bindings;
pub mod model;
pub mod pipeline_cache;
pub mod pipeline_specializer;
pub mod render_graph;
pub mod render_lightmap;
pub mod render_pass;
pub mod render_resource;
pub mod renderer;
pub mod slab;
pub mod sorted_phase;
