//! Descriptions of bind group layouts and of bind groups, as plain data.
//!
//! Nothing here touches the GPU: a descriptor says what is to be created,
//! and whoever owns the device creates it.

use crate::slab::{Sampler, TextureView};
use vstd::prelude::*;

verus! {

/// The shader stages that can see a binding, as a set of bits.
#[derive(Clone, Copy, Debug, PartialEq, Eq, Structural, Hash)]
pub struct ShaderStages {
    pub bits: u32,
}

impl ShaderStages {
    /// No stage.
    pub open spec fn spec_empty() -> ShaderStages {
        ShaderStages { bits: 0 }
    }

    /// The vertex stage.
    pub open spec fn spec_vertex() -> ShaderStages {
        ShaderStages { bits: 1 }
    }

    /// The fragment stage.
    pub open spec fn spec_fragment() -> ShaderStages {
        ShaderStages { bits: 2 }
    }

    /// The vertex stage and the fragment stage.
    pub open spec fn spec_vertex_fragment() -> ShaderStages {
        ShaderStages { bits: 3 }
    }

    /// No stage.
    #[verifier::when_used_as_spec(spec_empty)]
    pub fn empty() -> (stages: ShaderStages)
        ensures
            stages == Self::spec_empty(),
    {
        ShaderStages { bits: 0 }
    }

    /// The vertex stage.
    #[verifier::when_used_as_spec(spec_vertex)]
    pub fn vertex() -> (stages: ShaderStages)
        ensures
            stages == Self::spec_vertex(),
    {
        ShaderStages { bits: 1 }
    }

    /// The fragment stage.
    #[verifier::when_used_as_spec(spec_fragment)]
    pub fn fragment() -> (stages: ShaderStages)
        ensures
            stages == Self::spec_fragment(),
    {
        ShaderStages { bits: 2 }
    }

    /// The vertex stage and the fragment stage.
    #[verifier::when_used_as_spec(spec_vertex_fragment)]
    pub fn vertex_fragment() -> (stages: ShaderStages)
        ensures
            stages == Self::spec_vertex_fragment(),
    {
        ShaderStages { bits: 3 }
    }
}

/// How a buffer is bound.
#[derive(Clone, Copy, Debug, PartialEq, Eq, Structural, Hash)]
pub enum BufferBindingType {
    /// As a uniform buffer.
    Uniform,
    /// As a storage buffer.
    Storage { read_only: bool },
}

/// What a texture yields when it is sampled.
#[derive(Clone, Copy, Debug, PartialEq, Eq, Structural, Hash)]
pub enum TextureSampleType {
    Float { filterable: bool },
    Depth,
    Sint,
    Uint,
}

/// The dimensions of a texture view.
#[derive(Clone, Copy, Debug, PartialEq, Eq, Structural, Hash)]
pub enum TextureViewDimension {
    D1,
    D2,
    D2Array,
    Cube,
    CubeArray,
    D3,
}

/// What a sampler can do.
#[derive(Clone, Copy, Debug, PartialEq, Eq, Structural, Hash)]
pub enum SamplerBindingType {
    Filtering,
    NonFiltering,
    Comparison,
}

/// The type of one binding of a bind group layout.
#[derive(Clone, Copy, Debug, PartialEq, Eq, Structural, Hash)]
pub enum BindingType {
    Buffer { ty: BufferBindingType, has_dynamic_offset: bool, min_binding_size: Option<u64> },
    Sampler(SamplerBindingType),
    Texture {
        sample_type: TextureSampleType,
        view_dimension: TextureViewDimension,
        multisampled: bool,
    },
}

/// One binding of a bind group layout.
#[derive(Clone, Copy, Debug, PartialEq, Eq, Structural, Hash)]
pub struct BindGroupLayoutEntry {
    /// The index of the binding.
    pub binding: u32,
    /// The stages that can see the binding.
    pub visibility: ShaderStages,
    /// The type of the binding.
    pub ty: BindingType,
    /// The length of the binding array, where the binding is one.
    pub count: Option<u32>,
}

/// A binding of a bind group layout that has no index yet, and perhaps no
/// visibility of its own.
#[derive(Clone, Copy, Debug, PartialEq, Eq, Structural, Hash)]
pub struct BindGroupLayoutEntryBuilder {
    pub ty: BindingType,
    pub visibility: Option<ShaderStages>,
    pub count: Option<u32>,
}

impl BindGroupLayoutEntryBuilder {
    /// The same binding, with a visibility of its own.
    pub open spec fn spec_visibility(self, visibility: ShaderStages) -> Self {
        BindGroupLayoutEntryBuilder { visibility: Some(visibility), ..self }
    }

    /// The same binding, as a binding array of the given length.
    pub open spec fn spec_count(self, count: u32) -> Self {
        BindGroupLayoutEntryBuilder { count: Some(count), ..self }
    }

    /// The binding at an index: its visibility is its own where it has one,
    /// and the layout's default where it has none.
    pub open spec fn spec_build(self, binding: u32, default_visibility: ShaderStages)
        -> BindGroupLayoutEntry {
        BindGroupLayoutEntry {
            binding,
            visibility: match self.visibility {
                Some(visibility) => visibility,
                None => default_visibility,
            },
            ty: self.ty,
            count: self.count,
        }
    }

    /// The same binding, with a visibility of its own.
    #[verifier::when_used_as_spec(spec_visibility)]
    pub fn visibility(self, visibility: ShaderStages) -> (builder: Self)
        ensures
            builder == self.spec_visibility(visibility),
    {
        BindGroupLayoutEntryBuilder { visibility: Some(visibility), ..self }
    }

    /// The same binding, as a binding array of the given length, which is
    /// not zero.
    #[verifier::when_used_as_spec(spec_count)]
    pub fn count(self, count: u32) -> (builder: Self)
        requires
            count != 0,
        ensures
            builder == self.spec_count(count),
    {
        BindGroupLayoutEntryBuilder { count: Some(count), ..self }
    }

    /// The binding at an index.
    #[verifier::when_used_as_spec(spec_build)]
    pub fn build(self, binding: u32, default_visibility: ShaderStages) -> (entry:
        BindGroupLayoutEntry)
        ensures
            entry == self.spec_build(binding, default_visibility),
    {
        BindGroupLayoutEntry {
            binding,
            visibility: match self.visibility {
                Some(visibility) => visibility,
                None => default_visibility,
            },
            ty: self.ty,
            count: self.count,
        }
    }
}

/// A uniform buffer of at least the given size.
pub open spec fn spec_uniform_buffer_sized(has_dynamic_offset: bool, min_binding_size: Option<u64>)
    -> BindGroupLayoutEntryBuilder {
    BindGroupLayoutEntryBuilder {
        ty: BindingType::Buffer {
            ty: BufferBindingType::Uniform,
            has_dynamic_offset,
            min_binding_size,
        },
        visibility: None,
        count: None,
    }
}

/// A read-only storage buffer of at least the given size.
pub open spec fn spec_storage_buffer_read_only_sized(
    has_dynamic_offset: bool,
    min_binding_size: Option<u64>,
) -> BindGroupLayoutEntryBuilder {
    BindGroupLayoutEntryBuilder {
        ty: BindingType::Buffer {
            ty: BufferBindingType::Storage { read_only: true },
            has_dynamic_offset,
            min_binding_size,
        },
        visibility: None,
        count: None,
    }
}

/// A texture with a view of the given dimensions that is not multisampled.
pub open spec fn spec_texture(sample_type: TextureSampleType, view_dimension: TextureViewDimension)
    -> BindGroupLayoutEntryBuilder {
    BindGroupLayoutEntryBuilder {
        ty: BindingType::Texture { sample_type, view_dimension, multisampled: false },
        visibility: None,
        count: None,
    }
}

/// A sampler.
pub open spec fn spec_sampler(sampler_binding_type: SamplerBindingType)
    -> BindGroupLayoutEntryBuilder {
    BindGroupLayoutEntryBuilder {
        ty: BindingType::Sampler(sampler_binding_type),
        visibility: None,
        count: None,
    }
}

/// A uniform buffer of at least the given size.
#[verifier::when_used_as_spec(spec_uniform_buffer_sized)]
pub fn uniform_buffer_sized(has_dynamic_offset: bool, min_binding_size: Option<u64>) -> (builder:
    BindGroupLayoutEntryBuilder)
    ensures
        builder == spec_uniform_buffer_sized(has_dynamic_offset, min_binding_size),
{
    BindGroupLayoutEntryBuilder {
        ty: BindingType::Buffer {
            ty: BufferBindingType::Uniform,
            has_dynamic_offset,
            min_binding_size,
        },
        visibility: None,
        count: None,
    }
}

/// A read-only storage buffer of at least the given size.
#[verifier::when_used_as_spec(spec_storage_buffer_read_only_sized)]
pub fn storage_buffer_read_only_sized(
    has_dynamic_offset: bool,
    min_binding_size: Option<u64>,
) -> (builder: BindGroupLayoutEntryBuilder)
    ensures
        builder == spec_storage_buffer_read_only_sized(has_dynamic_offset, min_binding_size),
{
    BindGroupLayoutEntryBuilder {
        ty: BindingType::Buffer {
            ty: BufferBindingType::Storage { read_only: true },
            has_dynamic_offset,
            min_binding_size,
        },
        visibility: None,
        count: None,
    }
}

/// A two-dimensional texture.
pub fn texture_2d(sample_type: TextureSampleType) -> (builder: BindGroupLayoutEntryBuilder)
    ensures
        builder == spec_texture(sample_type, TextureViewDimension::D2),
{
    BindGroupLayoutEntryBuilder {
        ty: BindingType::Texture {
            sample_type,
            view_dimension: TextureViewDimension::D2,
            multisampled: false,
        },
        visibility: None,
        count: None,
    }
}

/// A three-dimensional texture.
pub fn texture_3d(sample_type: TextureSampleType) -> (builder: BindGroupLayoutEntryBuilder)
    ensures
        builder == spec_texture(sample_type, TextureViewDimension::D3),
{
    BindGroupLayoutEntryBuilder {
        ty: BindingType::Texture {
            sample_type,
            view_dimension: TextureViewDimension::D3,
            multisampled: false,
        },
        visibility: None,
        count: None,
    }
}

/// A sampler.
#[verifier::when_used_as_spec(spec_sampler)]
pub fn sampler(sampler_binding_type: SamplerBindingType) -> (builder: BindGroupLayoutEntryBuilder)
    ensures
        builder == spec_sampler(sampler_binding_type),
{
    BindGroupLayoutEntryBuilder {
        ty: BindingType::Sampler(sampler_binding_type),
        visibility: None,
        count: None,
    }
}

/// A bind group layout that is to be created: its label and its bindings.
#[derive(Debug, PartialEq, Eq)]
pub struct BindGroupLayoutDescriptor {
    pub label: &'static str,
    pub entries: Vec<BindGroupLayoutEntry>,
}

/// The bindings of a layout, each built at its index with the layout's
/// default visibility.
pub open spec fn built_entries(
    default_visibility: ShaderStages,
    entries: Seq<(u32, BindGroupLayoutEntryBuilder)>,
) -> Seq<BindGroupLayoutEntry> {
    entries.map_values(
        |entry: (u32, BindGroupLayoutEntryBuilder)| entry.1.spec_build(entry.0, default_visibility),
    )
}

impl BindGroupLayoutDescriptor {
    /// The layout with the given label and bindings, each binding built at
    /// its index with the default visibility.
    pub fn with_indices(
        label: &'static str,
        default_visibility: ShaderStages,
        entries: Vec<(u32, BindGroupLayoutEntryBuilder)>,
    ) -> (descriptor: BindGroupLayoutDescriptor)
        ensures
            descriptor.label == label,
            descriptor.entries@ == built_entries(default_visibility, entries@),
    {
        let mut built: Vec<BindGroupLayoutEntry> = Vec::new();
        let mut position: usize = 0;
        while position < entries.len()
            invariant
                position <= entries@.len(),
                built@.len() == position,
                forall|earlier: int|
                    0 <= earlier < position ==> #[trigger] built@[earlier]
                        == entries@[earlier].1.spec_build(entries@[earlier].0, default_visibility),
            decreases entries@.len() - position,
        {
            let entry = entries[position];
            built.push(entry.1.build(entry.0, default_visibility));
            position = position + 1;
        }
        proof {
            assert(built@ =~= built_entries(default_visibility, entries@));
        }
        BindGroupLayoutDescriptor { label, entries: built }
    }

    /// The layout with the given label and one binding, at index zero.
    pub fn single(
        label: &'static str,
        visibility: ShaderStages,
        entry: BindGroupLayoutEntryBuilder,
    ) -> (descriptor: BindGroupLayoutDescriptor)
        ensures
            descriptor.label == label,
            descriptor.entries@ == seq![entry.spec_build(0, visibility)],
    {
        let mut built: Vec<BindGroupLayoutEntry> = Vec::new();
        built.push(entry.build(0, visibility));
        proof {
            assert(built@ =~= seq![entry.spec_build(0, visibility)]);
        }
        BindGroupLayoutDescriptor { label, entries: built }
    }
}

/// A handle to a buffer on the GPU.
#[derive(Clone, Copy, Debug, PartialEq, Eq, Structural, Hash)]
pub struct Buffer {
    pub id: u64,
}

/// What is bound at one binding of a bind group.
#[derive(Debug, PartialEq, Eq)]
pub enum BindingResource {
    /// A range of a buffer: from `offset`, of `size` bytes, or to the
    /// buffer's end where no size is given.
    Buffer { buffer: Buffer, offset: u64, size: Option<u64> },
    TextureView(TextureView),
    Sampler(Sampler),
    TextureViewArray(Vec<TextureView>),
    SamplerArray(Vec<Sampler>),
}

/// A `BindingResource` with its arrays as sequences.
pub ghost enum BindingResourceView {
    Buffer { buffer: Buffer, offset: u64, size: Option<u64> },
    TextureView(TextureView),
    Sampler(Sampler),
    TextureViewArray(Seq<TextureView>),
    SamplerArray(Seq<Sampler>),
}

impl View for BindingResource {
    type V = BindingResourceView;

    open spec fn view(&self) -> BindingResourceView {
        match *self {
            BindingResource::Buffer { buffer, offset, size } => BindingResourceView::Buffer {
                buffer,
                offset,
                size,
            },
            BindingResource::TextureView(texture) => BindingResourceView::TextureView(texture),
            BindingResource::Sampler(sampler) => BindingResourceView::Sampler(sampler),
            BindingResource::TextureViewArray(textures) => BindingResourceView::TextureViewArray(
                textures@,
            ),
            BindingResource::SamplerArray(samplers) => BindingResourceView::SamplerArray(
                samplers@,
            ),
        }
    }
}

/// A copy of a vector of values that can be copied.
fn copy_of<T: Copy>(values: &Vec<T>) -> (copy: Vec<T>)
    ensures
        copy@ == values@,
{
    let mut copy: Vec<T> = Vec::new();
    let mut position: usize = 0;
    while position < values.len()
        invariant
            position <= values@.len(),
            copy@ =~= values@.subrange(0, position as int),
        decreases values@.len() - position,
    {
        copy.push(values[position]);
        position = position + 1;
    }
    proof {
        assert(values@.subrange(0, position as int) =~= values@);
    }
    copy
}

impl BindingResource {
    /// A resource that binds the same.
    pub fn duplicate(&self) -> (copy: BindingResource)
        ensures
            copy@ == self@,
    {
        match self {
            BindingResource::Buffer { buffer, offset, size } => BindingResource::Buffer {
                buffer: *buffer,
                offset: *offset,
                size: *size,
            },
            BindingResource::TextureView(texture) => BindingResource::TextureView(*texture),
            BindingResource::Sampler(sampler) => BindingResource::Sampler(*sampler),
            BindingResource::TextureViewArray(textures) => BindingResource::TextureViewArray(
                copy_of(textures),
            ),
            BindingResource::SamplerArray(samplers) => BindingResource::SamplerArray(
                copy_of(samplers),
            ),
        }
    }
}

/// One binding of a bind group: an index and what is bound there.
#[derive(Debug, PartialEq, Eq)]
pub struct BindGroupEntry {
    pub binding: u32,
    pub resource: BindingResource,
}

/// A `BindGroupEntry` with its resource as a view.
pub ghost struct BindGroupEntryView {
    pub binding: u32,
    pub resource: BindingResourceView,
}

impl View for BindGroupEntry {
    type V = BindGroupEntryView;

    open spec fn view(&self) -> BindGroupEntryView {
        BindGroupEntryView { binding: self.binding, resource: self.resource@ }
    }
}

/// A bind group that is to be created: its label, the layout it follows,
/// and its bindings.
#[derive(Debug, PartialEq, Eq)]
pub struct BindGroup<'a> {
    pub label: &'static str,
    pub layout: &'a BindGroupLayoutDescriptor,
    pub entries: Vec<BindGroupEntry>,
}

impl<'a> BindGroup<'a> {
    /// The bindings of the bind group.
    pub open spec fn bindings(&self) -> Seq<BindGroupEntryView> {
        self.entries@.map_values(|entry: BindGroupEntry| entry@)
    }
}

} // verus!
