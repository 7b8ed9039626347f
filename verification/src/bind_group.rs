//! Bind groups: the resources a shader sees at fixed slots.
//!
//! A bind group is a composite. Its layout and the handles it depends on are
//! fixed when it is built; what it resolves to is not. When a buffer or a
//! texture it depends on moves to a new allocation, the bind group is rebuilt
//! in place: same handle, same layout, bindings resolved anew.

use crate::buffer::{
    Buffer,
    BufferHandle,
    BufferView,
    ElementType,
    buffer_views,
    map_alignment,
    mapping_alignment,
};
use crate::error::{BuildError, ResourceKind};
use crate::handle::{Handle, Registry};
use crate::label::{borrowed_label, label_view, owned_label, text_view};
use crate::manager::RenderManager;
use crate::render_pipeline::buffers_known;
use crate::sampler::{TextureSampleHandle, TextureSampler};
use crate::state::ManagerView;
use crate::texture::{Texture, TextureFormat, TextureHandle, TextureSize, TextureView, texture_views};
use vstd::prelude::*;

verus! {

pub type BindGroupHandle = Handle<BindGroup>;

/// The shader stages a binding is visible to.
#[derive(Clone, Copy, Debug, PartialEq, Eq, Structural)]
pub struct ShaderStages {
    pub vertex: bool,
    pub fragment: bool,
    pub compute: bool,
}

#[derive(Clone, Copy, Debug, PartialEq, Eq, Structural)]
pub enum BufferBindingType {
    Uniform,
    Storage { read_only: bool },
}

#[derive(Clone, Copy, Debug, PartialEq, Eq, Structural)]
pub enum TextureSampleType {
    Float { filterable: bool },
    Depth,
    Sint,
    Uint,
}

#[derive(Clone, Copy, Debug, PartialEq, Eq, Structural)]
pub enum TextureViewDimension {
    D1,
    D2,
    D2Array,
    Cube,
    CubeArray,
    D3,
}

#[derive(Clone, Copy, Debug, PartialEq, Eq, Structural)]
pub enum StorageTextureAccess {
    WriteOnly,
    ReadOnly,
    ReadWrite,
}

#[derive(Clone, Copy, Debug, PartialEq, Eq, Structural)]
pub enum SamplerBindingType {
    Filtering,
    NonFiltering,
    Comparison,
}

/// The kind of resource a slot takes.
#[derive(Clone, Copy, Debug, PartialEq, Eq, Structural)]
pub enum BindingType {
    Buffer { ty: BufferBindingType, has_dynamic_offset: bool, min_binding_size: Option<u64> },
    Sampler(SamplerBindingType),
    Texture { sample_type: TextureSampleType, view_dimension: TextureViewDimension, multisampled: bool },
    StorageTexture { access: StorageTextureAccess, format: TextureFormat, view_dimension: TextureViewDimension },
}

/// One slot of a bind group layout.
#[derive(Clone, Copy, Debug, PartialEq, Eq, Structural)]
pub struct BindGroupLayoutEntry {
    pub binding: u32,
    pub visibility: ShaderStages,
    pub ty: BindingType,
}

/// The resource a slot is bound to, by handle.
#[derive(Clone, Copy, PartialEq, Eq)]
pub enum BindingTarget {
    Buffer(BufferHandle),
    Texture(TextureHandle),
    Sampler(TextureSampleHandle),
}

/// One slot of a bind group: what it takes, and what it is bound to.
#[derive(Clone, Copy, PartialEq, Eq)]
pub struct Binding {
    pub entry: BindGroupLayoutEntry,
    pub target: BindingTarget,
}

/// The allocation a slot was resolved to.
#[derive(Clone, Copy, PartialEq, Eq)]
pub enum BoundResource {
    Buffer { buffer: BufferHandle, generation: u64 },
    Texture { texture: TextureHandle, generation: u64 },
    Sampler { sampler: TextureSampleHandle },
}

/// One slot of the live instantiation of a bind group.
#[derive(Clone, Copy, PartialEq, Eq)]
pub struct ResolvedBinding {
    pub binding: u32,
    pub resource: BoundResource,
}

impl Binding {
    /// The slot takes the kind of resource it is bound to.
    pub open spec fn consistent(self) -> bool {
        match self.target {
            BindingTarget::Buffer(_) => self.entry.ty is Buffer,
            BindingTarget::Texture(_) => self.entry.ty is Texture || self.entry.ty is StorageTexture,
            BindingTarget::Sampler(_) => self.entry.ty is Sampler,
        }
    }

    /// The target names a resource among `buffers` buffers, `textures`
    /// textures and `samplers` samplers.
    pub open spec fn known(self, buffers: nat, textures: nat, samplers: nat) -> bool {
        match self.target {
            BindingTarget::Buffer(buffer) => buffer@ < buffers,
            BindingTarget::Texture(texture) => texture@ < textures,
            BindingTarget::Sampler(sampler) => sampler@ < samplers,
        }
    }

    /// The slot is not bound to a texture, or to one of `textures` textures.
    pub open spec fn texture_known(self, textures: nat) -> bool {
        match self.target {
            BindingTarget::Texture(texture) => texture@ < textures,
            _ => true,
        }
    }

    /// The slot is bound to a texture that follows the presentation surface.
    pub open spec fn follows_surface(self, textures: Seq<TextureView>) -> bool {
        match self.target {
            BindingTarget::Texture(texture) => textures[texture@ as int].size.surface_relative(),
            _ => false,
        }
    }

    /// The slot, resolved against the current allocations.
    pub open spec fn resolve(self, buffers: Seq<BufferView>, textures: Seq<TextureView>) -> ResolvedBinding {
        ResolvedBinding {
            binding: self.entry.binding,
            resource: match self.target {
                BindingTarget::Buffer(buffer) => BoundResource::Buffer {
                    buffer,
                    generation: buffers[buffer@ as int].generation,
                },
                BindingTarget::Texture(texture) => BoundResource::Texture {
                    texture,
                    generation: textures[texture@ as int].generation,
                },
                BindingTarget::Sampler(sampler) => BoundResource::Sampler { sampler },
            },
        }
    }
}

/// Every slot of `bindings`, resolved against the current allocations.
pub open spec fn resolution(bindings: Seq<Binding>, buffers: Seq<BufferView>, textures: Seq<TextureView>) -> Seq<
    ResolvedBinding,
> {
    Seq::new(bindings.len(), |i: int| bindings[i].resolve(buffers, textures))
}

/// What a [`BindGroup`] is, as plain values.
pub struct BindGroupView {
    pub name: Option<Seq<char>>,
    /// The layout and the dependencies, slot by slot in declared order.
    pub bindings: Seq<Binding>,
    /// The live instantiation.
    pub resolved: Seq<ResolvedBinding>,
}

impl BindGroupView {
    /// The compiled layout.
    pub open spec fn layout(self) -> Seq<BindGroupLayoutEntry> {
        Seq::new(self.bindings.len(), |i: int| self.bindings[i].entry)
    }

    /// Every slot takes the kind of resource it is bound to.
    pub open spec fn consistent(self) -> bool {
        forall|i: int| 0 <= i < self.bindings.len() ==> (#[trigger] self.bindings[i]).consistent()
    }

    /// Every dependency names a registered resource.
    pub open spec fn resolvable(self, buffers: nat, textures: nat, samplers: nat) -> bool {
        forall|i: int|
            0 <= i < self.bindings.len() ==> (#[trigger] self.bindings[i]).known(buffers, textures, samplers)
    }

    pub open spec fn depends_buffer(self, buffer: BufferHandle) -> bool {
        exists|i: int|
            0 <= i < self.bindings.len() && (#[trigger] self.bindings[i]).target == BindingTarget::Buffer(buffer)
    }

    pub open spec fn depends_texture(self, texture: TextureHandle) -> bool {
        exists|i: int|
            0 <= i < self.bindings.len() && (#[trigger] self.bindings[i]).target == BindingTarget::Texture(
                texture,
            )
    }

    /// Whether the bind group depends on a texture that follows the
    /// presentation surface.
    pub open spec fn follows_surface(self, textures: Seq<TextureView>) -> bool {
        exists|i: int| 0 <= i < self.bindings.len() && (#[trigger] self.bindings[i]).follows_surface(textures)
    }

    /// The bind group after it was rebuilt against the current allocations.
    pub open spec fn recreated(self, buffers: Seq<BufferView>, textures: Seq<TextureView>) -> BindGroupView {
        BindGroupView { resolved: resolution(self.bindings, buffers, textures), ..self }
    }

    /// Every slot points at the allocation that backs its resource now.
    pub open spec fn current(self, buffers: Seq<BufferView>, textures: Seq<TextureView>) -> bool {
        self.resolved == resolution(self.bindings, buffers, textures)
    }
}

/// A bind group that was just rebuilt points at the current allocations:
/// each buffer slot at the allocation that backs its buffer now, each texture
/// slot at the allocation that backs its texture now. Its layout and its
/// dependencies are those it had before.
pub proof fn lemma_recreated_current(group: BindGroupView, buffers: Seq<BufferView>, textures: Seq<TextureView>)
    ensures
        group.recreated(buffers, textures).current(buffers, textures),
        group.recreated(buffers, textures).bindings == group.bindings,
        group.recreated(buffers, textures).layout() == group.layout(),
        group.recreated(buffers, textures).name == group.name,
        group.recreated(buffers, textures).resolved.len() == group.bindings.len(),
        forall|i: int|
            0 <= i < group.bindings.len() ==> (#[trigger] group.recreated(buffers, textures).resolved[i])
                == group.bindings[i].resolve(buffers, textures),
{
}

/// Rebuilding is idempotent: as long as no dependency moves, rebuilding again
/// changes nothing.
pub proof fn lemma_recreated_twice(group: BindGroupView, buffers: Seq<BufferView>, textures: Seq<TextureView>)
    ensures
        group.recreated(buffers, textures).recreated(buffers, textures) == group.recreated(buffers, textures),
{
}

/// A bind group that is current, and whose dependencies did not move, is what
/// rebuilding it would give.
pub proof fn lemma_current_recreated(group: BindGroupView, buffers: Seq<BufferView>, textures: Seq<TextureView>)
    requires
        group.current(buffers, textures),
    ensures
        group.recreated(buffers, textures) == group,
{
}

pub struct BindGroup {
    name: Option<String>,
    bindings: Vec<Binding>,
    resolved: Vec<ResolvedBinding>,
}

impl View for BindGroup {
    type V = BindGroupView;

    closed spec fn view(&self) -> BindGroupView {
        BindGroupView {
            name: label_view(self.name),
            bindings: self.bindings@,
            resolved: self.resolved@,
        }
    }
}

/// What each of `groups` is, as plain values.
pub open spec fn bind_group_views(groups: Seq<BindGroup>) -> Seq<BindGroupView> {
    Seq::new(groups.len(), |i: int| groups[i]@)
}

/// Resolves every slot of `bindings` against the registries.
fn resolve_all(
    bindings: &Vec<Binding>,
    buffers: &Registry<Buffer>,
    textures: &Registry<Texture>,
    samplers: &Registry<TextureSampler>,
) -> (resolved: Vec<ResolvedBinding>)
    requires
        forall|i: int|
            0 <= i < bindings@.len() ==> (#[trigger] bindings@[i]).known(
                buffers@.len(),
                textures@.len(),
                samplers@.len(),
            ),
    ensures
        resolved@ == resolution(bindings@, buffer_views(buffers@), texture_views(textures@)),
{
    let mut resolved: Vec<ResolvedBinding> = Vec::new();
    let mut i: usize = 0;
    while i < bindings.len()
        invariant
            i <= bindings@.len(),
            forall|j: int|
                0 <= j < bindings@.len() ==> (#[trigger] bindings@[j]).known(
                    buffers@.len(),
                    textures@.len(),
                    samplers@.len(),
                ),
            resolved@ == resolution(bindings@, buffer_views(buffers@), texture_views(textures@)).take(
                i as int,
            ),
        decreases bindings@.len() - i,
    {
        let binding = bindings[i];
        let resource = match binding.target {
            BindingTarget::Buffer(buffer) => BoundResource::Buffer {
                buffer,
                generation: buffers.entry(buffer).generation(),
            },
            BindingTarget::Texture(texture) => BoundResource::Texture {
                texture,
                generation: textures.entry(texture).generation(),
            },
            BindingTarget::Sampler(sampler) => BoundResource::Sampler { sampler },
        };
        let slot = ResolvedBinding { binding: binding.entry.binding, resource };
        resolved.push(slot);
        i += 1;
    }
    resolved
}

impl BindGroup {
    /// A bind group of `bindings`, resolved against the registries.
    pub(crate) fn new(
        name: Option<String>,
        bindings: Vec<Binding>,
        buffers: &Registry<Buffer>,
        textures: &Registry<Texture>,
        samplers: &Registry<TextureSampler>,
    ) -> (group: BindGroup)
        requires
            forall|i: int|
                0 <= i < bindings@.len() ==> (#[trigger] bindings@[i]).known(
                    buffers@.len(),
                    textures@.len(),
                    samplers@.len(),
                ),
        ensures
            group@ == (BindGroupView {
                name: label_view(name),
                bindings: bindings@,
                resolved: resolution(bindings@, buffer_views(buffers@), texture_views(textures@)),
            }),
    {
        let resolved = resolve_all(&bindings, buffers, textures, samplers);
        BindGroup { name, bindings, resolved }
    }

    /// Rebuilds the live instantiation after a buffer or a texture moved to a
    /// new allocation. The layout and the dependencies stay as they are.
    pub(crate) fn recreate(
        &mut self,
        buffers: &Registry<Buffer>,
        textures: &Registry<Texture>,
        samplers: &Registry<TextureSampler>,
    )
        requires
            old(self)@.resolvable(buffers@.len(), textures@.len(), samplers@.len()),
        ensures
            final(self)@ == old(self)@.recreated(buffer_views(buffers@), texture_views(textures@)),
    {
        self.resolved = resolve_all(&self.bindings, buffers, textures, samplers);
    }

    pub(crate) fn depends_texture(&self, texture: TextureHandle) -> (depends: bool)
        ensures
            depends == self@.depends_texture(texture),
    {
        let mut i: usize = 0;
        while i < self.bindings.len()
            invariant
                i <= self.bindings@.len(),
                forall|j: int|
                    0 <= j < i ==> (#[trigger] self.bindings@[j]).target != BindingTarget::Texture(texture),
            decreases self.bindings@.len() - i,
        {
            match self.bindings[i].target {
                BindingTarget::Texture(other) => {
                    if other.index() == texture.index() {
                        proof {
                            Handle::lemma_eq_by_index(other, texture);
                        }
                        return true;
                    }
                },
                _ => {},
            }
            i += 1;
        }
        false
    }

    pub(crate) fn follows_surface(&self, textures: &Registry<Texture>) -> (follows: bool)
        requires
            forall|i: int|
                0 <= i < self@.bindings.len() ==> (#[trigger] self@.bindings[i]).texture_known(textures@.len()),
        ensures
            follows == self@.follows_surface(texture_views(textures@)),
    {
        let mut i: usize = 0;
        while i < self.bindings.len()
            invariant
                i <= self.bindings@.len(),
                self@.bindings == self.bindings@,
                forall|j: int|
                    0 <= j < self@.bindings.len() ==> (#[trigger] self@.bindings[j]).texture_known(
                        textures@.len(),
                    ),
                forall|j: int|
                    0 <= j < i ==> !(#[trigger] self@.bindings[j]).follows_surface(texture_views(textures@)),
            decreases self.bindings@.len() - i,
        {
            match self.bindings[i].target {
                BindingTarget::Texture(texture) => {
                    let follows = match textures.entry(texture).size() {
                        TextureSize::Surface => true,
                        TextureSize::ScaledSurface(_, _) => true,
                        _ => false,
                    };
                    if follows {
                        return true;
                    }
                },
                _ => {},
            }
            i += 1;
        }
        false
    }

    pub(crate) fn depends_buffer(&self, buffer: BufferHandle) -> (depends: bool)
        ensures
            depends == self@.depends_buffer(buffer),
    {
        let mut i: usize = 0;
        while i < self.bindings.len()
            invariant
                i <= self.bindings@.len(),
                forall|j: int|
                    0 <= j < i ==> (#[trigger] self.bindings@[j]).target != BindingTarget::Buffer(buffer),
            decreases self.bindings@.len() - i,
        {
            match self.bindings[i].target {
                BindingTarget::Buffer(other) => {
                    if other.index() == buffer.index() {
                        proof {
                            Handle::lemma_eq_by_index(other, buffer);
                        }
                        return true;
                    }
                },
                _ => {},
            }
            i += 1;
        }
        false
    }

    pub fn name(&self) -> (name: Option<&str>)
        ensures
            text_view(name) == self@.name,
    {
        borrowed_label(&self.name)
    }

    /// The slots in declared order: what each takes and what it depends on.
    pub fn bindings(&self) -> (bindings: &Vec<Binding>)
        ensures
            bindings@ == self@.bindings,
    {
        &self.bindings
    }

    /// The live instantiation: which allocation each slot points at.
    pub fn resolved(&self) -> (resolved: &Vec<ResolvedBinding>)
        ensures
            resolved@ == self@.resolved,
    {
        &self.resolved
    }

    /// The compiled layout.
    pub fn layout(&self) -> (layout: Vec<BindGroupLayoutEntry>)
        ensures
            layout@ == self@.layout(),
    {
        let mut layout: Vec<BindGroupLayoutEntry> = Vec::new();
        let mut i: usize = 0;
        while i < self.bindings.len()
            invariant
                i <= self.bindings@.len(),
                layout@ == self@.layout().take(i as int),
            decreases self.bindings@.len() - i,
        {
            layout.push(self.bindings[i].entry);
            i += 1;
        }
        layout
    }
}

/// `earlier`, or `later` where nothing went wrong earlier.
pub open spec fn first_error(earlier: Option<BuildError>, later: Option<BuildError>) -> Option<BuildError> {
    if earlier is Some {
        earlier
    } else {
        later
    }
}

/// What stands against binding a buffer of elements of `size` bytes: data
/// that shaders read has to keep the mapping alignment.
pub open spec fn alignment_error(size: u64) -> Option<BuildError> {
    if size % mapping_alignment() != 0 {
        Some(BuildError::Misaligned)
    } else {
        None
    }
}

/// `size`, unless it is zero.
pub open spec fn non_zero_size(size: int) -> Option<u64> {
    if size == 0 {
        None
    } else {
        Some(size as u64)
    }
}

/// The least size of a storage binding that holds `num_elements` elements of
/// `size` bytes, where a number of elements is asked for.
pub open spec fn storage_size(num_elements: Option<u64>, size: u64) -> Option<u64> {
    match num_elements {
        Some(n) => if n * size > u64::MAX {
            None
        } else {
            non_zero_size(n * size)
        },
        None => None,
    }
}

/// What stands against a storage binding of `num_elements` elements of `size`
/// bytes.
pub open spec fn storage_error(num_elements: Option<u64>, size: u64) -> Option<BuildError> {
    if alignment_error(size) is Some {
        alignment_error(size)
    } else if num_elements matches Some(n) && n * size > u64::MAX {
        Some(BuildError::TooLarge)
    } else {
        None
    }
}

/// Collects the slots of a bind group, and registers the bind group.
///
/// A misuse met while the slots are collected is kept and reported by
/// `build`, which then registers nothing.
pub struct BindGroupBuilder {
    name: Option<String>,
    bindings: Vec<Binding>,
    deferred: Option<BuildError>,
}

impl BindGroupBuilder {
    #[verifier::type_invariant]
    spec fn consistent(self) -> bool {
        forall|i: int| 0 <= i < self.bindings@.len() ==> (#[trigger] self.bindings@[i]).consistent()
    }

    pub closed spec fn name(self) -> Option<Seq<char>> {
        label_view(self.name)
    }

    /// The slots collected so far, in the order they were declared.
    pub closed spec fn bindings(self) -> Seq<Binding> {
        self.bindings@
    }

    /// The first misuse met so far.
    pub closed spec fn deferred(self) -> Option<BuildError> {
        self.deferred
    }

    pub fn new(label: Option<&str>) -> (builder: BindGroupBuilder)
        ensures
            builder.name() == text_view(label),
            builder.bindings() == Seq::<Binding>::empty(),
            builder.deferred() is None,
    {
        BindGroupBuilder { name: owned_label(label), bindings: Vec::new(), deferred: None }
    }

    fn bind(self, binding: Binding, error: Option<BuildError>) -> (builder: BindGroupBuilder)
        requires
            binding.consistent(),
        ensures
            builder.name() == self.name(),
            builder.bindings() == self.bindings().push(binding),
            builder.deferred() == first_error(self.deferred(), error),
    {
        proof {
            use_type_invariant(&self);
        }
        let mut bindings = self.bindings;
        bindings.push(binding);
        let deferred = match self.deferred {
            Some(earlier) => Some(earlier),
            None => error,
        };
        BindGroupBuilder { name: self.name, bindings, deferred }
    }

    /// Binds `buffer`, which holds one element of type `element`, as a uniform
    /// buffer at slot `binding`.
    pub fn bind_uniform_buffer(
        self,
        binding: u32,
        visibility: ShaderStages,
        element: ElementType,
        buffer: BufferHandle,
    ) -> (builder: BindGroupBuilder)
        ensures
            builder.name() == self.name(),
            builder.bindings() == self.bindings().push(
                Binding {
                    entry: BindGroupLayoutEntry {
                        binding,
                        visibility,
                        ty: BindingType::Buffer {
                            ty: BufferBindingType::Uniform,
                            has_dynamic_offset: false,
                            min_binding_size: non_zero_size(element.size as int),
                        },
                    },
                    target: BindingTarget::Buffer(buffer),
                },
            ),
            builder.deferred() == first_error(self.deferred(), alignment_error(element.size)),
    {
        let error = if element.size % map_alignment() != 0 {
            Some(BuildError::Misaligned)
        } else {
            None
        };
        let min_binding_size = if element.size == 0 {
            None
        } else {
            Some(element.size)
        };
        let entry = BindGroupLayoutEntry {
            binding,
            visibility,
            ty: BindingType::Buffer {
                ty: BufferBindingType::Uniform,
                has_dynamic_offset: false,
                min_binding_size,
            },
        };
        self.bind(Binding { entry, target: BindingTarget::Buffer(buffer) }, error)
    }

    /// Binds `buffer`, which holds elements of type `element`, as a storage
    /// buffer at slot `binding`. Where `num_elements` is given, the binding
    /// asks for room for that many elements.
    pub fn bind_storage_buffer(
        self,
        binding: u32,
        visibility: ShaderStages,
        read_only: bool,
        num_elements: Option<u64>,
        element: ElementType,
        buffer: BufferHandle,
    ) -> (builder: BindGroupBuilder)
        ensures
            builder.name() == self.name(),
            builder.bindings() == self.bindings().push(
                Binding {
                    entry: BindGroupLayoutEntry {
                        binding,
                        visibility,
                        ty: BindingType::Buffer {
                            ty: BufferBindingType::Storage { read_only },
                            has_dynamic_offset: false,
                            min_binding_size: storage_size(num_elements, element.size),
                        },
                    },
                    target: BindingTarget::Buffer(buffer),
                },
            ),
            builder.deferred() == first_error(self.deferred(), storage_error(num_elements, element.size)),
    {
        let misaligned = element.size % map_alignment() != 0;
        let (min_binding_size, overflow) = match num_elements {
            Some(n) => match n.checked_mul(element.size) {
                Some(size) => if size == 0 {
                    (None, false)
                } else {
                    (Some(size), false)
                },
                None => (None, true),
            },
            None => (None, false),
        };
        let error = if misaligned {
            Some(BuildError::Misaligned)
        } else if overflow {
            Some(BuildError::TooLarge)
        } else {
            None
        };
        let entry = BindGroupLayoutEntry {
            binding,
            visibility,
            ty: BindingType::Buffer {
                ty: BufferBindingType::Storage { read_only },
                has_dynamic_offset: false,
                min_binding_size,
            },
        };
        self.bind(Binding { entry, target: BindingTarget::Buffer(buffer) }, error)
    }

    /// Binds `texture` for sampling at slot `binding`.
    pub fn bind_texture(
        self,
        binding: u32,
        visibility: ShaderStages,
        sample_type: TextureSampleType,
        view_dimension: TextureViewDimension,
        multisampled: bool,
        texture: TextureHandle,
    ) -> (builder: BindGroupBuilder)
        ensures
            builder.name() == self.name(),
            builder.bindings() == self.bindings().push(
                Binding {
                    entry: BindGroupLayoutEntry {
                        binding,
                        visibility,
                        ty: BindingType::Texture { sample_type, view_dimension, multisampled },
                    },
                    target: BindingTarget::Texture(texture),
                },
            ),
            builder.deferred() == self.deferred(),
    {
        let entry = BindGroupLayoutEntry {
            binding,
            visibility,
            ty: BindingType::Texture { sample_type, view_dimension, multisampled },
        };
        self.bind(Binding { entry, target: BindingTarget::Texture(texture) }, None)
    }

    /// Binds `texture` as a storage texture at slot `binding`. The slot takes
    /// the pixel format the texture has in `manager`; a texture that `manager`
    /// does not hold is a misuse, and no slot is added for it.
    pub fn bind_storage_texture(
        self,
        manager: &RenderManager,
        binding: u32,
        visibility: ShaderStages,
        access: StorageTextureAccess,
        view_dimension: TextureViewDimension,
        texture: TextureHandle,
    ) -> (builder: BindGroupBuilder)
        ensures
            builder.name() == self.name(),
            texture@ < manager@.textures.len() ==> builder.bindings() == self.bindings().push(
                Binding {
                    entry: BindGroupLayoutEntry {
                        binding,
                        visibility,
                        ty: BindingType::StorageTexture {
                            access,
                            format: manager@.textures[texture@ as int].format,
                            view_dimension,
                        },
                    },
                    target: BindingTarget::Texture(texture),
                },
            ) && builder.deferred() == self.deferred(),
            texture@ >= manager@.textures.len() ==> builder.bindings() == self.bindings()
                && builder.deferred() == first_error(
                self.deferred(),
                Some(BuildError::InvalidHandle(ResourceKind::Texture)),
            ),
    {
        match manager.get_texture(texture) {
            Some(found) => {
                let entry = BindGroupLayoutEntry {
                    binding,
                    visibility,
                    ty: BindingType::StorageTexture { access, format: found.format(), view_dimension },
                };
                self.bind(Binding { entry, target: BindingTarget::Texture(texture) }, None)
            },
            None => {
                proof {
                    use_type_invariant(&self);
                }
                let deferred = match self.deferred {
                    Some(earlier) => Some(earlier),
                    None => Some(BuildError::InvalidHandle(ResourceKind::Texture)),
                };
                BindGroupBuilder { name: self.name, bindings: self.bindings, deferred }
            },
        }
    }

    /// Binds `sampler` at slot `binding`.
    pub fn bind_sampler(
        self,
        binding: u32,
        visibility: ShaderStages,
        kind: SamplerBindingType,
        sampler: TextureSampleHandle,
    ) -> (builder: BindGroupBuilder)
        ensures
            builder.name() == self.name(),
            builder.bindings() == self.bindings().push(
                Binding {
                    entry: BindGroupLayoutEntry { binding, visibility, ty: BindingType::Sampler(kind) },
                    target: BindingTarget::Sampler(sampler),
                },
            ),
            builder.deferred() == self.deferred(),
    {
        let entry = BindGroupLayoutEntry { binding, visibility, ty: BindingType::Sampler(kind) };
        self.bind(Binding { entry, target: BindingTarget::Sampler(sampler) }, None)
    }

    /// Every buffer slot is bound to one of `buffers` buffers.
    pub open spec fn buffers_known(self, buffers: nat) -> bool {
        forall|i: int|
            0 <= i < self.bindings().len() ==> match (#[trigger] self.bindings()[i]).target {
                BindingTarget::Buffer(buffer) => buffer@ < buffers,
                _ => true,
            }
    }

    /// Every texture slot is bound to one of `textures` textures.
    pub open spec fn textures_known(self, textures: nat) -> bool {
        forall|i: int|
            0 <= i < self.bindings().len() ==> match (#[trigger] self.bindings()[i]).target {
                BindingTarget::Texture(texture) => texture@ < textures,
                _ => true,
            }
    }

    /// Every sampler slot is bound to one of `samplers` samplers.
    pub open spec fn samplers_known(self, samplers: nat) -> bool {
        forall|i: int|
            0 <= i < self.bindings().len() ==> match (#[trigger] self.bindings()[i]).target {
                BindingTarget::Sampler(sampler) => sampler@ < samplers,
                _ => true,
            }
    }

    /// What stands against building the bind group in `manager`: the first
    /// misuse met while the slots were collected, or else a slot bound to a
    /// resource `manager` does not hold, buffers being looked at before
    /// textures and textures before samplers.
    pub open spec fn build_error(self, manager: ManagerView) -> Option<BuildError> {
        if self.deferred() is Some {
            self.deferred()
        } else if !self.buffers_known(manager.buffers.len()) {
            Some(BuildError::InvalidHandle(ResourceKind::Buffer))
        } else if !self.textures_known(manager.textures.len()) {
            Some(BuildError::InvalidHandle(ResourceKind::Texture))
        } else if !self.samplers_known(manager.samplers.len()) {
            Some(BuildError::InvalidHandle(ResourceKind::Sampler))
        } else {
            None
        }
    }

    /// The bind group this builder describes, resolved against `manager`.
    pub open spec fn built(self, manager: ManagerView) -> BindGroupView {
        BindGroupView {
            name: self.name(),
            bindings: self.bindings(),
            resolved: resolution(self.bindings(), manager.buffers, manager.textures),
        }
    }

    /// Registers the bind group and resolves it for the first time.
    pub fn build(self, manager: &mut RenderManager) -> (outcome: Result<BindGroupHandle, BuildError>)
        requires
            old(manager).wf(),
        ensures
            final(manager).wf(),
            self.build_error(old(manager)@) matches Some(error) ==> outcome == Err::<
                BindGroupHandle,
                BuildError,
            >(error) && final(manager)@ == old(manager)@,
            self.build_error(old(manager)@) is None ==> outcome is Ok && outcome->Ok_0@ == old(manager)@.bind_groups.len() && final(manager)@ == (ManagerView {
                bind_groups: old(manager)@.bind_groups.push(self.built(old(manager)@)),
                ..old(manager)@
            }),
    {
        proof {
            use_type_invariant(&self);
        }
        match self.deferred {
            Some(error) => {
                return Err(error);
            },
            None => {},
        }
        let mut buffers_known = true;
        let mut textures_known = true;
        let mut samplers_known = true;
        let mut i: usize = 0;
        while i < self.bindings.len()
            invariant
                i <= self.bindings@.len(),
                *manager == *old(manager),
                buffers_known == (forall|j: int|
                    0 <= j < i ==> match (#[trigger] self.bindings()[j]).target {
                        BindingTarget::Buffer(buffer) => buffer@ < manager@.buffers.len(),
                        _ => true,
                    }),
                textures_known == (forall|j: int|
                    0 <= j < i ==> match (#[trigger] self.bindings()[j]).target {
                        BindingTarget::Texture(texture) => texture@ < manager@.textures.len(),
                        _ => true,
                    }),
                samplers_known == (forall|j: int|
                    0 <= j < i ==> match (#[trigger] self.bindings()[j]).target {
                        BindingTarget::Sampler(sampler) => sampler@ < manager@.samplers.len(),
                        _ => true,
                    }),
            decreases self.bindings@.len() - i,
        {
            match self.bindings[i].target {
                BindingTarget::Buffer(buffer) => {
                    if manager.get_buffer(buffer).is_none() {
                        buffers_known = false;
                    }
                },
                BindingTarget::Texture(texture) => {
                    if manager.get_texture(texture).is_none() {
                        textures_known = false;
                    }
                },
                BindingTarget::Sampler(sampler) => {
                    if manager.get_sampler(sampler).is_none() {
                        samplers_known = false;
                    }
                },
            }
            i += 1;
        }
        if !buffers_known {
            return Err(BuildError::InvalidHandle(ResourceKind::Buffer));
        }
        if !textures_known {
            return Err(BuildError::InvalidHandle(ResourceKind::Texture));
        }
        if !samplers_known {
            return Err(BuildError::InvalidHandle(ResourceKind::Sampler));
        }
        Ok(manager.register_bind_group(self.name, self.bindings))
    }
}

} // verus!
