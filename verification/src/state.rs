//! The state of a context as plain values, and the laws of its transitions.
//!
//! [`ManagerView`] is what a context holds, seen without the device behind
//! it. Everything the context does is a function from one such value to the
//! next, written down here, and the lemmas show that these functions keep the
//! state consistent: every stored handle resolves, and every bind group
//! points at the allocations that back its resources now.

use crate::bind_group::{BindGroup, BindGroupHandle, BindGroupView, BindingTarget, BoundResource, resolution};
use crate::buffer::{BufferHandle, BufferView};
use crate::compute_pass::ComputePassView;
use crate::compute_pipeline::ComputePipelineView;
use crate::error::FrameError;
use crate::frame::{Command, compute_pass_commands, render_pass_commands, render_pipelines_error};
use crate::handle::{Handle, lemma_positions, positions};
use crate::manager::PassHandle;
use crate::render_pass::RenderPassView;
use crate::render_pipeline::RenderPipelineView;
use crate::sampler::SamplerView;
use crate::shader::ShaderView;
use crate::texture::{SurfaceConfiguration, TextureHandle, TextureSize, TextureView};
use vstd::prelude::*;

verus! {

/// What a [`RenderManager`] holds, as plain values.
pub struct ManagerView {
    pub config: SurfaceConfiguration,
    /// The passes in the order they run.
    pub passes: Seq<PassHandle>,
    pub render_passes: Seq<RenderPassView>,
    pub compute_passes: Seq<ComputePassView>,
    pub render_pipelines: Seq<RenderPipelineView>,
    pub compute_pipelines: Seq<ComputePipelineView>,
    pub shaders: Seq<ShaderView>,
    pub buffers: Seq<BufferView>,
    pub textures: Seq<TextureView>,
    pub bind_groups: Seq<BindGroupView>,
    pub samplers: Seq<SamplerView>,
}

impl ManagerView {
    /// `pass` names a registered pass.
    pub open spec fn knows_pass(self, pass: PassHandle) -> bool {
        match pass {
            PassHandle::RenderPass(handle) => handle@ < self.render_passes.len(),
            PassHandle::ComputePass(handle) => handle@ < self.compute_passes.len(),
        }
    }

    /// `group` may stand in the context: its slots are consistent, its
    /// dependencies resolve, and it points at the current allocations.
    pub open spec fn admits_bind_group(self, group: BindGroupView) -> bool {
        &&& group.consistent()
        &&& group.resolvable(self.buffers.len(), self.textures.len(), self.samplers.len())
        &&& group.current(self.buffers, self.textures)
    }

    /// Referential consistency: every stored handle resolves, and every bind
    /// group points at the allocations that back its resources now.
    pub open spec fn wf(self) -> bool {
        &&& forall|i: int| 0 <= i < self.buffers.len() ==> (#[trigger] self.buffers[i]).wf()
        &&& forall|i: int|
            0 <= i < self.bind_groups.len() ==> self.admits_bind_group(#[trigger] self.bind_groups[i])
        &&& forall|i: int|
            0 <= i < self.render_pipelines.len() ==> (#[trigger] self.render_pipelines[i]).valid(
                self.buffers,
                self.bind_groups.len(),
                self.shaders.len(),
            )
        &&& forall|i: int|
            0 <= i < self.compute_pipelines.len() ==> (#[trigger] self.compute_pipelines[i]).valid(
                self.bind_groups.len(),
                self.shaders.len(),
            )
        &&& forall|i: int|
            0 <= i < self.render_passes.len() ==> (#[trigger] self.render_passes[i]).valid(
                self.render_pipelines.len(),
                self.textures.len(),
            )
        &&& forall|i: int|
            0 <= i < self.compute_passes.len() ==> (#[trigger] self.compute_passes[i]).valid(
                self.compute_pipelines.len(),
            )
        &&& forall|i: int| 0 <= i < self.passes.len() ==> self.knows_pass(#[trigger] self.passes[i])
    }
}

/// The bind groups after a structural change: those that `affected` picks are
/// rebuilt against the current allocations, the others stay as they are.
pub open spec fn rebuilt(
    groups: Seq<BindGroupView>,
    affected: spec_fn(int) -> bool,
    buffers: Seq<BufferView>,
    textures: Seq<TextureView>,
) -> Seq<BindGroupView> {
    Seq::new(
        groups.len(),
        |i: int|
            if affected(i) {
                groups[i].recreated(buffers, textures)
            } else {
                groups[i]
            },
    )
}

impl ManagerView {
    /// Picks the bind groups that depend on `buffer`.
    pub open spec fn dependents(self, buffer: BufferHandle) -> spec_fn(int) -> bool {
        |i: int| self.bind_groups[i].depends_buffer(buffer)
    }

    /// Picks the bind groups that depend on a texture that follows the
    /// presentation surface.
    pub open spec fn followers(self) -> spec_fn(int) -> bool {
        |i: int| self.bind_groups[i].follows_surface(self.textures)
    }

    /// Picks the textures that follow the presentation surface.
    pub open spec fn surface_textures(self) -> spec_fn(int) -> bool {
        |i: int| self.textures[i].size.surface_relative()
    }

    /// The context after `data` replaced the contents of `buffer`. Where the
    /// buffer had to move to a new allocation, every bind group that depends
    /// on it is rebuilt.
    pub open spec fn buffer_written(self, buffer: BufferHandle, data: Seq<u8>) -> ManagerView {
        let buffers = self.buffers.update(buffer@ as int, self.buffers[buffer@ as int].written(data));
        ManagerView {
            buffers,
            bind_groups: if self.buffers[buffer@ as int].fits(data) {
                self.bind_groups
            } else {
                rebuilt(self.bind_groups, self.dependents(buffer), buffers, self.textures)
            },
            ..self
        }
    }

    /// The bind groups a write of `data` to `buffer` rebuilds.
    pub open spec fn rebuilt_by_write(self, buffer: BufferHandle, data: Seq<u8>) -> Seq<BindGroupHandle> {
        if self.buffers[buffer@ as int].fits(data) {
            Seq::empty()
        } else {
            positions(self.bind_groups.len(), self.dependents(buffer))
        }
    }

    /// Picks the bind groups that depend on `texture`.
    pub open spec fn texture_dependents(self, texture: TextureHandle) -> spec_fn(int) -> bool {
        |i: int| self.bind_groups[i].depends_texture(texture)
    }

    /// The context after `texture` was resized to `size`: the texture moves
    /// to a new allocation, and every bind group that depends on it is
    /// rebuilt.
    pub open spec fn texture_resized(self, texture: TextureHandle, size: TextureSize) -> ManagerView {
        let textures = self.textures.update(
            texture@ as int,
            self.textures[texture@ as int].resized(size),
        );
        ManagerView {
            textures,
            bind_groups: rebuilt(self.bind_groups, self.texture_dependents(texture), self.buffers, textures),
            ..self
        }
    }

    /// The textures after the surface changed to `config`.
    pub open spec fn textures_resized(self, config: SurfaceConfiguration) -> Seq<TextureView> {
        Seq::new(self.textures.len(), |i: int| self.textures[i].surface_resized(config))
    }

    /// The context after the surface changed to `config`: every texture that
    /// follows the surface moves to a new allocation, and every bind group
    /// that depends on one of them is rebuilt.
    pub open spec fn surface_resized(self, config: SurfaceConfiguration) -> ManagerView {
        ManagerView {
            config,
            textures: self.textures_resized(config),
            bind_groups: rebuilt(self.bind_groups, self.followers(), self.buffers, self.textures_resized(config)),
            ..self
        }
    }
}

impl ManagerView {
    /// Why `pass` cannot be drawn, if anything stands against it.
    pub open spec fn pass_error(self, pass: PassHandle) -> Option<FrameError> {
        match pass {
            PassHandle::RenderPass(handle) => render_pipelines_error(
                self.render_passes[handle@ as int].pipelines,
                self.render_passes[handle@ as int].pipelines.len(),
                self.render_pipelines,
                self.buffers,
            ),
            PassHandle::ComputePass(_) => None,
        }
    }

    /// The commands of `pass`.
    pub open spec fn pass_commands(self, pass: PassHandle) -> Seq<Command> {
        match pass {
            PassHandle::RenderPass(handle) => render_pass_commands(
                handle,
                self.render_passes[handle@ as int],
                self.render_pipelines,
                self.buffers,
            ),
            PassHandle::ComputePass(handle) => compute_pass_commands(
                handle,
                self.compute_passes[handle@ as int],
                self.compute_pipelines,
            ),
        }
    }

    /// The first reason why one of the first `n` passes cannot be drawn.
    pub open spec fn passes_error(self, n: nat) -> Option<FrameError>
        decreases n,
    {
        if n == 0 {
            None
        } else {
            match self.passes_error((n - 1) as nat) {
                Some(error) => Some(error),
                None => self.pass_error(self.passes[n - 1]),
            }
        }
    }

    /// The commands of the first `n` passes, in the order the passes run.
    pub open spec fn passes_commands(self, n: nat) -> Seq<Command>
        decreases n,
    {
        if n == 0 {
            Seq::empty()
        } else {
            self.passes_commands((n - 1) as nat) + self.pass_commands(self.passes[n - 1])
        }
    }

    /// Why the frame cannot be drawn, if anything stands against it.
    pub open spec fn frame_error(self) -> Option<FrameError> {
        self.passes_error(self.passes.len())
    }

    /// The frame: every pass in the order the passes run, then the submission
    /// and the presentation.
    pub open spec fn frame_commands(self) -> Seq<Command> {
        self.passes_commands(self.passes.len()) + seq![Command::Submit, Command::Present]
    }
}

impl ManagerView {
    /// The first error among the passes stays the first however many more
    /// passes are looked at.
    pub proof fn lemma_passes_error_from(self, n: nat, m: nat)
        requires
            n <= m,
            self.passes_error(n) is Some,
        ensures
            self.passes_error(m) == self.passes_error(n),
        decreases m,
    {
        if n < m {
            self.lemma_passes_error_from(n, (m - 1) as nat);
        }
    }
}

/// Registering a buffer breaks nothing: what resolved before resolves to the
/// same allocation.
pub proof fn lemma_push_buffer(view: ManagerView, buffer: BufferView)
    requires
        view.wf(),
        buffer.wf(),
    ensures
        (ManagerView { buffers: view.buffers.push(buffer), ..view }).wf(),
{
    let after = ManagerView { buffers: view.buffers.push(buffer), ..view };
    assert forall|i: int| 0 <= i < after.bind_groups.len() implies after.admits_bind_group(
        #[trigger] after.bind_groups[i],
    ) by {
        let group = view.bind_groups[i];
        assert(resolution(group.bindings, after.buffers, after.textures)
            =~= resolution(group.bindings, view.buffers, view.textures));
    }
}

/// Registering a texture breaks nothing.
pub proof fn lemma_push_texture(view: ManagerView, texture: TextureView)
    requires
        view.wf(),
    ensures
        (ManagerView { textures: view.textures.push(texture), ..view }).wf(),
{
    let after = ManagerView { textures: view.textures.push(texture), ..view };
    assert forall|i: int| 0 <= i < after.bind_groups.len() implies after.admits_bind_group(
        #[trigger] after.bind_groups[i],
    ) by {
        let group = view.bind_groups[i];
        assert(resolution(group.bindings, after.buffers, after.textures)
            =~= resolution(group.bindings, view.buffers, view.textures));
    }
}

/// A content write keeps the context consistent: no bind group is left
/// pointing at the allocation the buffer moved away from.
pub proof fn lemma_buffer_written(view: ManagerView, buffer: BufferHandle, data: Seq<u8>)
    requires
        view.wf(),
        buffer@ < view.buffers.len(),
        data.len() <= u64::MAX,
    ensures
        view.buffer_written(buffer, data).wf(),
{
    let after = view.buffer_written(buffer, data);
    let before = view.buffers[buffer@ as int];
    assert forall|i: int| 0 <= i < after.bind_groups.len() implies after.admits_bind_group(
        #[trigger] after.bind_groups[i],
    ) by {
        let group = view.bind_groups[i];
        if before.fits(data) || !group.depends_buffer(buffer) {
            assert forall|j: int| 0 <= j < group.bindings.len() implies (#[trigger] group.bindings[j]).resolve(
                after.buffers,
                after.textures,
            ) == group.bindings[j].resolve(view.buffers, view.textures) by {
                match group.bindings[j].target {
                    BindingTarget::Buffer(other) => {
                        Handle::lemma_eq_by_index(other, buffer);
                    },
                    _ => {},
                }
            }
            assert(resolution(group.bindings, after.buffers, after.textures)
                =~= resolution(group.bindings, view.buffers, view.textures));
        }
    }
}

/// A resize of a texture keeps the context consistent: no bind group is left
/// pointing at the allocation the texture moved away from.
pub proof fn lemma_texture_resized(view: ManagerView, texture: TextureHandle, size: TextureSize)
    requires
        view.wf(),
        texture@ < view.textures.len(),
    ensures
        view.texture_resized(texture, size).wf(),
{
    let after = view.texture_resized(texture, size);
    assert forall|i: int| 0 <= i < after.bind_groups.len() implies after.admits_bind_group(
        #[trigger] after.bind_groups[i],
    ) by {
        let group = view.bind_groups[i];
        if !group.depends_texture(texture) {
            assert forall|j: int| 0 <= j < group.bindings.len() implies (#[trigger] group.bindings[j]).resolve(
                after.buffers,
                after.textures,
            ) == group.bindings[j].resolve(view.buffers, view.textures) by {
                match group.bindings[j].target {
                    BindingTarget::Texture(other) => {
                        Handle::lemma_eq_by_index(other, texture);
                    },
                    _ => {},
                }
            }
            assert(resolution(group.bindings, after.buffers, after.textures)
                =~= resolution(group.bindings, view.buffers, view.textures));
        }
    }
}

/// A change of the surface size keeps the context consistent: no bind group
/// is left pointing at the allocation a texture moved away from.
pub proof fn lemma_surface_resized(view: ManagerView, config: SurfaceConfiguration)
    requires
        view.wf(),
    ensures
        view.surface_resized(config).wf(),
{
    let after = view.surface_resized(config);
    assert forall|i: int| 0 <= i < after.bind_groups.len() implies after.admits_bind_group(
        #[trigger] after.bind_groups[i],
    ) by {
        let group = view.bind_groups[i];
        if !group.follows_surface(view.textures) {
            assert(resolution(group.bindings, after.buffers, after.textures)
                =~= resolution(group.bindings, view.buffers, view.textures));
        }
    }
}

/// In a consistent context every slot of every bind group points at the
/// allocation that backs its resource now.
pub proof fn lemma_bindings_current(view: ManagerView, group: int, slot: int)
    requires
        view.wf(),
        0 <= group < view.bind_groups.len(),
        0 <= slot < view.bind_groups[group].bindings.len(),
    ensures
        view.bind_groups[group].resolved.len() == view.bind_groups[group].bindings.len(),
        view.bind_groups[group].resolved[slot].binding == view.bind_groups[group].bindings[slot].entry.binding,
        match view.bind_groups[group].bindings[slot].target {
            BindingTarget::Buffer(buffer) => buffer@ < view.buffers.len()
                && view.bind_groups[group].resolved[slot].resource == (BoundResource::Buffer {
                buffer,
                generation: view.buffers[buffer@ as int].generation,
            }),
            BindingTarget::Texture(texture) => texture@ < view.textures.len()
                && view.bind_groups[group].resolved[slot].resource == (BoundResource::Texture {
                texture,
                generation: view.textures[texture@ as int].generation,
            }),
            BindingTarget::Sampler(sampler) => sampler@ < view.samplers.len()
                && view.bind_groups[group].resolved[slot].resource == (BoundResource::Sampler {
                sampler,
            }),
        },
{
    let bound = view.bind_groups[group];
}

/// After a write that moved a buffer to a new allocation, every slot bound to
/// the buffer points at the new allocation, and none at the one the buffer
/// moved away from.
pub proof fn lemma_write_leaves_no_stale_binding(
    view: ManagerView,
    buffer: BufferHandle,
    data: Seq<u8>,
    group: int,
    slot: int,
)
    requires
        view.wf(),
        buffer@ < view.buffers.len(),
        data.len() <= u64::MAX,
        !view.buffers[buffer@ as int].fits(data),
        0 <= group < view.bind_groups.len(),
        0 <= slot < view.bind_groups[group].bindings.len(),
        view.bind_groups[group].bindings[slot].target == BindingTarget::Buffer(buffer),
    ensures
        view.buffer_written(buffer, data).wf(),
        view.buffer_written(buffer, data).bind_groups[group].bindings == view.bind_groups[group].bindings,
        view.buffer_written(buffer, data).bind_groups[group].resolved[slot].resource == (
        BoundResource::Buffer {
            buffer,
            generation: view.buffer_written(buffer, data).buffers[buffer@ as int].generation,
        }),
        view.buffer_written(buffer, data).buffers[buffer@ as int].generation != view.buffers[buffer@ as int].generation,
        view.buffer_written(buffer, data).bind_groups[group].resolved[slot].resource != (
        BoundResource::Buffer {
            buffer,
            generation: view.buffers[buffer@ as int].generation,
        }),
{
    let after = view.buffer_written(buffer, data);
    lemma_buffer_written(view, buffer, data);
}

/// One change of the surface size rebuilds every bind group that depends on a
/// texture that follows the surface, and rebuilds it once: the list of the
/// rebuilt bind groups names each of them, names nothing else, and names
/// nothing twice.
pub proof fn lemma_resize_rebuilds_once(view: ManagerView)
    requires
        view.bind_groups.len() <= usize::MAX,
    ensures
        ({
            let listed = positions::<BindGroup>(view.bind_groups.len(), view.followers());
            &&& forall|k: int|
                0 <= k < listed.len() ==> (#[trigger] listed[k])@ < view.bind_groups.len()
                    && view.bind_groups[listed[k]@ as int].follows_surface(view.textures)
            &&& forall|j: int, k: int| 0 <= j < k < listed.len() ==> #[trigger] listed[j] != #[trigger] listed[k]
            &&& forall|group: int|
                0 <= group < view.bind_groups.len() && #[trigger] view.bind_groups[group].follows_surface(
                    view.textures,
                ) ==> exists|k: int| 0 <= k < listed.len() && (#[trigger] listed[k])@ == group
        }),
{
    lemma_positions::<BindGroup>(view.bind_groups.len(), view.followers());
    let listed = positions::<BindGroup>(view.bind_groups.len(), view.followers());
    assert forall|group: int|
        0 <= group < view.bind_groups.len() && #[trigger] view.bind_groups[group].follows_surface(
            view.textures,
        ) implies exists|k: int| 0 <= k < listed.len() && (#[trigger] listed[k])@ == group by {
        assert(view.followers()(group));
    }
}

/// A change of the surface size may be reported more than once: the context
/// stays consistent, and the textures that follow the surface have the extents
/// of the surface after the first report as after the second.
pub proof fn lemma_resize_twice(view: ManagerView, config: SurfaceConfiguration)
    requires
        view.wf(),
    ensures
        view.surface_resized(config).surface_resized(config).wf(),
        view.surface_resized(config).surface_resized(config).config == view.surface_resized(config).config,
        forall|i: int|
            0 <= i < view.textures.len() ==> {
                let once = #[trigger] view.surface_resized(config).textures[i];
                let twice = view.surface_resized(config).surface_resized(config).textures[i];
                twice.extent == once.extent && twice.size == once.size
            },
{
    lemma_surface_resized(view, config);
    lemma_surface_resized(view.surface_resized(config), config);
}

} // verus!
