//! The context: every registry, the surface size, and the order of the passes.
//!
//! One context owns every resource. Builders register into it, writes and
//! resizes go through it, and a frame is decided from it. What it guarantees
//! throughout is referential consistency: every handle it stores resolves, and
//! every bind group points at the allocations that back its resources now.

use crate::bind_group::{
    BindGroup,
    BindGroupBuilder,
    BindGroupHandle,
    BindGroupView,
    Binding,
    bind_group_views,
    resolution,
};
use crate::buffer::{
    Buffer,
    BufferBuilder,
    BufferContents,
    BufferHandle,
    BufferUsages,
    ElementType,
    buffer_views,
};
use crate::compute_pass::{ComputePass, ComputePassBuilder, ComputePassHandle, compute_pass_views};
use crate::compute_pipeline::{
    ComputePipeline,
    ComputePipelineBuilder,
    ComputePipelineHandle,
    compute_pipeline_views,
};
use crate::error::{BuildError, FrameError, ResourceKind, WriteError};
use crate::frame::{
    AttachmentTarget,
    Command,
    attachment_commands,
    attachment_target,
    bind_group_commands,
    compute_pipeline_commands,
    compute_pipelines_commands,
    count,
    draw_commands,
    draw_error,
    lemma_pipelines_error_from,
    min_count,
    render_pipeline_commands,
    render_pipelines_commands,
    render_pipelines_error,
    same_count,
    vertex_buffer_commands,
};
use crate::handle::{Handle, Registry, lemma_positions_same, positions};
use crate::label::{label_view, owned_label, text_view};
use crate::render_pass::{
    ColorAttachment,
    RenderPass,
    RenderPassBuilder,
    RenderPassHandle,
    RenderPassView,
    render_pass_views,
};
use crate::render_pipeline::{
    PipelineHandle,
    PolygonMode,
    RenderPipeline,
    RenderPipelineBuilder,
    render_pipeline_views,
};
use crate::sampler::{
    SamplerDescriptor,
    TextureSampleHandle,
    TextureSampler,
    TextureSamplerBuilder,
    sampler_views,
};
use crate::shader::{Shader, ShaderHandle, ShaderView, shader_views};
use crate::state::{
    ManagerView,
    lemma_buffer_written,
    lemma_push_buffer,
    lemma_push_texture,
    lemma_surface_resized,
    lemma_texture_resized,
    rebuilt,
};
use crate::texel::TextureContents;
use crate::texture::{
    SurfaceConfiguration,
    Texture,
    TextureBuilder,
    TextureHandle,
    TextureSize,
    TextureUsages,
    texture_views,
};
use vstd::prelude::*;

verus! {

/// The kind of a pass.
#[derive(Clone, Copy, Debug, PartialEq, Eq, Structural)]
pub enum PassType {
    Render,
    Compute,
}

/// A pass of either kind.
#[derive(Clone, Copy, PartialEq, Eq)]
pub enum PassHandle {
    RenderPass(RenderPassHandle),
    ComputePass(ComputePassHandle),
}

/// The passes of a context in the order they run.
pub struct PassManager {
    render_passes: Vec<RenderPassHandle>,
    compute_passes: Vec<ComputePassHandle>,
    ordered_passes: Vec<(usize, PassType)>,
}

impl View for PassManager {
    type V = Seq<PassHandle>;

    /// The passes in the order they were added.
    closed spec fn view(&self) -> Seq<PassHandle> {
        Seq::new(
            self.ordered_passes@.len(),
            |i: int|
                match self.ordered_passes@[i].1 {
                    PassType::Render => PassHandle::RenderPass(
                        self.render_passes@[self.ordered_passes@[i].0 as int],
                    ),
                    PassType::Compute => PassHandle::ComputePass(
                        self.compute_passes@[self.ordered_passes@[i].0 as int],
                    ),
                },
        )
    }
}

impl PassManager {
    /// Every position of the order names a pass of its kind.
    pub closed spec fn wf(&self) -> bool {
        forall|i: int|
            0 <= i < self.ordered_passes@.len() ==> match (#[trigger] self.ordered_passes@[i]).1 {
                PassType::Render => self.ordered_passes@[i].0 < self.render_passes@.len(),
                PassType::Compute => self.ordered_passes@[i].0 < self.compute_passes@.len(),
            }
    }

    pub(crate) fn new() -> (passes: PassManager)
        ensures
            passes.wf(),
            passes@ == Seq::<PassHandle>::empty(),
    {
        PassManager { render_passes: Vec::new(), compute_passes: Vec::new(), ordered_passes: Vec::new() }
    }

    /// Adds a compute pass behind the passes added so far.
    pub fn add_compute_pass(&mut self, handle: ComputePassHandle)
        requires
            old(self).wf(),
        ensures
            final(self).wf(),
            final(self)@ == old(self)@.push(PassHandle::ComputePass(handle)),
    {
        self.ordered_passes.push((self.compute_passes.len(), PassType::Compute));
        self.compute_passes.push(handle);
    }

    /// Adds a render pass behind the passes added so far.
    pub fn add_render_pass(&mut self, handle: RenderPassHandle)
        requires
            old(self).wf(),
        ensures
            final(self).wf(),
            final(self)@ == old(self)@.push(PassHandle::RenderPass(handle)),
    {
        self.ordered_passes.push((self.render_passes.len(), PassType::Render));
        self.render_passes.push(handle);
    }

    /// How many passes there are.
    pub fn len(&self) -> (n: usize)
        ensures
            n == self@.len(),
    {
        self.ordered_passes.len()
    }

    /// The pass that runs at position `i`.
    pub fn get(&self, i: usize) -> (pass: Option<PassHandle>)
        requires
            self.wf(),
        ensures
            i < self@.len() ==> pass == Some(self@[i as int]),
            i >= self@.len() ==> pass is None,
    {
        if i < self.ordered_passes.len() {
            let (position, kind) = self.ordered_passes[i];
            match kind {
                PassType::Render => Some(PassHandle::RenderPass(self.render_passes[position])),
                PassType::Compute => Some(PassHandle::ComputePass(self.compute_passes[position])),
            }
        } else {
            None
        }
    }

    /// The passes from the first on.
    pub fn iter(&self) -> (iter: PassIter<'_>)
        requires
            self.wf(),
        ensures
            iter.wf(),
            iter.remaining() == self@,
    {
        let iter = PassIter { passes: self, curr: 0 };
        iter
    }
}

/// A walk over the passes of a context in the order they run.
pub struct PassIter<'a> {
    passes: &'a PassManager,
    curr: usize,
}

impl<'a> PassIter<'a> {
    pub closed spec fn wf(&self) -> bool {
        self.passes.wf() && self.curr <= self.passes@.len()
    }

    /// The passes the walk has not handed out yet.
    pub closed spec fn remaining(&self) -> Seq<PassHandle> {
        self.passes@.skip(self.curr as int)
    }

    /// The next pass, or `None` when every pass was handed out.
    pub fn next(&mut self) -> (pass: Option<PassHandle>)
        requires
            old(self).wf(),
        ensures
            final(self).wf(),
            old(self).remaining().len() > 0 ==> pass == Some(old(self).remaining()[0])
                && final(self).remaining() == old(self).remaining().skip(1),
            old(self).remaining().len() == 0 ==> pass is None
                && final(self).remaining() == old(self).remaining(),
    {
        if self.curr < self.passes.len() {
            let pass = self.passes.get(self.curr);
            self.curr += 1;
            pass
        } else {
            None
        }
    }
}

/// What a content write did to a buffer and to the bind groups around it.
pub struct WriteOutcome {
    /// Whether the buffer moved to a new allocation.
    pub reallocated: bool,
    /// The bind groups that were rebuilt, each once, in the order of their
    /// handles.
    pub rebuilt: Vec<BindGroupHandle>,
}

/// What a change of the surface size did to the textures and to the bind
/// groups around them.
pub struct ResizeOutcome {
    /// The textures that moved to a new allocation, each once, in the order
    /// of their handles.
    pub textures: Vec<TextureHandle>,
    /// The bind groups that were rebuilt, each once, in the order of their
    /// handles.
    pub bind_groups: Vec<BindGroupHandle>,
}

pub struct RenderManager {
    pub(crate) config: SurfaceConfiguration,
    passes: PassManager,
    render_passes: Registry<RenderPass>,
    compute_passes: Registry<ComputePass>,
    render_pipelines: Registry<RenderPipeline>,
    compute_pipelines: Registry<ComputePipeline>,
    shaders: Registry<Shader>,
    buffers: Registry<Buffer>,
    textures: Registry<Texture>,
    bind_groups: Registry<BindGroup>,
    samplers: Registry<TextureSampler>,
}

impl View for RenderManager {
    type V = ManagerView;

    closed spec fn view(&self) -> ManagerView {
        ManagerView {
            config: self.config,
            passes: self.passes@,
            render_passes: render_pass_views(self.render_passes@),
            compute_passes: compute_pass_views(self.compute_passes@),
            render_pipelines: render_pipeline_views(self.render_pipelines@),
            compute_pipelines: compute_pipeline_views(self.compute_pipelines@),
            shaders: shader_views(self.shaders@),
            buffers: buffer_views(self.buffers@),
            textures: texture_views(self.textures@),
            bind_groups: bind_group_views(self.bind_groups@),
            samplers: sampler_views(self.samplers@),
        }
    }
}

impl RenderManager {
    /// Referential consistency of everything the context holds.
    pub closed spec fn wf(&self) -> bool {
        &&& self@.wf()
        &&& self.passes.wf()
    }

    /// A consistent context is consistent as plain values.
    pub proof fn lemma_wf(&self)
        requires
            self.wf(),
        ensures
            self@.wf(),
    {
    }

    /// A context without resources for a surface of `width` by `height`.
    pub fn new(width: u32, height: u32) -> (manager: RenderManager)
        ensures
            manager.wf(),
            manager@ == (ManagerView {
                config: SurfaceConfiguration { width, height },
                passes: Seq::empty(),
                render_passes: Seq::empty(),
                compute_passes: Seq::empty(),
                render_pipelines: Seq::empty(),
                compute_pipelines: Seq::empty(),
                shaders: Seq::empty(),
                buffers: Seq::empty(),
                textures: Seq::empty(),
                bind_groups: Seq::empty(),
                samplers: Seq::empty(),
            }),
    {
        let manager = RenderManager {
            config: SurfaceConfiguration { width, height },
            passes: PassManager::new(),
            render_passes: Registry::new(),
            compute_passes: Registry::new(),
            render_pipelines: Registry::new(),
            compute_pipelines: Registry::new(),
            shaders: Registry::new(),
            buffers: Registry::new(),
            textures: Registry::new(),
            bind_groups: Registry::new(),
            samplers: Registry::new(),
        };
        assert(manager@.render_passes =~= Seq::empty());
        assert(manager@.compute_passes =~= Seq::empty());
        assert(manager@.render_pipelines =~= Seq::empty());
        assert(manager@.compute_pipelines =~= Seq::empty());
        assert(manager@.shaders =~= Seq::empty());
        assert(manager@.buffers =~= Seq::empty());
        assert(manager@.textures =~= Seq::empty());
        assert(manager@.bind_groups =~= Seq::empty());
        assert(manager@.samplers =~= Seq::empty());
        manager
    }

    /// The size of the presentation surface.
    pub fn config(&self) -> (config: SurfaceConfiguration)
        ensures
            config == self@.config,
    {
        self.config
    }

    pub(crate) fn add_buffer(&mut self, resource: Buffer) -> (handle: BufferHandle)
        requires
            old(self).wf(),
            resource@.wf(),
        ensures
            final(self).wf(),
            final(self)@ == (ManagerView { buffers: old(self)@.buffers.push(resource@), ..old(self)@ }),
            handle@ == old(self)@.buffers.len(),
    {
        let handle = self.buffers.add(resource);
        proof {
            assert(final(self)@.buffers =~= old(self)@.buffers.push(resource@));
            lemma_push_buffer(old(self)@, resource@);
        }
        handle
    }

    pub fn get_buffer(&self, handle: BufferHandle) -> (buffer: Option<&Buffer>)
        ensures
            handle@ < self@.buffers.len() ==> (buffer matches Some(b) && b@ == self@.buffers[handle@ as int]),
            handle@ >= self@.buffers.len() ==> buffer is None,
    {
        self.buffers.get(handle)
    }

    pub(crate) fn add_texture(&mut self, resource: Texture) -> (handle: TextureHandle)
        requires
            old(self).wf(),
        ensures
            final(self).wf(),
            final(self)@ == (ManagerView { textures: old(self)@.textures.push(resource@), ..old(self)@ }),
            handle@ == old(self)@.textures.len(),
    {
        let handle = self.textures.add(resource);
        proof {
            assert(final(self)@.textures =~= old(self)@.textures.push(resource@));
            lemma_push_texture(old(self)@, resource@);
        }
        handle
    }

    pub fn get_texture(&self, handle: TextureHandle) -> (texture: Option<&Texture>)
        ensures
            handle@ < self@.textures.len() ==> (texture matches Some(t) && t@ == self@.textures[handle@ as int]),
            handle@ >= self@.textures.len() ==> texture is None,
    {
        self.textures.get(handle)
    }
}

impl RenderManager {
    pub(crate) fn add_sampler(&mut self, resource: TextureSampler) -> (handle: TextureSampleHandle)
        requires
            old(self).wf(),
        ensures
            final(self).wf(),
            final(self)@ == (ManagerView { samplers: old(self)@.samplers.push(resource@), ..old(self)@ }),
            handle@ == old(self)@.samplers.len(),
    {
        let handle = self.samplers.add(resource);
        proof {
            assert(final(self)@.samplers =~= old(self)@.samplers.push(resource@));
        }
        handle
    }

    pub fn get_sampler(&self, handle: TextureSampleHandle) -> (sampler: Option<&TextureSampler>)
        ensures
            handle@ < self@.samplers.len() ==> (sampler matches Some(s) && s@ == self@.samplers[handle@ as int]),
            handle@ >= self@.samplers.len() ==> sampler is None,
    {
        self.samplers.get(handle)
    }

    /// Registers the shader with source text `shader`.
    pub fn register_shader(&mut self, shader: &str, label: Option<&str>) -> (handle: ShaderHandle)
        requires
            old(self).wf(),
        ensures
            final(self).wf(),
            final(self)@ == (ManagerView {
                shaders: old(self)@.shaders.push(
                    ShaderView {
                        name: text_view(label),
                        source: shader@,
                    },
                ),
                ..old(self)@
            }),
            handle@ == old(self)@.shaders.len(),
    {
        let resource = Shader::new(owned_label(label), shader.to_owned());
        let handle = self.shaders.add(resource);
        proof {
            assert(final(self)@.shaders =~= old(self)@.shaders.push(resource@));
        }
        handle
    }

    pub fn get_shader(&self, handle: ShaderHandle) -> (shader: Option<&Shader>)
        ensures
            handle@ < self@.shaders.len() ==> (shader matches Some(s) && s@ == self@.shaders[handle@ as int]),
            handle@ >= self@.shaders.len() ==> shader is None,
    {
        self.shaders.get(handle)
    }

    pub(crate) fn add_bind_group(&mut self, resource: BindGroup) -> (handle: BindGroupHandle)
        requires
            old(self).wf(),
            old(self)@.admits_bind_group(resource@),
        ensures
            final(self).wf(),
            final(self)@ == (ManagerView { bind_groups: old(self)@.bind_groups.push(resource@), ..old(self)@ }),
            handle@ == old(self)@.bind_groups.len(),
    {
        let handle = self.bind_groups.add(resource);
        proof {
            assert(final(self)@.bind_groups =~= old(self)@.bind_groups.push(resource@));
        }
        handle
    }

    /// Resolves a bind group of `bindings` against the registries and
    /// registers it.
    pub(crate) fn register_bind_group(&mut self, name: Option<String>, bindings: Vec<Binding>) -> (handle:
        BindGroupHandle)
        requires
            old(self).wf(),
            forall|i: int| 0 <= i < bindings@.len() ==> (#[trigger] bindings@[i]).consistent(),
            forall|i: int|
                0 <= i < bindings@.len() ==> (#[trigger] bindings@[i]).known(
                    old(self)@.buffers.len(),
                    old(self)@.textures.len(),
                    old(self)@.samplers.len(),
                ),
        ensures
            final(self).wf(),
            final(self)@ == (ManagerView {
                bind_groups: old(self)@.bind_groups.push(
                    BindGroupView {
                        name: label_view(name),
                        bindings: bindings@,
                        resolved: resolution(
                            bindings@,
                            old(self)@.buffers,
                            old(self)@.textures,
                        ),
                    },
                ),
                ..old(self)@
            }),
            handle@ == old(self)@.bind_groups.len(),
    {
        let group = BindGroup::new(name, bindings, &self.buffers, &self.textures, &self.samplers);
        self.add_bind_group(group)
    }

    /// Whether each of `handles` names a bind group of this context.
    pub fn knows_bind_groups(&self, handles: &[BindGroupHandle]) -> (known: bool)
        ensures
            known == (forall|i: int|
                0 <= i < handles@.len() ==> (#[trigger] handles@[i])@ < self@.bind_groups.len()),
    {
        self.bind_groups.contains_all(handles)
    }

    pub fn get_bind_group(&self, handle: BindGroupHandle) -> (group: Option<&BindGroup>)
        ensures
            handle@ < self@.bind_groups.len() ==> (group matches Some(g) && g@ == self@.bind_groups[handle@ as int]),
            handle@ >= self@.bind_groups.len() ==> group is None,
    {
        self.bind_groups.get(handle)
    }

    pub(crate) fn add_render_pipeline(&mut self, resource: RenderPipeline) -> (handle: PipelineHandle)
        requires
            old(self).wf(),
            resource@.valid(old(self)@.buffers, old(self)@.bind_groups.len(), old(self)@.shaders.len()),
        ensures
            final(self).wf(),
            final(self)@ == (ManagerView {
                render_pipelines: old(self)@.render_pipelines.push(resource@),
                ..old(self)@
            }),
            handle@ == old(self)@.render_pipelines.len(),
    {
        let handle = self.render_pipelines.add(resource);
        proof {
            assert(final(self)@.render_pipelines =~= old(self)@.render_pipelines.push(resource@));
        }
        handle
    }

    pub fn get_render_pipeline(&self, handle: PipelineHandle) -> (pipeline: Option<&RenderPipeline>)
        ensures
            handle@ < self@.render_pipelines.len() ==> (pipeline matches Some(p)
                && p@ == self@.render_pipelines[handle@ as int]),
            handle@ >= self@.render_pipelines.len() ==> pipeline is None,
    {
        self.render_pipelines.get(handle)
    }

    pub(crate) fn add_compute_pipeline(&mut self, resource: ComputePipeline) -> (handle: ComputePipelineHandle)
        requires
            old(self).wf(),
            resource@.valid(old(self)@.bind_groups.len(), old(self)@.shaders.len()),
        ensures
            final(self).wf(),
            final(self)@ == (ManagerView {
                compute_pipelines: old(self)@.compute_pipelines.push(resource@),
                ..old(self)@
            }),
            handle@ == old(self)@.compute_pipelines.len(),
    {
        let handle = self.compute_pipelines.add(resource);
        proof {
            assert(final(self)@.compute_pipelines =~= old(self)@.compute_pipelines.push(resource@));
        }
        handle
    }

    pub fn get_compute_pipeline(&self, handle: ComputePipelineHandle) -> (pipeline: Option<&ComputePipeline>)
        ensures
            handle@ < self@.compute_pipelines.len() ==> (pipeline matches Some(p)
                && p@ == self@.compute_pipelines[handle@ as int]),
            handle@ >= self@.compute_pipelines.len() ==> pipeline is None,
    {
        self.compute_pipelines.get(handle)
    }

    /// Registers `pass` and lets it run behind the passes added so far.
    ///
    /// A pass that names a pipeline or a texture this context does not hold
    /// is refused, the pipelines being looked at first.
    pub fn add_render_pass(&mut self, pass: RenderPass) -> (outcome: Result<RenderPassHandle, BuildError>)
        requires
            old(self).wf(),
        ensures
            final(self).wf(),
            !pass@.pipelines_known(old(self)@.render_pipelines.len()) ==> outcome is Err
                && outcome->Err_0 == BuildError::InvalidHandle(ResourceKind::RenderPipeline)
                && final(self)@ == old(self)@,
            pass@.pipelines_known(old(self)@.render_pipelines.len()) && !pass@.attachments_known(
                old(self)@.textures.len(),
            ) ==> outcome is Err && outcome->Err_0 == BuildError::InvalidHandle(ResourceKind::Texture)
                && final(self)@ == old(self)@,
            pass@.valid(old(self)@.render_pipelines.len(), old(self)@.textures.len()) ==> outcome is Ok
                && outcome->Ok_0@ == old(self)@.render_passes.len() && final(self)@ == (ManagerView {
                render_passes: old(self)@.render_passes.push(pass@),
                passes: old(self)@.passes.push(PassHandle::RenderPass(outcome->Ok_0)),
                ..old(self)@
            }),
    {
        let handles = pass.pipelines.as_slice();
        if !self.render_pipelines.contains_all(handles) {
            assert(pass@.pipelines == pass.pipelines@);
            return Err(BuildError::InvalidHandle(ResourceKind::RenderPipeline));
        }
        let mut i: usize = 0;
        while i < pass.color_attachments.len()
            invariant
                *self == *old(self),
                self.wf(),
                pass@.pipelines_known(self@.render_pipelines.len()),
                i <= pass.color_attachments@.len(),
                forall|j: int|
                    0 <= j < i ==> {
                        let texture = (#[trigger] pass.color_attachments@[j]).texture;
                        texture@ == 0 || texture@ < self.textures@.len()
                    },
            decreases pass.color_attachments@.len() - i,
        {
            let texture = pass.color_attachments[i].texture;
            if texture.index() != 0 && !self.textures.contains(texture) {
                return Err(BuildError::InvalidHandle(ResourceKind::Texture));
            }
            i += 1;
        }
        match &pass.depth_attachments {
            Some(depth) => {
                if !self.textures.contains(depth.texture) {
                    return Err(BuildError::InvalidHandle(ResourceKind::Texture));
                }
            },
            None => {},
        }
        let ghost view = pass@;
        let handle = self.render_passes.add(pass);
        self.passes.add_render_pass(handle);
        proof {
            assert(final(self)@.render_passes =~= old(self)@.render_passes.push(view));
        }
        Ok(handle)
    }

    pub fn get_render_pass(&self, handle: RenderPassHandle) -> (pass: Option<&RenderPass>)
        ensures
            handle@ < self@.render_passes.len() ==> (pass matches Some(p)
                && p@ == self@.render_passes[handle@ as int]),
            handle@ >= self@.render_passes.len() ==> pass is None,
    {
        self.render_passes.get(handle)
    }

    /// Registers `pass` and lets it run behind the passes added so far.
    ///
    /// A pass that names a pipeline this context does not hold is refused.
    pub fn add_compute_pass(&mut self, pass: ComputePass) -> (outcome: Result<ComputePassHandle, BuildError>)
        requires
            old(self).wf(),
        ensures
            final(self).wf(),
            !pass@.valid(old(self)@.compute_pipelines.len()) ==> outcome is Err
                && outcome->Err_0 == BuildError::InvalidHandle(ResourceKind::ComputePipeline)
                && final(self)@ == old(self)@,
            pass@.valid(old(self)@.compute_pipelines.len()) ==> outcome is Ok
                && outcome->Ok_0@ == old(self)@.compute_passes.len() && final(self)@ == (ManagerView {
                compute_passes: old(self)@.compute_passes.push(pass@),
                passes: old(self)@.passes.push(PassHandle::ComputePass(outcome->Ok_0)),
                ..old(self)@
            }),
    {
        let handles = pass.pipelines().as_slice();
        if !self.compute_pipelines.contains_all(handles) {
            return Err(BuildError::InvalidHandle(ResourceKind::ComputePipeline));
        }
        let ghost view = pass@;
        let handle = self.compute_passes.add(pass);
        self.passes.add_compute_pass(handle);
        proof {
            assert(final(self)@.compute_passes =~= old(self)@.compute_passes.push(view));
        }
        Ok(handle)
    }

    pub fn get_compute_pass(&self, handle: ComputePassHandle) -> (pass: Option<&ComputePass>)
        ensures
            handle@ < self@.compute_passes.len() ==> (pass matches Some(p)
                && p@ == self@.compute_passes[handle@ as int]),
            handle@ >= self@.compute_passes.len() ==> pass is None,
    {
        self.compute_passes.get(handle)
    }

    /// The passes in the order they run.
    pub fn passes(&self) -> (passes: &PassManager)
        requires
            self.wf(),
        ensures
            passes.wf(),
            passes@ == self@.passes,
    {
        &self.passes
    }
}

impl RenderManager {
    /// Every bind group resolves against the registries as they are now.
    spec fn groups_resolvable(&self) -> bool {
        forall|i: int|
            0 <= i < self.bind_groups@.len() ==> (#[trigger] self.bind_groups@[i])@.resolvable(
                self.buffers@.len(),
                self.textures@.len(),
                self.samplers@.len(),
            )
    }

    /// For each bind group, whether it depends on `buffer`.
    fn buffer_dependents(&self, buffer: BufferHandle) -> (flags: Vec<bool>)
        ensures
            flags@.len() == self@.bind_groups.len(),
            forall|i: int| 0 <= i < flags@.len() ==> flags@[i] == self@.dependents(buffer)(i),
    {
        let mut flags: Vec<bool> = Vec::new();
        let mut i: usize = 0;
        while i < self.bind_groups.len()
            invariant
                i <= self.bind_groups@.len(),
                flags@.len() == i,
                forall|j: int| 0 <= j < i ==> flags@[j] == self@.dependents(buffer)(j),
            decreases self.bind_groups@.len() - i,
        {
            let group = self.bind_groups.entry(Handle::new(i));
            flags.push(group.depends_buffer(buffer));
            i += 1;
        }
        flags
    }

    /// For each bind group, whether it depends on `texture`.
    fn texture_dependents(&self, texture: TextureHandle) -> (flags: Vec<bool>)
        ensures
            flags@.len() == self@.bind_groups.len(),
            forall|i: int| 0 <= i < flags@.len() ==> flags@[i] == self@.texture_dependents(texture)(i),
    {
        let mut flags: Vec<bool> = Vec::new();
        let mut i: usize = 0;
        while i < self.bind_groups.len()
            invariant
                i <= self.bind_groups@.len(),
                flags@.len() == i,
                forall|j: int| 0 <= j < i ==> flags@[j] == self@.texture_dependents(texture)(j),
            decreases self.bind_groups@.len() - i,
        {
            let group = self.bind_groups.entry(Handle::new(i));
            flags.push(group.depends_texture(texture));
            i += 1;
        }
        flags
    }

    /// For each bind group, whether it depends on a texture that follows the
    /// presentation surface.
    fn surface_followers(&self) -> (flags: Vec<bool>)
        requires
            self.groups_resolvable(),
        ensures
            flags@.len() == self@.bind_groups.len(),
            forall|i: int| 0 <= i < flags@.len() ==> flags@[i] == self@.followers()(i),
    {
        let mut flags: Vec<bool> = Vec::new();
        let mut i: usize = 0;
        while i < self.bind_groups.len()
            invariant
                self.groups_resolvable(),
                i <= self.bind_groups@.len(),
                flags@.len() == i,
                forall|j: int| 0 <= j < i ==> flags@[j] == self@.followers()(j),
            decreases self.bind_groups@.len() - i,
        {
            let group = self.bind_groups.entry(Handle::new(i));
            flags.push(group.follows_surface(&self.textures));
            i += 1;
        }
        flags
    }

    /// Rebuilds the bind groups that `flags` marks, each once, and returns
    /// their handles.
    fn recreate_where(&mut self, flags: &Vec<bool>) -> (handles: Vec<BindGroupHandle>)
        requires
            old(self).groups_resolvable(),
            flags@.len() == old(self)@.bind_groups.len(),
        ensures
            final(self)@ == (ManagerView {
                bind_groups: rebuilt(
                    old(self)@.bind_groups,
                    |i: int| flags@[i],
                    old(self)@.buffers,
                    old(self)@.textures,
                ),
                ..old(self)@
            }),
            final(self).passes == old(self).passes,
            handles@ == positions::<BindGroup>(flags@.len(), |i: int| flags@[i]),
    {
        let mut handles: Vec<BindGroupHandle> = Vec::new();
        let ghost chosen = |i: int| flags@[i];
        let mut i: usize = 0;
        while i < flags.len()
            invariant
                i <= flags@.len(),
                flags@.len() == old(self)@.bind_groups.len(),
                chosen == (|i: int| flags@[i]),
                self.config == old(self).config,
                self.passes == old(self).passes,
                self.render_passes == old(self).render_passes,
                self.compute_passes == old(self).compute_passes,
                self.render_pipelines == old(self).render_pipelines,
                self.compute_pipelines == old(self).compute_pipelines,
                self.shaders == old(self).shaders,
                self.buffers == old(self).buffers,
                self.textures == old(self).textures,
                self.samplers == old(self).samplers,
                self.bind_groups@.len() == old(self).bind_groups@.len(),
                self.groups_resolvable(),
                forall|j: int|
                    0 <= j < i ==> (#[trigger] self.bind_groups@[j])@ == rebuilt(
                        old(self)@.bind_groups,
                        chosen,
                        old(self)@.buffers,
                        old(self)@.textures,
                    )[j],
                forall|j: int|
                    i <= j < flags@.len() ==> (#[trigger] self.bind_groups@[j]) == old(self).bind_groups@[j],
                handles@ == positions::<BindGroup>(i as nat, chosen),
            decreases flags@.len() - i,
        {
            if flags[i] {
                let handle: BindGroupHandle = Handle::new(i);
                let group = self.bind_groups.entry_mut(handle);
                group.recreate(&self.buffers, &self.textures, &self.samplers);
                handles.push(handle);
            }
            i += 1;
        }
        proof {
            assert(final(self)@.bind_groups =~= rebuilt(
                old(self)@.bind_groups,
                chosen,
                old(self)@.buffers,
                old(self)@.textures,
            ));
        }
        handles
    }

    /// Replaces the contents of `buffer` with `data`, the bytes of elements of
    /// type `element`.
    ///
    /// Data that outgrows the buffer moves it to a new allocation; every bind
    /// group that depends on the buffer is then rebuilt before this returns.
    /// A handle this context never issued and data of another element type
    /// are refused, and nothing changes.
    pub fn write_to_buffer(&mut self, buffer: BufferHandle, element: ElementType, data: &[u8]) -> (outcome:
        Result<WriteOutcome, WriteError>)
        requires
            old(self).wf(),
        ensures
            final(self).wf(),
            buffer@ >= old(self)@.buffers.len() ==> outcome is Err && outcome->Err_0 == WriteError::InvalidHandle
                && final(self)@ == old(self)@,
            buffer@ < old(self)@.buffers.len() && old(self)@.buffers[buffer@ as int].element != element
                ==> outcome is Err && outcome->Err_0 == WriteError::TypeMismatch && final(self)@ == old(self)@,
            buffer@ < old(self)@.buffers.len() && old(self)@.buffers[buffer@ as int].element == element
                ==> outcome is Ok && outcome->Ok_0.reallocated == !old(self)@.buffers[buffer@ as int].fits(data@)
                && outcome->Ok_0.rebuilt@ == old(self)@.rebuilt_by_write(buffer, data@) && final(self)@ == old(self)@.buffer_written(buffer, data@),
    {
        if !self.buffers.contains(buffer) {
            return Err(WriteError::InvalidHandle);
        }
        let flags = self.buffer_dependents(buffer);
        assert(data@.len() == data.len());
        let raw_buffer = self.buffers.entry_mut(buffer);
        let written = raw_buffer.write_data(element, data);
        match written {
            Err(error) => {
                assert(self@.buffers =~= old(self)@.buffers);
                Err(error)
            },
            Ok(false) => {
                proof {
                    assert(self@.buffers =~= old(self)@.buffer_written(buffer, data@).buffers);
                    lemma_buffer_written(old(self)@, buffer, data@);
                }
                Ok(WriteOutcome { reallocated: false, rebuilt: Vec::new() })
            },
            Ok(true) => {
                // The old allocation is gone: every bind group that points at
                // it has to be rebuilt.
                let ghost mid = self@;
                proof {
                    assert(mid.buffers =~= old(self)@.buffer_written(buffer, data@).buffers);
                    assert forall|i: int| 0 <= i < self.bind_groups@.len() implies (
                    #[trigger] self.bind_groups@[i])@.resolvable(
                        self.buffers@.len(),
                        self.textures@.len(),
                        self.samplers@.len(),
                    ) by {
                        assert(old(self)@.admits_bind_group(old(self)@.bind_groups[i]));
                    }
                }
                let rebuilt = self.recreate_where(&flags);
                proof {
                    lemma_positions_same::<BindGroup>(
                        flags@.len(),
                        |i: int| flags@[i],
                        old(self)@.dependents(buffer),
                    );
                    assert(self@.bind_groups =~= old(self)@.buffer_written(buffer, data@).bind_groups);
                    lemma_buffer_written(old(self)@, buffer, data@);
                }
                Ok(WriteOutcome { reallocated: true, rebuilt })
            },
        }
    }

    /// Rebuilds the bind group `group` against the current allocations.
    ///
    /// The context rebuilds every bind group whose dependencies move, so a
    /// rebuild asked for from outside finds nothing to do: the bind group, and
    /// with it the whole context, stays as it is, however often this is
    /// called. A handle this context never issued is refused.
    pub fn recreate_bind_group(&mut self, group: BindGroupHandle) -> (outcome: Result<(), WriteError>)
        requires
            old(self).wf(),
        ensures
            final(self).wf(),
            final(self)@ == old(self)@,
            outcome is Ok <==> group@ < old(self)@.bind_groups.len(),
            outcome matches Err(error) ==> error == WriteError::InvalidHandle,
    {
        if !self.bind_groups.contains(group) {
            return Err(WriteError::InvalidHandle);
        }
        assert(old(self)@.admits_bind_group(old(self)@.bind_groups[group@ as int]));
        let target = self.bind_groups.entry_mut(group);
        target.recreate(&self.buffers, &self.textures, &self.samplers);
        assert(self@.bind_groups =~= old(self)@.bind_groups);
        Ok(())
    }

    /// Gives `texture` the fixed extents `size`, on a new allocation, and
    /// rebuilds every bind group that depends on it before this returns. The
    /// handles of the rebuilt bind groups are returned, each once.
    ///
    /// A resize keeps the dimensionality: a texture of fixed extents can be
    /// given other extents of the same dimensionality and nothing else. A
    /// handle this context never issued is refused too. Nothing changes where
    /// the resize is refused.
    pub fn resize_texture(&mut self, texture: TextureHandle, size: TextureSize) -> (outcome: Result<
        Vec<BindGroupHandle>,
        WriteError,
    >)
        requires
            old(self).wf(),
        ensures
            final(self).wf(),
            texture@ >= old(self)@.textures.len() ==> outcome is Err && outcome->Err_0 == WriteError::InvalidHandle
                && final(self)@ == old(self)@,
            texture@ < old(self)@.textures.len() && !old(self)@.textures[texture@ as int].size.resizable_to(size)
                ==> outcome is Err && outcome->Err_0 == WriteError::DimensionMismatch && final(self)@ == old(self)@,
            texture@ < old(self)@.textures.len() && old(self)@.textures[texture@ as int].size.resizable_to(size)
                ==> outcome is Ok && outcome->Ok_0@ == positions::<BindGroup>(
                old(self)@.bind_groups.len(),
                old(self)@.texture_dependents(texture),
            ) && final(self)@ == old(self)@.texture_resized(texture, size),
    {
        if !self.textures.contains(texture) {
            return Err(WriteError::InvalidHandle);
        }
        let flags = self.texture_dependents(texture);
        let target = self.textures.entry_mut(texture);
        let resized = match size {
            TextureSize::D1(width) => target.resize_1d(width),
            TextureSize::D2(width, height) => target.resize_2d(width, height),
            TextureSize::D3(width, height, depth) => target.resize_3d(width, height, depth),
            _ => Err(WriteError::DimensionMismatch),
        };
        match resized {
            Err(error) => {
                assert(self@.textures =~= old(self)@.textures);
                Err(error)
            },
            Ok(()) => {
                proof {
                    assert(self@.textures =~= old(self)@.texture_resized(texture, size).textures);
                    assert forall|i: int| 0 <= i < self.bind_groups@.len() implies (
                    #[trigger] self.bind_groups@[i])@.resolvable(
                        self.buffers@.len(),
                        self.textures@.len(),
                        self.samplers@.len(),
                    ) by {
                        assert(old(self)@.admits_bind_group(old(self)@.bind_groups[i]));
                    }
                }
                let rebuilt = self.recreate_where(&flags);
                proof {
                    lemma_positions_same::<BindGroup>(
                        flags@.len(),
                        |i: int| flags@[i],
                        old(self)@.texture_dependents(texture),
                    );
                    assert(self@.bind_groups =~= old(self)@.texture_resized(texture, size).bind_groups);
                    lemma_texture_resized(old(self)@, texture, size);
                }
                Ok(rebuilt)
            },
        }
    }

    /// Follows a change of the presentation surface to `width` by `height`.
    ///
    /// Every texture that follows the surface moves to a new allocation, and
    /// every bind group that depends on one of them is rebuilt, once, before
    /// this returns.
    pub fn resize(&mut self, width: u32, height: u32) -> (outcome: ResizeOutcome)
        requires
            old(self).wf(),
        ensures
            final(self).wf(),
            final(self)@ == old(self)@.surface_resized(SurfaceConfiguration { width, height }),
            outcome.textures@ == positions::<Texture>(
                old(self)@.textures.len(),
                old(self)@.surface_textures(),
            ),
            outcome.bind_groups@ == positions::<BindGroup>(
                old(self)@.bind_groups.len(),
                old(self)@.followers(),
            ),
    {
        let config = SurfaceConfiguration { width, height };
        proof {
            assert forall|i: int| 0 <= i < self.bind_groups@.len() implies (
            #[trigger] self.bind_groups@[i])@.resolvable(
                self.buffers@.len(),
                self.textures@.len(),
                self.samplers@.len(),
            ) by {
                assert(old(self)@.admits_bind_group(old(self)@.bind_groups[i]));
            }
        }
        let flags = self.surface_followers();
        self.config = config;

        let mut updated_textures: Vec<TextureHandle> = Vec::new();
        let ghost chosen = old(self)@.surface_textures();
        let mut i: usize = 0;
        while i < self.textures.len()
            invariant
                i <= self.textures@.len(),
                chosen == old(self)@.surface_textures(),
                self.config == config,
                self.passes == old(self).passes,
                self.render_passes == old(self).render_passes,
                self.compute_passes == old(self).compute_passes,
                self.render_pipelines == old(self).render_pipelines,
                self.compute_pipelines == old(self).compute_pipelines,
                self.shaders == old(self).shaders,
                self.buffers == old(self).buffers,
                self.bind_groups == old(self).bind_groups,
                self.samplers == old(self).samplers,
                self.textures@.len() == old(self).textures@.len(),
                forall|j: int|
                    0 <= j < i ==> (#[trigger] self.textures@[j])@ == old(self)@.textures[j].surface_resized(
                        config,
                    ),
                forall|j: int|
                    i <= j < self.textures@.len() ==> (#[trigger] self.textures@[j]) == old(self).textures@[j],
                updated_textures@ == positions::<Texture>(i as nat, chosen),
            decreases self.textures@.len() - i,
        {
            let handle: TextureHandle = Handle::new(i);
            let texture = self.textures.entry_mut(handle);
            if texture.on_resize(&config) {
                updated_textures.push(handle);
            }
            i += 1;
        }
        proof {
            assert(self@.textures =~= old(self)@.textures_resized(config));
        }
        let bind_groups = self.recreate_where(&flags);
        proof {
            lemma_positions_same::<BindGroup>(
                flags@.len(),
                |i: int| flags@[i],
                old(self)@.followers(),
            );
            assert(self@.bind_groups =~= old(self)@.surface_resized(config).bind_groups);
            lemma_surface_resized(old(self)@, config);
        }
        ResizeOutcome { textures: updated_textures, bind_groups }
    }
}

/// Appends each bind group at the slot of its position.
fn push_bind_groups(groups: &Vec<BindGroupHandle>, commands: &mut Vec<Command>)
    requires
        groups@.len() <= u32::MAX,
    ensures
        final(commands)@ == old(commands)@ + bind_group_commands(groups@),
{
    let mut i: usize = 0;
    while i < groups.len()
        invariant
            i <= groups@.len(),
            groups@.len() <= u32::MAX,
            commands@ == old(commands)@ + bind_group_commands(groups@).take(i as int),
        decreases groups@.len() - i,
    {
        let command = Command::SetBindGroup { slot: i as u32, group: groups[i] };
        proof {
            let all = bind_group_commands(groups@);
        }
        commands.push(command);
        i += 1;
    }
    proof {
        let all = bind_group_commands(groups@);
    }
}

/// Appends each buffer as a vertex source, at slots counted from
/// `first_slot`.
fn push_vertex_buffers(buffers: &Vec<BufferHandle>, first_slot: usize, commands: &mut Vec<Command>)
    requires
        first_slot + buffers@.len() <= u32::MAX,
    ensures
        final(commands)@ == old(commands)@ + vertex_buffer_commands(buffers@, first_slot as int),
{
    let mut i: usize = 0;
    while i < buffers.len()
        invariant
            i <= buffers@.len(),
            first_slot + buffers@.len() <= u32::MAX,
            commands@ == old(commands)@ + vertex_buffer_commands(buffers@, first_slot as int).take(i as int),
        decreases buffers@.len() - i,
    {
        let command = Command::SetVertexBuffer { slot: (first_slot + i) as u32, buffer: buffers[i] };
        proof {
            let all = vertex_buffer_commands(buffers@, first_slot as int);
        }
        commands.push(command);
        i += 1;
    }
    proof {
        let all = vertex_buffer_commands(buffers@, first_slot as int);
    }
}

impl RenderManager {
    /// Whether all of `handles` hold the same number of elements.
    fn same_count(&self, handles: &Vec<BufferHandle>) -> (same: bool)
        requires
            self.wf(),
            forall|i: int| 0 <= i < handles@.len() ==> (#[trigger] handles@[i])@ < self@.buffers.len(),
        ensures
            same == same_count(handles@, self@.buffers),
    {
        if handles.len() == 0 {
            return true;
        }
        let first: u64 = self.buffers.entry(handles[0]).len();
        let mut i: usize = 1;
        while i < handles.len()
            invariant
                self.wf(),
                forall|j: int| 0 <= j < handles@.len() ==> (#[trigger] handles@[j])@ < self@.buffers.len(),
                1 <= i <= handles@.len(),
                first == count(handles@[0], self@.buffers),
                forall|j: int| 0 <= j < i ==> count(#[trigger] handles@[j], self@.buffers) == first,
            decreases handles@.len() - i,
        {
            if self.buffers.entry(handles[i]).len() != first {
                return false;
            }
            i += 1;
        }
        true
    }

    /// The smallest element count among `handles`.
    fn min_count(&self, handles: &Vec<BufferHandle>) -> (least: u64)
        requires
            self.wf(),
            handles@.len() > 0,
            forall|i: int| 0 <= i < handles@.len() ==> (#[trigger] handles@[i])@ < self@.buffers.len(),
        ensures
            least == min_count(handles@, handles@.len(), self@.buffers),
    {
        let mut least: u64 = self.buffers.entry(handles[0]).len();
        let mut i: usize = 1;
        while i < handles.len()
            invariant
                self.wf(),
                forall|j: int| 0 <= j < handles@.len() ==> (#[trigger] handles@[j])@ < self@.buffers.len(),
                1 <= i <= handles@.len(),
                least == min_count(handles@, i as nat, self@.buffers),
            decreases handles@.len() - i,
        {
            let next: u64 = self.buffers.entry(handles[i]).len();
            if next < least {
                least = next;
            }
            i += 1;
        }
        least
    }

    /// Appends the buffers `pipeline` draws from and its draw. Nothing is
    /// appended where the draw cannot be issued.
    fn draw(&self, pipeline: &RenderPipeline, commands: &mut Vec<Command>) -> (outcome: Result<(), FrameError>)
        requires
            self.wf(),
            pipeline@.valid(self@.buffers, self@.bind_groups.len(), self@.shaders.len()),
        ensures
            draw_error(pipeline@, self@.buffers) matches Some(error) ==> outcome == Err::<(), FrameError>(error)
                && final(commands)@ == old(commands)@,
            draw_error(pipeline@, self@.buffers) is None ==> outcome is Ok && final(commands)@ == old(commands)@ + draw_commands(pipeline@, self@.buffers),
    {
        let vertex_buffers = pipeline.vertex_buffers();
        let instance_buffers = pipeline.instance_buffers();
        match pipeline.index_buffer() {
            Some(idx_buffer) => {
                if !self.same_count(vertex_buffers) {
                    return Err(FrameError::VertexCountMismatch);
                }
                if !self.same_count(instance_buffers) {
                    return Err(FrameError::InstanceCountMismatch);
                }
                let index = self.buffers.entry(idx_buffer);
                let size: u64 = index.len();
                let instance_size: u64 = if instance_buffers.len() == 0 {
                    1
                } else {
                    self.buffers.entry(instance_buffers[0]).len()
                };
                if size > u32::MAX as u64 || instance_size > u32::MAX as u64 {
                    return Err(FrameError::DrawTooLarge);
                }
                let format = match index.index_format() {
                    Some(format) => format,
                    None => {
                        assert(false);
                        return Err(FrameError::DrawTooLarge);
                    },
                };
                commands.push(Command::SetIndexBuffer { buffer: idx_buffer, format });
                push_vertex_buffers(vertex_buffers, 0, commands);
                // Instance buffers take the slots behind the vertex buffers.
                push_vertex_buffers(instance_buffers, vertex_buffers.len(), commands);
                commands.push(Command::DrawIndexed { indices: size as u32, instances: instance_size as u32 });
                Ok(())
            },
            None => {
                // Without vertex buffers a single vertex is drawn.
                let vertices: u64 = if vertex_buffers.len() == 0 {
                    1
                } else {
                    self.min_count(vertex_buffers)
                };
                if vertices > u32::MAX as u64 {
                    return Err(FrameError::DrawTooLarge);
                }
                push_vertex_buffers(vertex_buffers, 0, commands);
                commands.push(Command::Draw { vertices: vertices as u32, instances: 1 });
                Ok(())
            },
        }
    }

    /// Appends the commands of the render pass `pass`: its outputs, its
    /// beginning, each of its pipelines with its bind groups, buffers and
    /// draw, and its end.
    fn run_render_pass(&self, pass: RenderPassHandle, commands: &mut Vec<Command>) -> (outcome: Result<
        (),
        FrameError,
    >)
        requires
            self.wf(),
            pass@ < self@.render_passes.len(),
        ensures
            self@.pass_error(PassHandle::RenderPass(pass)) matches Some(error) ==> outcome == Err::<
                (),
                FrameError,
            >(error),
            self@.pass_error(PassHandle::RenderPass(pass)) is None ==> outcome is Ok && final(commands)@ == old(commands)@ + self@.pass_commands(PassHandle::RenderPass(pass)),
    {
        let pass_desc = self.render_passes.entry(pass);
        let ghost view = pass_desc@;

        let mut i: usize = 0;
        while i < pass_desc.color_attachments.len()
            invariant
                i <= pass_desc.color_attachments@.len(),
                view == pass_desc@,
                commands@ == old(commands)@ + Seq::new(
                    i as nat,
                    |j: int|
                        Command::AttachColor {
                            target: attachment_target(view.color_attachments[j].texture),
                            ops: view.color_attachments[j].ops,
                        },
                ),
            decreases pass_desc.color_attachments@.len() - i,
        {
            let attachment = pass_desc.color_attachments[i];
            let target = if attachment.texture.index() == 0 {
                AttachmentTarget::Surface
            } else {
                AttachmentTarget::Texture(attachment.texture)
            };
            commands.push(Command::AttachColor { target, ops: attachment.ops });
            i += 1;
        }
        match pass_desc.depth_attachments {
            Some(attachment) => {
                commands.push(Command::AttachDepth { attachment });
            },
            None => {},
        }
        commands.push(Command::BeginRenderPass { pass });
        let ghost begun = commands@;

        let mut i: usize = 0;
        while i < pass_desc.pipelines.len()
            invariant
                self.wf(),
                i <= pass_desc.pipelines@.len(),
                view == pass_desc@,
                view == self@.render_passes[pass@ as int],
                view.valid(self@.render_pipelines.len(), self@.textures.len()),
                render_pipelines_error(view.pipelines, i as nat, self@.render_pipelines, self@.buffers) is None,
                commands@ == begun + render_pipelines_commands(
                    view.pipelines,
                    i as nat,
                    self@.render_pipelines,
                    self@.buffers,
                ),
            decreases pass_desc.pipelines@.len() - i,
        {
            let handle = pass_desc.pipelines[i];
            let pipeline = self.render_pipelines.entry(handle);
            assert(pipeline@ == self@.render_pipelines[handle@ as int]);
            commands.push(Command::SetRenderPipeline { pipeline: handle });
            push_bind_groups(pipeline.bind_groups(), commands);
            match self.draw(pipeline, commands) {
                Err(error) => {
                    proof {
                        lemma_pipelines_error_from(
                            view.pipelines,
                            (i + 1) as nat,
                            view.pipelines.len(),
                            self@.render_pipelines,
                            self@.buffers,
                        );
                    }
                    return Err(error);
                },
                Ok(()) => {},
            }
            i += 1;
        }
        commands.push(Command::EndRenderPass);
        Ok(())
    }

    /// Appends the commands of the compute pass `pass`: its beginning, each of
    /// its pipelines with its bind groups and its dispatch, and its end.
    fn run_compute_pass(&self, pass: ComputePassHandle, commands: &mut Vec<Command>)
        requires
            self.wf(),
            pass@ < self@.compute_passes.len(),
        ensures
            final(commands)@ == old(commands)@ + self@.pass_commands(PassHandle::ComputePass(pass)),
    {
        let pass_desc = self.compute_passes.entry(pass);
        let ghost view = pass_desc@;
        assert(view == self@.compute_passes[pass@ as int]);
        commands.push(Command::BeginComputePass { pass });
        let ghost begun = commands@;
        let pipelines = pass_desc.pipelines();

        let mut i: usize = 0;
        while i < pipelines.len()
            invariant
                self.wf(),
                i <= pipelines@.len(),
                pipelines@ == view.pipelines,
                view.valid(self@.compute_pipelines.len()),
                commands@ == begun + compute_pipelines_commands(view.pipelines, i as nat, self@.compute_pipelines),
            decreases pipelines@.len() - i,
        {
            let handle = pipelines[i];
            let pipeline = self.compute_pipelines.entry(handle);
            assert(pipeline@ == self@.compute_pipelines[handle@ as int]);
            commands.push(Command::SetComputePipeline { pipeline: handle });
            push_bind_groups(pipeline.bind_groups(), commands);
            let work_groups = pipeline.work_groups();
            commands.push(
                Command::DispatchWorkgroups { x: work_groups[0], y: work_groups[1], z: work_groups[2] },
            );
            i += 1;
        }
        commands.push(Command::EndComputePass);
    }

    /// Decides what the next frame draws, once its presentation target was
    /// acquired.
    ///
    /// The commands replay every pass in the order the passes run and end with
    /// the submission and the presentation. Where a draw cannot be issued from
    /// the buffers as they are, the first such draw is reported and the frame
    /// draws nothing. The context itself never changes.
    pub fn render(&self) -> (outcome: Result<Vec<Command>, FrameError>)
        requires
            self.wf(),
        ensures
            self@.frame_error() matches Some(error) ==> outcome is Err && outcome->Err_0 == error,
            self@.frame_error() is None ==> outcome is Ok && outcome->Ok_0@ == self@.frame_commands(),
    {
        let mut commands: Vec<Command> = Vec::new();
        let mut i: usize = 0;
        while i < self.passes.len()
            invariant
                self.wf(),
                i <= self@.passes.len(),
                self@.passes_error(i as nat) is None,
                commands@ == self@.passes_commands(i as nat),
            decreases self@.passes.len() - i,
        {
            let pass = match self.passes.get(i) {
                Some(pass) => pass,
                None => {
                    assert(false);
                    return Ok(commands);
                },
            };
            match pass {
                PassHandle::RenderPass(pass) => {
                    match self.run_render_pass(pass, &mut commands) {
                        Err(error) => {
                            proof {
                                self@.lemma_passes_error_from((i + 1) as nat, self@.passes.len());
                            }
                            return Err(error);
                        },
                        Ok(()) => {},
                    }
                },
                PassHandle::ComputePass(pass) => {
                    self.run_compute_pass(pass, &mut commands);
                },
            }
            i += 1;
        }
        commands.push(Command::Submit);
        commands.push(Command::Present);
        Ok(commands)
    }
}

impl RenderManager {
    /// A builder for a render pipeline of this context.
    pub fn render_pipeline_builder(&self, label: Option<&str>) -> (builder: RenderPipelineBuilder)
        ensures
            label_view(builder.name) == text_view(label),
            builder.vertex_shader is None,
            builder.fragment_shader is None,
            builder.topology is None,
            builder.front_face is None,
            builder.culling is None,
            builder.polygon_mode == PolygonMode::Fill,
            builder.vertex_buffers@ == Seq::<BufferHandle>::empty(),
            builder.index_buffer is None,
            builder.instance_buffers@ == Seq::<BufferHandle>::empty(),
            builder.bind_groups@ == Seq::<BindGroupHandle>::empty(),
            builder.depth_stencil is None,
            !builder.unclipped_depth,
            !builder.conservative,
    {
        RenderPipelineBuilder::new(label)
    }

    /// A builder for a compute pipeline of this context.
    pub fn compute_pipeline_builder(&self, label: Option<&str>) -> (builder: ComputePipelineBuilder)
        ensures
            label_view(builder.name) == text_view(label),
            builder.bind_groups@ == Seq::<BindGroupHandle>::empty(),
            builder.shader is None,
            builder.work_groups is None,
    {
        ComputePipelineBuilder::new(label)
    }

    /// A builder for a render pass of this context.
    pub fn render_pass_builder(&self, label: Option<&str>) -> (builder: RenderPassBuilder)
        ensures
            label_view(builder.name) == text_view(label),
            builder.color_attachments@ == Seq::<ColorAttachment>::empty(),
            builder.depth_attachments is None,
            builder.pipelines@ == Seq::<PipelineHandle>::empty(),
    {
        RenderPassBuilder::new(label)
    }

    /// A builder for a compute pass of this context.
    pub fn compute_pass_builder(&self, label: Option<&str>) -> (builder: ComputePassBuilder)
        ensures
            label_view(builder.name) == text_view(label),
            builder.pipelines@ == Seq::<ComputePipelineHandle>::empty(),
    {
        ComputePassBuilder::new(label)
    }

    /// A builder for a buffer of elements of type `T`.
    pub fn buffer_builder<T: BufferContents>(&self, label: Option<&str>) -> (builder: BufferBuilder)
        ensures
            builder.usages == BufferUsages::none(),
            label_view(builder.label) == text_view(label),
            builder.element == T::element_type(),
            builder.vertex_format is None,
    {
        BufferBuilder::new(label, T::element())
    }

    /// A builder for a texture whose texels are of type `T`.
    pub fn texture_builder<T: TextureContents>(&self, label: Option<&str>) -> (builder: TextureBuilder)
        ensures
            label_view(builder.label) == text_view(label),
            builder.size is None,
            builder.mip_level_count == 1,
            builder.sample_count == 1,
            builder.usage == TextureUsages::none(),
            builder.format == T::texel_type().format,
            builder.data_type == T::texel_type().data_type,
    {
        let texel = T::texel();
        TextureBuilder::new(label, texel.format, texel.data_type)
    }

    /// A builder for a bind group of this context.
    pub fn bind_group_builder(&self, label: Option<&str>) -> (builder: BindGroupBuilder)
        ensures
            builder.name() == text_view(label),
            builder.bindings() == Seq::<Binding>::empty(),
            builder.deferred() is None,
    {
        BindGroupBuilder::new(label)
    }

    /// A builder for a sampler of this context.
    pub fn texture_sampler_builder(&self, label: Option<&str>) -> (builder: TextureSamplerBuilder)
        ensures
            label_view(builder.name) == text_view(label),
            builder.descriptor == SamplerDescriptor::initial(),
    {
        TextureSamplerBuilder::new(label)
    }

    /// Replaces the pipelines of the render pass `pass` by `pipelines`, in
    /// that order.
    ///
    /// Every pipeline has to be one of this context; what the pipelines are
    /// is not looked at. The pipelines are checked before the pass.
    pub fn reorder_pipelines(&mut self, pass: RenderPassHandle, pipelines: &[PipelineHandle]) -> (outcome: Result<
        (),
        BuildError,
    >)
        requires
            old(self).wf(),
        ensures
            final(self).wf(),
            !(forall|i: int|
                0 <= i < pipelines@.len() ==> (#[trigger] pipelines@[i])@ < old(self)@.render_pipelines.len())
                ==> outcome == Err::<(), BuildError>(BuildError::InvalidHandle(ResourceKind::RenderPipeline))
                && final(self)@ == old(self)@,
            (forall|i: int|
                0 <= i < pipelines@.len() ==> (#[trigger] pipelines@[i])@ < old(self)@.render_pipelines.len())
                && pass@ >= old(self)@.render_passes.len() ==> outcome == Err::<(), BuildError>(
                BuildError::InvalidHandle(ResourceKind::RenderPass),
            ) && final(self)@ == old(self)@,
            (forall|i: int|
                0 <= i < pipelines@.len() ==> (#[trigger] pipelines@[i])@ < old(self)@.render_pipelines.len())
                && pass@ < old(self)@.render_passes.len() ==> outcome is Ok && final(self)@ == (ManagerView {
                render_passes: old(self)@.render_passes.update(
                    pass@ as int,
                    RenderPassView { pipelines: pipelines@, ..old(self)@.render_passes[pass@ as int] },
                ),
                ..old(self)@
            }),
    {
        if !self.render_pipelines.contains_all(pipelines) {
            return Err(BuildError::InvalidHandle(ResourceKind::RenderPipeline));
        }
        if !self.render_passes.contains(pass) {
            return Err(BuildError::InvalidHandle(ResourceKind::RenderPass));
        }
        let target = self.render_passes.entry_mut(pass);
        target.reorder_pipelines(pipelines);
        proof {
            let after = ManagerView {
                render_passes: old(self)@.render_passes.update(
                    pass@ as int,
                    RenderPassView { pipelines: pipelines@, ..old(self)@.render_passes[pass@ as int] },
                ),
                ..old(self)@
            };
            assert(self@.render_passes =~= after.render_passes);
        }
        Ok(())
    }
}

} // verus!
