//! Render pipelines: a compiled program with its fixed-function configuration
//! and the resources it draws from.

use crate::bind_group::BindGroupHandle;
use crate::buffer::{BufferHandle, BufferView, IndexFormat, index_format_of};
use crate::error::{BuildError, ResourceKind};
use crate::frame::index_format;
use crate::handle::Handle;
use crate::label::{borrowed_label, label_view, owned_label, text_view};
use crate::manager::RenderManager;
use crate::sampler::CompareFunction;
use crate::shader::ShaderHandle;
use crate::state::ManagerView;
use crate::texture::TextureFormat;
use crate::vertex::{VertexBufferLayout, VertexLayoutView};
use vstd::prelude::*;

verus! {

pub type PipelineHandle = Handle<RenderPipeline>;

/// How vertices are assembled into primitives.
#[derive(Clone, Copy, Debug, PartialEq, Eq, Structural)]
pub enum PrimitiveTopology {
    PointList,
    LineList,
    LineStrip,
    TriangleList,
    TriangleStrip,
}

/// The winding order that marks the front of a triangle.
#[derive(Clone, Copy, Debug, PartialEq, Eq, Structural)]
pub enum FrontFace {
    Ccw,
    Cw,
}

/// A side of a triangle.
#[derive(Clone, Copy, Debug, PartialEq, Eq, Structural)]
pub enum Face {
    Front,
    Back,
}

/// How a polygon is filled.
#[derive(Clone, Copy, Debug, PartialEq, Eq, Structural)]
pub enum PolygonMode {
    Fill,
    Line,
    Point,
}

/// What happens to a stencil value.
#[derive(Clone, Copy, Debug, PartialEq, Eq, Structural)]
pub enum StencilOperation {
    Keep,
    Zero,
    Replace,
    Invert,
    IncrementClamp,
    DecrementClamp,
    IncrementWrap,
    DecrementWrap,
}

/// The stencil test of one side of a primitive.
#[derive(Clone, Copy, Debug, PartialEq, Eq, Structural)]
pub struct StencilFaceState {
    pub compare: CompareFunction,
    pub fail_op: StencilOperation,
    pub depth_fail_op: StencilOperation,
    pub pass_op: StencilOperation,
}

#[derive(Clone, Copy, Debug, PartialEq, Eq, Structural)]
pub struct StencilState {
    pub front: StencilFaceState,
    pub back: StencilFaceState,
    pub read_mask: u32,
    pub write_mask: u32,
}

/// The depth bias. Slope scale and clamp are single-precision values held as
/// their bit patterns.
#[derive(Clone, Copy, Debug, PartialEq, Eq, Structural)]
pub struct DepthBiasState {
    pub constant: i32,
    pub slope_scale: u32,
    pub clamp: u32,
}

#[derive(Clone, Copy, Debug, PartialEq, Eq, Structural)]
pub struct DepthStencilState {
    pub format: TextureFormat,
    pub depth_write_enabled: bool,
    pub depth_compare: CompareFunction,
    pub stencil: StencilState,
    pub bias: DepthBiasState,
}

/// The fixed-function configuration of primitive assembly and rasterization.
#[derive(Clone, Copy, Debug, PartialEq, Eq, Structural)]
pub struct PrimitiveState {
    pub topology: PrimitiveTopology,
    /// The index format that marks a strip restart: set for strip topologies
    /// that draw from an index buffer.
    pub strip_index_format: Option<IndexFormat>,
    pub front_face: FrontFace,
    pub cull_mode: Option<Face>,
    pub unclipped_depth: bool,
    pub polygon_mode: PolygonMode,
    pub conservative: bool,
}

/// Whether `topology` joins each primitive to the one before it.
pub open spec fn strip(topology: PrimitiveTopology) -> bool {
    topology is LineStrip || topology is TriangleStrip
}

/// Whether `topology` is a strip topology, as the graphics backend
/// `wgpu::PrimitiveTopology::is_strip` decides it: its source answers true for
/// the line strip and the triangle strip and false for the three lists.
#[verifier::external_body]
pub(crate) fn is_strip(topology: PrimitiveTopology) -> (answer: bool)
    ensures
        answer == strip(topology),
{
    let outside = match topology {
        PrimitiveTopology::PointList => wgpu::PrimitiveTopology::PointList,
        PrimitiveTopology::LineList => wgpu::PrimitiveTopology::LineList,
        PrimitiveTopology::LineStrip => wgpu::PrimitiveTopology::LineStrip,
        PrimitiveTopology::TriangleList => wgpu::PrimitiveTopology::TriangleList,
        PrimitiveTopology::TriangleStrip => wgpu::PrimitiveTopology::TriangleStrip,
    };
    outside.is_strip()
}

/// A shader module and the function in it that a stage runs.
pub struct ShaderEntry {
    pub shader: ShaderHandle,
    pub entry_point: String,
}

/// What a [`ShaderEntry`] is, as plain values.
pub struct ShaderEntryView {
    pub shader: ShaderHandle,
    pub entry_point: Seq<char>,
}

impl View for ShaderEntry {
    type V = ShaderEntryView;

    open spec fn view(&self) -> ShaderEntryView {
        ShaderEntryView { shader: self.shader, entry_point: self.entry_point@ }
    }
}

/// The view of an optional shader entry.
pub open spec fn entry_view(entry: Option<ShaderEntry>) -> Option<ShaderEntryView> {
    match entry {
        Some(entry) => Some(entry@),
        None => None,
    }
}

/// What each of `layouts` says, as plain values.
pub open spec fn layout_views(layouts: Seq<VertexBufferLayout>) -> Seq<VertexLayoutView> {
    Seq::new(layouts.len(), |i: int| layouts[i]@)
}

/// What a [`RenderPipeline`] is, as plain values.
pub struct RenderPipelineView {
    pub name: Option<Seq<char>>,
    pub vertex_shader: ShaderEntryView,
    pub fragment_shader: Option<ShaderEntryView>,
    pub primitive: PrimitiveState,
    pub depth_stencil: Option<DepthStencilState>,
    pub vertex_buffers: Seq<BufferHandle>,
    pub instance_buffers: Seq<BufferHandle>,
    pub index_buffer: Option<BufferHandle>,
    pub bind_groups: Seq<BindGroupHandle>,
    /// The layouts of the vertex buffers, then of the instance buffers, as
    /// they were when the pipeline was built.
    pub layouts: Seq<VertexLayoutView>,
}

impl RenderPipelineView {
    /// Every reference of the pipeline resolves: its shaders among `shaders`
    /// shaders, its bind groups among `bind_groups` bind groups, its buffers
    /// among `buffers`. The index buffer has elements an index can have, and
    /// every bind group and vertex source has a slot number.
    pub open spec fn valid(self, buffers: Seq<BufferView>, bind_groups: nat, shaders: nat) -> bool {
        &&& self.vertex_shader.shader@ < shaders
        &&& self.fragment_shader matches Some(fragment) ==> fragment.shader@ < shaders
        &&& forall|i: int| 0 <= i < self.bind_groups.len() ==> (#[trigger] self.bind_groups[i])@ < bind_groups
        &&& forall|i: int|
            0 <= i < self.vertex_buffers.len() ==> (#[trigger] self.vertex_buffers[i])@ < buffers.len()
        &&& forall|i: int|
            0 <= i < self.instance_buffers.len() ==> (#[trigger] self.instance_buffers[i])@ < buffers.len()
        &&& self.index_buffer matches Some(index) ==> index@ < buffers.len() && index_format_of(
            buffers[index@ as int].element.size,
        ) is Some
        &&& self.bind_groups.len() <= u32::MAX
        &&& self.vertex_buffers.len() + self.instance_buffers.len() <= u32::MAX
    }
}

pub struct RenderPipeline {
    pub(crate) name: Option<String>,
    pub(crate) vertex_shader: ShaderEntry,
    pub(crate) fragment_shader: Option<ShaderEntry>,
    pub(crate) primitive: PrimitiveState,
    pub(crate) depth_stencil: Option<DepthStencilState>,
    pub(crate) vertex_buffers: Vec<BufferHandle>,
    pub(crate) instance_buffers: Vec<BufferHandle>,
    pub(crate) index_buffers: Option<BufferHandle>,
    pub(crate) bind_groups: Vec<BindGroupHandle>,
    pub(crate) layouts: Vec<VertexBufferLayout>,
}

impl View for RenderPipeline {
    type V = RenderPipelineView;

    closed spec fn view(&self) -> RenderPipelineView {
        RenderPipelineView {
            name: label_view(self.name),
            vertex_shader: self.vertex_shader@,
            fragment_shader: entry_view(self.fragment_shader),
            primitive: self.primitive,
            depth_stencil: self.depth_stencil,
            vertex_buffers: self.vertex_buffers@,
            instance_buffers: self.instance_buffers@,
            index_buffer: self.index_buffers,
            bind_groups: self.bind_groups@,
            layouts: layout_views(self.layouts@),
        }
    }
}

/// What each of `pipelines` is, as plain values.
pub open spec fn render_pipeline_views(pipelines: Seq<RenderPipeline>) -> Seq<RenderPipelineView> {
    Seq::new(pipelines.len(), |i: int| pipelines[i]@)
}

impl RenderPipeline {
    pub fn name(&self) -> (name: Option<&str>)
        ensures
            text_view(name) == self@.name,
    {
        borrowed_label(&self.name)
    }

    pub fn vertex_shader(&self) -> (entry: &ShaderEntry)
        ensures
            entry@ == self@.vertex_shader,
    {
        &self.vertex_shader
    }

    pub fn fragment_shader(&self) -> (entry: Option<&ShaderEntry>)
        ensures
            self@.fragment_shader matches Some(view) ==> entry matches Some(e) && e@ == view,
            self@.fragment_shader is None ==> entry is None,
    {
        match &self.fragment_shader {
            Some(entry) => Some(entry),
            None => None,
        }
    }

    pub fn primitive(&self) -> (primitive: PrimitiveState)
        ensures
            primitive == self@.primitive,
    {
        self.primitive
    }

    pub fn depth_stencil(&self) -> (state: Option<DepthStencilState>)
        ensures
            state == self@.depth_stencil,
    {
        self.depth_stencil
    }

    pub fn vertex_buffers(&self) -> (buffers: &Vec<BufferHandle>)
        ensures
            buffers@ == self@.vertex_buffers,
    {
        &self.vertex_buffers
    }

    pub fn instance_buffers(&self) -> (buffers: &Vec<BufferHandle>)
        ensures
            buffers@ == self@.instance_buffers,
    {
        &self.instance_buffers
    }

    pub fn index_buffer(&self) -> (buffer: Option<BufferHandle>)
        ensures
            buffer == self@.index_buffer,
    {
        self.index_buffers
    }

    pub fn bind_groups(&self) -> (groups: &Vec<BindGroupHandle>)
        ensures
            groups@ == self@.bind_groups,
    {
        &self.bind_groups
    }

    /// The layouts of the vertex buffers, then of the instance buffers, as
    /// they were when the pipeline was built.
    pub fn layouts(&self) -> (layouts: &Vec<VertexBufferLayout>)
        ensures
            layout_views(layouts@) == self@.layouts,
    {
        &self.layouts
    }
}

/// The layouts the buffers `handles` name were marked with.
pub open spec fn snapshot(handles: Seq<BufferHandle>, buffers: Seq<BufferView>) -> Seq<VertexLayoutView> {
    Seq::new(handles.len(), |i: int| buffers[handles[i]@ as int].vertex_format.unwrap())
}

/// Every one of `handles` names one of `buffers`.
pub open spec fn buffers_known(handles: Seq<BufferHandle>, buffers: Seq<BufferView>) -> bool {
    forall|i: int| 0 <= i < handles.len() ==> (#[trigger] handles[i])@ < buffers.len()
}

/// Every buffer `handles` name was marked as a vertex or instance source.
pub open spec fn buffers_laid_out(handles: Seq<BufferHandle>, buffers: Seq<BufferView>) -> bool {
    forall|i: int| 0 <= i < handles.len() ==> buffers[(#[trigger] handles[i])@ as int].vertex_format is Some
}

/// Collects the configuration of a render pipeline, and registers the
/// pipeline.
pub struct RenderPipelineBuilder {
    pub name: Option<String>,
    pub vertex_shader: Option<ShaderEntry>,
    pub fragment_shader: Option<ShaderEntry>,
    pub topology: Option<PrimitiveTopology>,
    pub front_face: Option<FrontFace>,
    pub culling: Option<Face>,
    pub polygon_mode: PolygonMode,
    pub vertex_buffers: Vec<BufferHandle>,
    pub index_buffer: Option<BufferHandle>,
    pub instance_buffers: Vec<BufferHandle>,
    pub bind_groups: Vec<BindGroupHandle>,
    pub depth_stencil: Option<DepthStencilState>,
    pub unclipped_depth: bool,
    pub conservative: bool,
}

impl RenderPipelineBuilder {
    /// A builder without shaders, topology or front face: filled polygons, no
    /// culling, no depth test, no buffers and no bind groups.
    pub fn new(name: Option<&str>) -> (builder: RenderPipelineBuilder)
        ensures
            label_view(builder.name) == text_view(name),
            builder.vertex_shader is None,
            builder.fragment_shader is None,
            builder.topology is None,
            builder.front_face is None,
            builder.culling is None,
            builder.polygon_mode == PolygonMode::Fill,
            builder.vertex_buffers@ == Seq::<BufferHandle>::empty(),
            builder.index_buffer is None,
            builder.instance_buffers@ == Seq::<BufferHandle>::empty(),
            builder.bind_groups@ == Seq::<BindGroupHandle>::empty(),
            builder.depth_stencil is None,
            !builder.unclipped_depth,
            !builder.conservative,
    {
        RenderPipelineBuilder {
            name: owned_label(name),
            vertex_shader: None,
            fragment_shader: None,
            topology: None,
            front_face: None,
            culling: None,
            polygon_mode: PolygonMode::Fill,
            vertex_buffers: Vec::new(),
            index_buffer: None,
            instance_buffers: Vec::new(),
            bind_groups: Vec::new(),
            depth_stencil: None,
            unclipped_depth: false,
            conservative: false,
        }
    }

    pub fn vertex_shader(self, shader: ShaderHandle, entry_point: &str) -> (builder: RenderPipelineBuilder)
        ensures
            builder == (RenderPipelineBuilder { vertex_shader: builder.vertex_shader, ..self }),
            entry_view(builder.vertex_shader) == Some(ShaderEntryView { shader, entry_point: entry_point@ }),
    {
        let mut builder = self;
        builder.vertex_shader = Some(ShaderEntry { shader, entry_point: entry_point.to_owned() });
        builder
    }

    pub fn fragment_shader(self, shader: ShaderHandle, entry_point: &str) -> (builder: RenderPipelineBuilder)
        ensures
            builder == (RenderPipelineBuilder { fragment_shader: builder.fragment_shader, ..self }),
            entry_view(builder.fragment_shader) == Some(ShaderEntryView { shader, entry_point: entry_point@ }),
    {
        let mut builder = self;
        builder.fragment_shader = Some(ShaderEntry { shader, entry_point: entry_point.to_owned() });
        builder
    }

    pub fn topology(self, topology: PrimitiveTopology) -> (builder: RenderPipelineBuilder)
        ensures
            builder == (RenderPipelineBuilder { topology: Some(topology), ..self }),
    {
        let mut builder = self;
        builder.topology = Some(topology);
        builder
    }

    pub fn polygon_mode(self, polygon_mode: PolygonMode) -> (builder: RenderPipelineBuilder)
        ensures
            builder == (RenderPipelineBuilder { polygon_mode, ..self }),
    {
        let mut builder = self;
        builder.polygon_mode = polygon_mode;
        builder
    }

    pub fn front_face(self, front_face: FrontFace) -> (builder: RenderPipelineBuilder)
        ensures
            builder == (RenderPipelineBuilder { front_face: Some(front_face), ..self }),
    {
        let mut builder = self;
        builder.front_face = Some(front_face);
        builder
    }

    pub fn culling(self, culling_face: Face) -> (builder: RenderPipelineBuilder)
        ensures
            builder == (RenderPipelineBuilder { culling: Some(culling_face), ..self }),
    {
        let mut builder = self;
        builder.culling = Some(culling_face);
        builder
    }

    pub fn add_vertex_buffer(self, buffer: BufferHandle) -> (builder: RenderPipelineBuilder)
        ensures
            builder == (RenderPipelineBuilder { vertex_buffers: builder.vertex_buffers, ..self }),
            builder.vertex_buffers@ == self.vertex_buffers@.push(buffer),
    {
        let mut builder = self;
        builder.vertex_buffers.push(buffer);
        builder
    }

    pub fn add_instance_buffer(self, buffer: BufferHandle) -> (builder: RenderPipelineBuilder)
        ensures
            builder == (RenderPipelineBuilder { instance_buffers: builder.instance_buffers, ..self }),
            builder.instance_buffers@ == self.instance_buffers@.push(buffer),
    {
        let mut builder = self;
        builder.instance_buffers.push(buffer);
        builder
    }

    pub fn add_bind_group(self, bind_group: BindGroupHandle) -> (builder: RenderPipelineBuilder)
        ensures
            builder == (RenderPipelineBuilder { bind_groups: builder.bind_groups, ..self }),
            builder.bind_groups@ == self.bind_groups@.push(bind_group),
    {
        let mut builder = self;
        builder.bind_groups.push(bind_group);
        builder
    }

    pub fn add_index_buffer(self, buffer: BufferHandle) -> (builder: RenderPipelineBuilder)
        ensures
            builder == (RenderPipelineBuilder { index_buffer: Some(buffer), ..self }),
    {
        let mut builder = self;
        builder.index_buffer = Some(buffer);
        builder
    }

    /// Switches the depth and stencil test on, against an attachment of
    /// `format`.
    pub fn depth_stencil(
        self,
        format: TextureFormat,
        write_enabled: bool,
        compare: CompareFunction,
        stencil: StencilState,
        bias: DepthBiasState,
    ) -> (builder: RenderPipelineBuilder)
        ensures
            builder == (RenderPipelineBuilder {
                depth_stencil: Some(
                    DepthStencilState {
                        format,
                        depth_write_enabled: write_enabled,
                        depth_compare: compare,
                        stencil,
                        bias,
                    },
                ),
                ..self
            }),
    {
        let mut builder = self;
        builder.depth_stencil = Some(
            DepthStencilState { format, depth_write_enabled: write_enabled, depth_compare: compare, stencil, bias },
        );
        builder
    }

    pub fn unclipped_depth(self) -> (builder: RenderPipelineBuilder)
        ensures
            builder == (RenderPipelineBuilder { unclipped_depth: true, ..self }),
    {
        let mut builder = self;
        builder.unclipped_depth = true;
        builder
    }

    pub fn conservative_rasterization(self) -> (builder: RenderPipelineBuilder)
        ensures
            builder == (RenderPipelineBuilder { conservative: true, ..self }),
    {
        let mut builder = self;
        builder.conservative = true;
        builder
    }

    /// Every shader of the pipeline is one of `shaders` shaders.
    pub open spec fn shaders_known(self, shaders: nat) -> bool {
        &&& self.vertex_shader matches Some(vertex) ==> vertex.shader@ < shaders
        &&& self.fragment_shader matches Some(fragment) ==> fragment.shader@ < shaders
    }

    /// Every bind group of the pipeline is one of `bind_groups` bind groups.
    pub open spec fn bind_groups_known(self, bind_groups: nat) -> bool {
        forall|i: int| 0 <= i < self.bind_groups@.len() ==> (#[trigger] self.bind_groups@[i])@ < bind_groups
    }

    /// What stands against building the pipeline in `manager`.
    ///
    /// The mandatory fields come first: vertex shader, topology, front face.
    /// Then every reference has to resolve: bind groups, shaders, vertex
    /// buffers, instance buffers, the index buffer. Vertex and instance
    /// buffers must have been marked as such, the index buffer must hold
    /// elements of 2 or 4 bytes, and there must be a slot number for every
    /// bind group and every vertex source.
    pub open spec fn build_error(self, manager: ManagerView) -> Option<BuildError> {
        if self.vertex_shader is None {
            Some(BuildError::MissingVertexShader)
        } else if self.topology is None {
            Some(BuildError::MissingTopology)
        } else if self.front_face is None {
            Some(BuildError::MissingFrontFace)
        } else if !self.bind_groups_known(manager.bind_groups.len()) {
            Some(BuildError::InvalidHandle(ResourceKind::BindGroup))
        } else if !self.shaders_known(manager.shaders.len()) {
            Some(BuildError::InvalidHandle(ResourceKind::Shader))
        } else if !buffers_known(self.vertex_buffers@, manager.buffers) {
            Some(BuildError::InvalidHandle(ResourceKind::Buffer))
        } else if !buffers_laid_out(self.vertex_buffers@, manager.buffers) {
            Some(BuildError::NotVertexBuffer)
        } else if !buffers_known(self.instance_buffers@, manager.buffers) {
            Some(BuildError::InvalidHandle(ResourceKind::Buffer))
        } else if !buffers_laid_out(self.instance_buffers@, manager.buffers) {
            Some(BuildError::NotInstanceBuffer)
        } else if self.index_buffer matches Some(index) && index@ >= manager.buffers.len() {
            Some(BuildError::InvalidHandle(ResourceKind::Buffer))
        } else if self.index_buffer matches Some(index) && index_format_of(
            manager.buffers[index@ as int].element.size,
        ) is None {
            Some(BuildError::IndexWidth)
        } else if self.bind_groups@.len() > u32::MAX || self.vertex_buffers@.len()
            + self.instance_buffers@.len() > u32::MAX {
            Some(BuildError::TooManySlots)
        } else {
            None
        }
    }

    /// The index format that marks a strip restart: that of the index buffer,
    /// for a strip topology that draws from one.
    pub open spec fn strip_index_format(self, manager: ManagerView) -> Option<IndexFormat> {
        if strip(self.topology.unwrap()) && self.index_buffer is Some {
            index_format_of(manager.buffers[self.index_buffer.unwrap()@ as int].element.size)
        } else {
            None
        }
    }

    /// The pipeline this configuration describes, its layouts taken from the
    /// buffers of `manager` as they are.
    pub open spec fn built(self, manager: ManagerView) -> RenderPipelineView {
        RenderPipelineView {
            name: label_view(self.name),
            vertex_shader: self.vertex_shader.unwrap()@,
            fragment_shader: entry_view(self.fragment_shader),
            primitive: PrimitiveState {
                topology: self.topology.unwrap(),
                strip_index_format: self.strip_index_format(manager),
                front_face: self.front_face.unwrap(),
                cull_mode: self.culling,
                unclipped_depth: self.unclipped_depth,
                polygon_mode: self.polygon_mode,
                conservative: self.conservative,
            },
            depth_stencil: self.depth_stencil,
            vertex_buffers: self.vertex_buffers@,
            instance_buffers: self.instance_buffers@,
            index_buffer: self.index_buffer,
            bind_groups: self.bind_groups@,
            layouts: snapshot(self.vertex_buffers@, manager.buffers) + snapshot(
                self.instance_buffers@,
                manager.buffers,
            ),
        }
    }

    /// Registers the pipeline.
    pub fn build(self, manager: &mut RenderManager) -> (outcome: Result<PipelineHandle, BuildError>)
        requires
            old(manager).wf(),
        ensures
            final(manager).wf(),
            self.build_error(old(manager)@) matches Some(error) ==> outcome == Err::<
                PipelineHandle,
                BuildError,
            >(error) && final(manager)@ == old(manager)@,
            self.build_error(old(manager)@) is None ==> outcome is Ok && outcome->Ok_0@ == old(manager)@.render_pipelines.len() && final(manager)@ == (ManagerView {
                render_pipelines: old(manager)@.render_pipelines.push(self.built(old(manager)@)),
                ..old(manager)@
            }),
    {
        let vertex_shader = match self.vertex_shader {
            Some(entry) => entry,
            None => {
                return Err(BuildError::MissingVertexShader);
            },
        };
        let topology = match self.topology {
            Some(topology) => topology,
            None => {
                return Err(BuildError::MissingTopology);
            },
        };
        let front_face = match self.front_face {
            Some(front_face) => front_face,
            None => {
                return Err(BuildError::MissingFrontFace);
            },
        };
        if !manager.knows_bind_groups(self.bind_groups.as_slice()) {
            return Err(BuildError::InvalidHandle(ResourceKind::BindGroup));
        }
        if manager.get_shader(vertex_shader.shader).is_none() {
            return Err(BuildError::InvalidHandle(ResourceKind::Shader));
        }
        match &self.fragment_shader {
            Some(fragment) => {
                if manager.get_shader(fragment.shader).is_none() {
                    return Err(BuildError::InvalidHandle(ResourceKind::Shader));
                }
            },
            None => {},
        }
        let mut layouts: Vec<VertexBufferLayout> = Vec::new();
        match collect_layouts(manager, &self.vertex_buffers, &mut layouts) {
            Some(LayoutError::Unknown) => {
                return Err(BuildError::InvalidHandle(ResourceKind::Buffer));
            },
            Some(LayoutError::Unmarked) => {
                return Err(BuildError::NotVertexBuffer);
            },
            None => {},
        }
        match collect_layouts(manager, &self.instance_buffers, &mut layouts) {
            Some(LayoutError::Unknown) => {
                return Err(BuildError::InvalidHandle(ResourceKind::Buffer));
            },
            Some(LayoutError::Unmarked) => {
                return Err(BuildError::NotInstanceBuffer);
            },
            None => {},
        }
        let index_format = match self.index_buffer {
            Some(index) => match manager.get_buffer(index) {
                Some(buffer) => match buffer.index_format() {
                    Some(format) => Some(format),
                    None => {
                        return Err(BuildError::IndexWidth);
                    },
                },
                None => {
                    return Err(BuildError::InvalidHandle(ResourceKind::Buffer));
                },
            },
            None => None,
        };
        if self.bind_groups.len() > u32::MAX as usize || self.vertex_buffers.len() > u32::MAX as usize
            || self.instance_buffers.len() > u32::MAX as usize - self.vertex_buffers.len() {
            return Err(BuildError::TooManySlots);
        }
        let strip_index_format = if is_strip(topology) {
            index_format
        } else {
            None
        };
        let pipeline = RenderPipeline {
            name: self.name,
            vertex_shader,
            fragment_shader: self.fragment_shader,
            primitive: PrimitiveState {
                topology,
                strip_index_format,
                front_face,
                cull_mode: self.culling,
                unclipped_depth: self.unclipped_depth,
                polygon_mode: self.polygon_mode,
                conservative: self.conservative,
            },
            depth_stencil: self.depth_stencil,
            vertex_buffers: self.vertex_buffers,
            instance_buffers: self.instance_buffers,
            index_buffers: self.index_buffer,
            bind_groups: self.bind_groups,
            layouts,
        };
        Ok(manager.add_render_pipeline(pipeline))
    }
}

/// Why the layouts of a list of buffers cannot be collected.
enum LayoutError {
    /// A handle names no buffer.
    Unknown,
    /// A buffer was never marked as a vertex or instance source.
    Unmarked,
}

/// Appends the layouts of the buffers `handles` name to `layouts`. Where a
/// handle names no buffer, or a buffer carries no layout, says so; what was
/// appended by then is of no use.
fn collect_layouts(manager: &RenderManager, handles: &Vec<BufferHandle>, layouts: &mut Vec<VertexBufferLayout>) -> (
    error: Option<LayoutError>
)
    ensures
        !buffers_known(handles@, manager@.buffers) ==> error matches Some(LayoutError::Unknown),
        buffers_known(handles@, manager@.buffers) && !buffers_laid_out(handles@, manager@.buffers)
            ==> error matches Some(LayoutError::Unmarked),
        buffers_known(handles@, manager@.buffers) && buffers_laid_out(handles@, manager@.buffers) ==> error is None
            && layout_views(final(layouts)@) == layout_views(old(layouts)@) + snapshot(
            handles@,
            manager@.buffers,
        ),
{
    let mut i: usize = 0;
    while i < handles.len()
        invariant
            i <= handles@.len(),
            forall|j: int| 0 <= j < i ==> (#[trigger] handles@[j])@ < manager@.buffers.len(),
        decreases handles@.len() - i,
    {
        if manager.get_buffer(handles[i]).is_none() {
            return Some(LayoutError::Unknown);
        }
        i += 1;
    }
    let mut i: usize = 0;
    while i < handles.len()
        invariant
            i <= handles@.len(),
            buffers_known(handles@, manager@.buffers),
            forall|j: int| 0 <= j < i ==> manager@.buffers[(#[trigger] handles@[j])@ as int].vertex_format is Some,
            layout_views(layouts@) == layout_views(old(layouts)@) + snapshot(handles@, manager@.buffers).take(
                i as int,
            ),
        decreases handles@.len() - i,
    {
        let buffer = match manager.get_buffer(handles[i]) {
            Some(buffer) => buffer,
            None => {
                assert(false);
                return Some(LayoutError::Unknown);
            },
        };
        let layout = match buffer.vertex_format() {
            Some(layout) => layout,
            None => {
                return Some(LayoutError::Unmarked);
            },
        };
        assert(layout_views(layouts@.push(layout)) =~= layout_views(layouts@).push(layout@));
        layouts.push(layout);
        i += 1;
    }
    None
}

} // verus!
