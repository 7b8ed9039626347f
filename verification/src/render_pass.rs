//! Render passes: an ordered list of pipelines that draw into the same
//! attachments.

use crate::error::{BuildError, ResourceKind};
use crate::handle::Handle;
use crate::label::{label_view, owned_label, text_view};
use crate::manager::{PassHandle, RenderManager};
use crate::render_pipeline::PipelineHandle;
use crate::state::ManagerView;
use crate::texture::{TextureHandle, framebuffer};
use vstd::prelude::*;

verus! {

pub type RenderPassHandle = Handle<RenderPass>;

/// A colour, each channel a double-precision value held as its bit pattern.
#[derive(Clone, Copy, Debug, PartialEq, Eq, Structural)]
pub struct Color {
    pub r: u64,
    pub g: u64,
    pub b: u64,
    pub a: u64,
}

/// What happens to an attachment when a pass begins.
#[derive(Debug, PartialEq, Eq, Structural)]
pub enum LoadOp<V> {
    /// It is filled with a value.
    Clear(V),
    /// It keeps what it holds.
    Load,
}

impl<V: Copy> Clone for LoadOp<V> {
    fn clone(&self) -> (copy: Self)
        ensures
            copy == *self,
    {
        *self
    }
}

impl<V: Copy> Copy for LoadOp<V> {}

/// What happens to an attachment when a pass begins and when it ends.
#[derive(Debug, PartialEq, Eq, Structural)]
pub struct Operations<V> {
    pub load: LoadOp<V>,
    /// Whether what the pass drew is kept.
    pub store: bool,
}

impl<V: Copy> Clone for Operations<V> {
    fn clone(&self) -> (copy: Self)
        ensures
            copy == *self,
    {
        *self
    }
}

impl<V: Copy> Copy for Operations<V> {}

/// Clears to `clear` where there is one, and keeps the contents otherwise.
pub open spec fn load_op<V>(clear: Option<V>) -> LoadOp<V> {
    match clear {
        Some(value) => LoadOp::Clear(value),
        None => LoadOp::Load,
    }
}

/// The operations of an attachment that is cleared to `clear`, or keeps its
/// contents where `clear` is `None`, and is stored or not.
pub fn operations<V>(clear: Option<V>, store: bool) -> (ops: Operations<V>)
    ensures
        ops == (Operations { load: load_op(clear), store }),
{
    let load = match clear {
        Some(value) => LoadOp::Clear(value),
        None => LoadOp::Load,
    };
    Operations { load, store }
}

/// A colour output of a pass. The handle of the presentation target stands
/// for the frame that is being drawn.
#[derive(Clone, Copy, PartialEq, Eq)]
pub struct ColorAttachment {
    pub texture: TextureHandle,
    pub ops: Operations<Color>,
}

/// The depth and stencil output of a pass. The depth clear value is a
/// single-precision value held as its bit pattern.
#[derive(Clone, Copy, PartialEq, Eq)]
pub struct DepthAttachment {
    pub texture: TextureHandle,
    pub depth_op: Option<Operations<u32>>,
    pub stencil_op: Option<Operations<u32>>,
}

pub struct RenderPass {
    pub name: Option<String>,
    pub color_attachments: Vec<ColorAttachment>,
    pub depth_attachments: Option<DepthAttachment>,
    pub pipelines: Vec<PipelineHandle>,
}

/// What a [`RenderPass`] is, as plain values.
pub struct RenderPassView {
    pub name: Option<Seq<char>>,
    pub color_attachments: Seq<ColorAttachment>,
    pub depth_attachments: Option<DepthAttachment>,
    pub pipelines: Seq<PipelineHandle>,
}

impl RenderPassView {
    /// Every pipeline of the pass is one of `pipelines` render pipelines, and
    /// every attachment is the presentation target or one of `textures`
    /// textures. The depth attachment is always a texture.
    pub open spec fn valid(self, pipelines: nat, textures: nat) -> bool {
        &&& self.pipelines_known(pipelines)
        &&& self.attachments_known(textures)
    }

    /// Every pipeline of the pass is one of `pipelines` render pipelines.
    pub open spec fn pipelines_known(self, pipelines: nat) -> bool {
        forall|i: int| 0 <= i < self.pipelines.len() ==> (#[trigger] self.pipelines[i])@ < pipelines
    }

    /// Every attachment is the presentation target or one of `textures`
    /// textures, and the depth attachment is a texture.
    pub open spec fn attachments_known(self, textures: nat) -> bool {
        &&& forall|i: int|
            0 <= i < self.color_attachments.len() ==> {
                let texture = (#[trigger] self.color_attachments[i]).texture;
                texture@ == 0 || texture@ < textures
            }
        &&& self.depth_attachments matches Some(depth) ==> depth.texture@ < textures
    }
}

impl View for RenderPass {
    type V = RenderPassView;

    open spec fn view(&self) -> RenderPassView {
        RenderPassView {
            name: label_view(self.name),
            color_attachments: self.color_attachments@,
            depth_attachments: self.depth_attachments,
            pipelines: self.pipelines@,
        }
    }
}

/// What each of `passes` is, as plain values.
pub open spec fn render_pass_views(passes: Seq<RenderPass>) -> Seq<RenderPassView> {
    Seq::new(passes.len(), |i: int| passes[i]@)
}

/// A copy of `handles`.
pub fn copy_handles<T>(handles: &[Handle<T>]) -> (copy: Vec<Handle<T>>)
    ensures
        copy@ == handles@,
{
    let mut copy: Vec<Handle<T>> = Vec::new();
    let mut i: usize = 0;
    while i < handles.len()
        invariant
            i <= handles@.len(),
            copy@ == handles@.take(i as int),
        decreases handles@.len() - i,
    {
        copy.push(handles[i]);
        i += 1;
    }
    copy
}

impl RenderPass {
    /// Replaces the pipelines of the pass by `pipeline`, in that order.
    pub fn reorder_pipelines(&mut self, pipeline: &[PipelineHandle])
        ensures
            final(self)@ == (RenderPassView { pipelines: pipeline@, ..old(self)@ }),
    {
        self.pipelines = copy_handles(pipeline);
    }
}

/// The operations of a depth or stencil aspect: none where the aspect is not
/// used, else clear-or-keep and store-or-drop.
pub open spec fn aspect_operations(aspect: Option<(Option<u32>, bool)>) -> Option<Operations<u32>> {
    match aspect {
        Some((clear, store)) => Some(Operations { load: load_op(clear), store }),
        None => None,
    }
}

/// The attachment of a pass that was given none: the presentation target,
/// keeping what it holds and storing what is drawn.
pub open spec fn default_attachment() -> ColorAttachment {
    ColorAttachment { texture: TextureHandle::at(0), ops: Operations { load: LoadOp::Load, store: true } }
}

/// Collects the attachments and the pipelines of a render pass, and registers
/// the pass.
pub struct RenderPassBuilder {
    pub color_attachments: Vec<ColorAttachment>,
    pub depth_attachments: Option<DepthAttachment>,
    pub name: Option<String>,
    pub pipelines: Vec<PipelineHandle>,
}

impl RenderPassBuilder {
    /// A builder without attachments or pipelines.
    pub fn new(name: Option<&str>) -> (builder: RenderPassBuilder)
        ensures
            label_view(builder.name) == text_view(name),
            builder.color_attachments@ == Seq::<ColorAttachment>::empty(),
            builder.depth_attachments is None,
            builder.pipelines@ == Seq::<PipelineHandle>::empty(),
    {
        RenderPassBuilder {
            color_attachments: Vec::new(),
            depth_attachments: None,
            name: owned_label(name),
            pipelines: Vec::new(),
        }
    }

    /// Adds a colour output. It is cleared to `clear_color` when the pass
    /// begins, or keeps its contents where `clear_color` is `None`.
    pub fn add_color_attachment(self, texture: TextureHandle, clear_color: Option<Color>, store: bool) -> (builder:
        RenderPassBuilder)
        ensures
            builder == (RenderPassBuilder { color_attachments: builder.color_attachments, ..self }),
            builder.color_attachments@ == self.color_attachments@.push(
                ColorAttachment { texture, ops: Operations { load: load_op(clear_color), store } },
            ),
    {
        let mut builder = self;
        builder.color_attachments.push(ColorAttachment { texture, ops: operations(clear_color, store) });
        builder
    }

    pub fn add_pipeline(self, pipeline: PipelineHandle) -> (builder: RenderPassBuilder)
        ensures
            builder == (RenderPassBuilder { pipelines: builder.pipelines, ..self }),
            builder.pipelines@ == self.pipelines@.push(pipeline),
    {
        let mut builder = self;
        builder.pipelines.push(pipeline);
        builder
    }

    /// Sets the depth and stencil output. Each aspect that is used is cleared
    /// to a value or keeps its contents, and is stored or not. The depth clear
    /// value is a single-precision value given as its bit pattern.
    pub fn add_depth_stencil_attachment(
        self,
        texture: TextureHandle,
        depth: Option<(Option<u32>, bool)>,
        stencil: Option<(Option<u32>, bool)>,
    ) -> (builder: RenderPassBuilder)
        ensures
            builder == (RenderPassBuilder {
                depth_attachments: Some(
                    DepthAttachment {
                        texture,
                        depth_op: aspect_operations(depth),
                        stencil_op: aspect_operations(stencil),
                    },
                ),
                ..self
            }),
    {
        let depth_op = match depth {
            Some((clear, store)) => Some(operations(clear, store)),
            None => None,
        };
        let stencil_op = match stencil {
            Some((clear, store)) => Some(operations(clear, store)),
            None => None,
        };
        let mut builder = self;
        builder.depth_attachments = Some(DepthAttachment { texture, depth_op, stencil_op });
        builder
    }

    /// The colour outputs of the pass: those that were added, or the
    /// presentation target where none was added.
    pub open spec fn attachments(self) -> Seq<ColorAttachment> {
        if self.color_attachments@.len() == 0 {
            seq![default_attachment()]
        } else {
            self.color_attachments@
        }
    }

    /// The pass this configuration describes.
    pub open spec fn built(self) -> RenderPassView {
        RenderPassView {
            name: label_view(self.name),
            color_attachments: self.attachments(),
            depth_attachments: self.depth_attachments,
            pipelines: self.pipelines@,
        }
    }

    /// Registers the pass and lets it run behind the passes added so far.
    ///
    /// A pass without colour attachments draws to the presentation target:
    /// it gets one attachment that keeps what the target holds and stores what
    /// is drawn. A pass that names a pipeline or a texture `manager` does not
    /// hold is refused, the pipelines being looked at first.
    pub fn build(self, manager: &mut RenderManager) -> (outcome: Result<RenderPassHandle, BuildError>)
        requires
            old(manager).wf(),
        ensures
            final(manager).wf(),
            !self.built().pipelines_known(old(manager)@.render_pipelines.len()) ==> outcome is Err
                && outcome->Err_0 == BuildError::InvalidHandle(ResourceKind::RenderPipeline)
                && final(manager)@ == old(manager)@,
            self.built().pipelines_known(old(manager)@.render_pipelines.len()) && !self.built().attachments_known(
                old(manager)@.textures.len(),
            ) ==> outcome is Err && outcome->Err_0 == BuildError::InvalidHandle(ResourceKind::Texture)
                && final(manager)@ == old(manager)@,
            self.built().valid(old(manager)@.render_pipelines.len(), old(manager)@.textures.len()) ==> outcome is Ok
                && outcome->Ok_0@ == old(manager)@.render_passes.len() && final(manager)@ == (ManagerView {
                render_passes: old(manager)@.render_passes.push(self.built()),
                passes: old(manager)@.passes.push(PassHandle::RenderPass(outcome->Ok_0)),
                ..old(manager)@
            }),
    {
        let mut color_attachments = self.color_attachments;
        // A pass without colour attachments draws to the presentation target.
        if color_attachments.len() == 0 {
            color_attachments.push(ColorAttachment { texture: framebuffer(), ops: operations(None, true) });
        }
        let pass = RenderPass {
            name: self.name,
            color_attachments,
            depth_attachments: self.depth_attachments,
            pipelines: self.pipelines,
        };
        assert(pass@.color_attachments =~= self.attachments());
        manager.add_render_pass(pass)
    }
}

} // verus!
