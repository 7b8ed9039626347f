//! Compute passes: an ordered list of compute pipelines.

use crate::compute_pipeline::ComputePipelineHandle;
use crate::error::{BuildError, ResourceKind};
use crate::handle::Handle;
use crate::label::{borrowed_label, label_view, owned_label, text_view};
use crate::manager::{PassHandle, RenderManager};
use crate::state::ManagerView;
use vstd::prelude::*;

verus! {

pub type ComputePassHandle = Handle<ComputePass>;

pub struct ComputePass {
    pub(crate) name: Option<String>,
    pub(crate) pipelines: Vec<ComputePipelineHandle>,
}

/// What a [`ComputePass`] is, as plain values.
pub struct ComputePassView {
    pub name: Option<Seq<char>>,
    pub pipelines: Seq<ComputePipelineHandle>,
}

impl ComputePassView {
    /// Every pipeline of the pass is one of `pipelines` compute pipelines.
    pub open spec fn valid(self, pipelines: nat) -> bool {
        forall|i: int| 0 <= i < self.pipelines.len() ==> (#[trigger] self.pipelines[i])@ < pipelines
    }
}

impl View for ComputePass {
    type V = ComputePassView;

    closed spec fn view(&self) -> ComputePassView {
        ComputePassView {
            name: label_view(self.name),
            pipelines: self.pipelines@,
        }
    }
}

/// What each of `passes` is, as plain values.
pub open spec fn compute_pass_views(passes: Seq<ComputePass>) -> Seq<ComputePassView> {
    Seq::new(passes.len(), |i: int| passes[i]@)
}

impl ComputePass {
    pub fn name(&self) -> (name: Option<&str>)
        ensures
            text_view(name) == self@.name,
    {
        borrowed_label(&self.name)
    }

    pub fn pipelines(&self) -> (pipelines: &Vec<ComputePipelineHandle>)
        ensures
            pipelines@ == self@.pipelines,
    {
        &self.pipelines
    }
}

/// Collects the pipelines of a compute pass, and registers the pass.
pub struct ComputePassBuilder {
    pub name: Option<String>,
    pub pipelines: Vec<ComputePipelineHandle>,
}

impl ComputePassBuilder {
    /// A builder without pipelines.
    pub fn new(name: Option<&str>) -> (builder: ComputePassBuilder)
        ensures
            label_view(builder.name) == text_view(name),
            builder.pipelines@ == Seq::<ComputePipelineHandle>::empty(),
    {
        ComputePassBuilder { name: owned_label(name), pipelines: Vec::new() }
    }

    pub fn add_pipeline(self, pipeline: ComputePipelineHandle) -> (builder: ComputePassBuilder)
        ensures
            builder.name == self.name,
            builder.pipelines@ == self.pipelines@.push(pipeline),
    {
        let mut builder = self;
        builder.pipelines.push(pipeline);
        builder
    }

    /// The pass this configuration describes.
    pub open spec fn built(self) -> ComputePassView {
        ComputePassView { name: label_view(self.name), pipelines: self.pipelines@ }
    }

    /// Registers the pass and lets it run behind the passes added so far. A
    /// pass that names a pipeline `manager` does not hold is refused.
    pub fn build(self, manager: &mut RenderManager) -> (outcome: Result<ComputePassHandle, BuildError>)
        requires
            old(manager).wf(),
        ensures
            final(manager).wf(),
            !self.built().valid(old(manager)@.compute_pipelines.len()) ==> outcome is Err
                && outcome->Err_0 == BuildError::InvalidHandle(ResourceKind::ComputePipeline)
                && final(manager)@ == old(manager)@,
            self.built().valid(old(manager)@.compute_pipelines.len()) ==> outcome is Ok
                && outcome->Ok_0@ == old(manager)@.compute_passes.len() && final(manager)@ == (ManagerView {
                compute_passes: old(manager)@.compute_passes.push(self.built()),
                passes: old(manager)@.passes.push(PassHandle::ComputePass(outcome->Ok_0)),
                ..old(manager)@
            }),
    {
        manager.add_compute_pass(ComputePass { name: self.name, pipelines: self.pipelines })
    }
}

} // verus!
