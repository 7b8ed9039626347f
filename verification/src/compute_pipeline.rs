//! Compute pipelines: a compiled program, the bind groups it reads and
//! writes, and the number of workgroups each dispatch starts.

use crate::bind_group::BindGroupHandle;
use crate::error::{BuildError, ResourceKind};
use crate::handle::Handle;
use crate::label::{borrowed_label, label_view, owned_label, text_view};
use crate::manager::RenderManager;
use crate::render_pipeline::{ShaderEntry, ShaderEntryView, entry_view};
use crate::shader::ShaderHandle;
use crate::state::ManagerView;
use vstd::prelude::*;

verus! {

pub type ComputePipelineHandle = Handle<ComputePipeline>;

/// What a [`ComputePipeline`] is, as plain values.
pub struct ComputePipelineView {
    pub name: Option<Seq<char>>,
    pub shader: ShaderEntryView,
    pub bind_groups: Seq<BindGroupHandle>,
    /// Workgroups per dispatch along x, y and z.
    pub work_groups: [u32; 3],
}

impl ComputePipelineView {
    /// Every reference of the pipeline resolves, and every bind group has a
    /// slot number.
    pub open spec fn valid(self, bind_groups: nat, shaders: nat) -> bool {
        &&& self.shader.shader@ < shaders
        &&& forall|i: int| 0 <= i < self.bind_groups.len() ==> (#[trigger] self.bind_groups[i])@ < bind_groups
        &&& self.bind_groups.len() <= u32::MAX
    }
}

pub struct ComputePipeline {
    pub(crate) name: Option<String>,
    pub(crate) shader: ShaderEntry,
    pub(crate) bind_groups: Vec<BindGroupHandle>,
    pub(crate) work_groups: [u32; 3],
}

impl View for ComputePipeline {
    type V = ComputePipelineView;

    closed spec fn view(&self) -> ComputePipelineView {
        ComputePipelineView {
            name: label_view(self.name),
            shader: self.shader@,
            bind_groups: self.bind_groups@,
            work_groups: self.work_groups,
        }
    }
}

/// What each of `pipelines` is, as plain values.
pub open spec fn compute_pipeline_views(pipelines: Seq<ComputePipeline>) -> Seq<ComputePipelineView> {
    Seq::new(pipelines.len(), |i: int| pipelines[i]@)
}

impl ComputePipeline {
    pub fn name(&self) -> (name: Option<&str>)
        ensures
            text_view(name) == self@.name,
    {
        borrowed_label(&self.name)
    }

    pub fn shader(&self) -> (entry: &ShaderEntry)
        ensures
            entry@ == self@.shader,
    {
        &self.shader
    }

    pub fn bind_groups(&self) -> (groups: &Vec<BindGroupHandle>)
        ensures
            groups@ == self@.bind_groups,
    {
        &self.bind_groups
    }

    pub fn work_groups(&self) -> (counts: [u32; 3])
        ensures
            counts == self@.work_groups,
    {
        self.work_groups
    }
}

/// Collects the configuration of a compute pipeline, and registers the
/// pipeline.
pub struct ComputePipelineBuilder {
    pub name: Option<String>,
    pub bind_groups: Vec<BindGroupHandle>,
    pub shader: Option<ShaderEntry>,
    pub work_groups: Option<[u32; 3]>,
}

impl ComputePipelineBuilder {
    /// A builder without a shader, a workgroup count or bind groups.
    pub fn new(name: Option<&str>) -> (builder: ComputePipelineBuilder)
        ensures
            label_view(builder.name) == text_view(name),
            builder.bind_groups@ == Seq::<BindGroupHandle>::empty(),
            builder.shader is None,
            builder.work_groups is None,
    {
        ComputePipelineBuilder { name: owned_label(name), bind_groups: Vec::new(), shader: None, work_groups: None }
    }

    pub fn set_shader(self, handle: ShaderHandle, entry_point: &str) -> (builder: ComputePipelineBuilder)
        ensures
            builder == (ComputePipelineBuilder { shader: builder.shader, ..self }),
            entry_view(builder.shader) == Some(ShaderEntryView { shader: handle, entry_point: entry_point@ }),
    {
        let mut builder = self;
        builder.shader = Some(ShaderEntry { shader: handle, entry_point: entry_point.to_owned() });
        builder
    }

    pub fn add_bind_group(self, bind_group: BindGroupHandle) -> (builder: ComputePipelineBuilder)
        ensures
            builder == (ComputePipelineBuilder { bind_groups: builder.bind_groups, ..self }),
            builder.bind_groups@ == self.bind_groups@.push(bind_group),
    {
        let mut builder = self;
        builder.bind_groups.push(bind_group);
        builder
    }

    /// Sets how many workgroups each dispatch starts along x, y and z.
    pub fn work_groups(self, work_groups: [u32; 3]) -> (builder: ComputePipelineBuilder)
        ensures
            builder == (ComputePipelineBuilder { work_groups: Some(work_groups), ..self }),
    {
        let mut builder = self;
        builder.work_groups = Some(work_groups);
        builder
    }

    /// Every bind group of the pipeline is one of `bind_groups` bind groups.
    pub open spec fn bind_groups_known(self, bind_groups: nat) -> bool {
        forall|i: int| 0 <= i < self.bind_groups@.len() ==> (#[trigger] self.bind_groups@[i])@ < bind_groups
    }

    /// What stands against building the pipeline in `manager`: a missing
    /// shader, a missing workgroup count, a bind group or a shader that
    /// `manager` does not hold, or more bind groups than slots can be
    /// numbered.
    pub open spec fn build_error(self, manager: ManagerView) -> Option<BuildError> {
        if self.shader is None {
            Some(BuildError::MissingShader)
        } else if self.work_groups is None {
            Some(BuildError::MissingWorkGroups)
        } else if !self.bind_groups_known(manager.bind_groups.len()) {
            Some(BuildError::InvalidHandle(ResourceKind::BindGroup))
        } else if self.shader.unwrap().shader@ >= manager.shaders.len() {
            Some(BuildError::InvalidHandle(ResourceKind::Shader))
        } else if self.bind_groups@.len() > u32::MAX {
            Some(BuildError::TooManySlots)
        } else {
            None
        }
    }

    /// The pipeline this configuration describes.
    pub open spec fn built(self) -> ComputePipelineView {
        ComputePipelineView {
            name: label_view(self.name),
            shader: self.shader.unwrap()@,
            bind_groups: self.bind_groups@,
            work_groups: self.work_groups.unwrap(),
        }
    }

    /// Registers the pipeline.
    pub fn build(self, manager: &mut RenderManager) -> (outcome: Result<ComputePipelineHandle, BuildError>)
        requires
            old(manager).wf(),
        ensures
            final(manager).wf(),
            self.build_error(old(manager)@) matches Some(error) ==> outcome == Err::<
                ComputePipelineHandle,
                BuildError,
            >(error) && final(manager)@ == old(manager)@,
            self.build_error(old(manager)@) is None ==> outcome is Ok && outcome->Ok_0@ == old(manager)@.compute_pipelines.len() && final(manager)@ == (ManagerView {
                compute_pipelines: old(manager)@.compute_pipelines.push(self.built()),
                ..old(manager)@
            }),
    {
        let shader = match self.shader {
            Some(entry) => entry,
            None => {
                return Err(BuildError::MissingShader);
            },
        };
        let work_groups = match self.work_groups {
            Some(counts) => counts,
            None => {
                return Err(BuildError::MissingWorkGroups);
            },
        };
        if !manager.knows_bind_groups(self.bind_groups.as_slice()) {
            return Err(BuildError::InvalidHandle(ResourceKind::BindGroup));
        }
        if manager.get_shader(shader.shader).is_none() {
            return Err(BuildError::InvalidHandle(ResourceKind::Shader));
        }
        if self.bind_groups.len() > u32::MAX as usize {
            return Err(BuildError::TooManySlots);
        }
        Ok(
            manager.add_compute_pipeline(
                ComputePipeline { name: self.name, shader, bind_groups: self.bind_groups, work_groups },
            ),
        )
    }
}

} // verus!
