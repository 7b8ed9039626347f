//! What the library reports instead of carrying on with a misused resource.

use vstd::prelude::*;

verus! {

/// Which registry a handle was looked up in.
#[derive(Clone, Copy, Debug, PartialEq, Eq, Structural)]
pub enum ResourceKind {
    Buffer,
    Texture,
    Sampler,
    BindGroup,
    Shader,
    RenderPipeline,
    ComputePipeline,
    RenderPass,
}

/// A builder was finalized in a state it must not be built from.
///
/// These are programming errors: nothing was registered, and building again
/// from the same configuration fails again.
#[derive(Clone, Copy, Debug, PartialEq, Eq, Structural)]
pub enum BuildError {
    /// A handle does not name an entry of the registry it belongs to.
    InvalidHandle(ResourceKind),
    /// The element type has no bytes.
    ZeroSizedElement,
    /// The byte size does not fit the device's address type.
    TooLarge,
    /// The byte size is not a multiple of the mapping alignment.
    Misaligned,
    /// An index buffer whose elements are neither 2 nor 4 bytes wide.
    IndexWidth,
    /// A texture builder without a size policy.
    MissingSize,
    /// A render pipeline without a vertex shader.
    MissingVertexShader,
    /// A render pipeline without a primitive topology.
    MissingTopology,
    /// A render pipeline without a front face.
    MissingFrontFace,
    /// A compute pipeline without a shader.
    MissingShader,
    /// A compute pipeline without a workgroup count.
    MissingWorkGroups,
    /// A buffer attached as a vertex source that was never marked as one.
    NotVertexBuffer,
    /// A buffer attached as an instance source that was never marked as one.
    NotInstanceBuffer,
    /// More bind groups or vertex sources than slots can be numbered.
    TooManySlots,
}

/// A content write or a resize that was refused. The resource is unchanged.
#[derive(Clone, Copy, Debug, PartialEq, Eq, Structural)]
pub enum WriteError {
    /// The handle does not name a resource of the context.
    InvalidHandle,
    /// The data is of another element type than the resource was declared with.
    TypeMismatch,
    /// The resize would change the dimensionality of the texture.
    DimensionMismatch,
    /// A row of the written image is longer than can be described.
    RowTooLong,
}

/// A frame that cannot be drawn from the current state of the buffers.
#[derive(Clone, Copy, Debug, PartialEq, Eq, Structural)]
pub enum FrameError {
    /// The vertex buffers of an indexed draw hold different element counts.
    VertexCountMismatch,
    /// The instance buffers of an indexed draw hold different element counts.
    InstanceCountMismatch,
    /// A draw would cover more elements than a draw call can name.
    DrawTooLarge,
}

impl BuildError {
    /// What went wrong, in words.
    pub open spec fn text(self) -> Seq<char> {
        match self {
            BuildError::InvalidHandle(ResourceKind::Buffer) => "Invalid BufferHandle passed to a builder"@,
            BuildError::InvalidHandle(ResourceKind::Texture) => "Invalid TextureHandle passed to a builder"@,
            BuildError::InvalidHandle(ResourceKind::Sampler) => "Invalid sampler handle passed to a builder"@,
            BuildError::InvalidHandle(ResourceKind::BindGroup) => "Invalid BindGroupHandle passed to a builder"@,
            BuildError::InvalidHandle(ResourceKind::Shader) => "Invalid ShaderHandle passed to a builder"@,
            BuildError::InvalidHandle(ResourceKind::RenderPipeline) => "Invalid pipeline handle passed to a render pass"@,
            BuildError::InvalidHandle(ResourceKind::ComputePipeline) => "Invalid pipeline handle passed to a compute pass"@,
            BuildError::InvalidHandle(ResourceKind::RenderPass) => "Invalid RenderPassHandle"@,
            BuildError::ZeroSizedElement => "Elements of a buffer must have a size"@,
            BuildError::TooLarge => "The size in bytes does not fit the address type of the device"@,
            BuildError::Misaligned => "Data accessed by shaders must have an alignment of 8"@,
            BuildError::IndexWidth => "Type of unsupported size used in an index buffer"@,
            BuildError::MissingSize => "Trying to build texture with no specified size"@,
            BuildError::MissingVertexShader => "Vertex Shader not defined when building a render pipeline"@,
            BuildError::MissingTopology => "Topology not defined when building render pipeline"@,
            BuildError::MissingFrontFace => "Front face not defined when building render pipeline"@,
            BuildError::MissingShader => "No shader provided when building a compute pipeline"@,
            BuildError::MissingWorkGroups => "No work groups defined when building a compute pipeline"@,
            BuildError::NotVertexBuffer => "A buffer attached as a vertex buffer cannot be used as a vertex buffer"@,
            BuildError::NotInstanceBuffer => "A buffer attached as an instance buffer cannot be used as an instance buffer"@,
            BuildError::TooManySlots => "More bind groups or vertex buffers than there are slot numbers"@,
        }
    }

    /// What went wrong, in words.
    pub fn message(&self) -> (message: &'static str)
        ensures
            message@ == self.text(),
    {
        match self {
            BuildError::InvalidHandle(ResourceKind::Buffer) => "Invalid BufferHandle passed to a builder",
            BuildError::InvalidHandle(ResourceKind::Texture) => "Invalid TextureHandle passed to a builder",
            BuildError::InvalidHandle(ResourceKind::Sampler) => "Invalid sampler handle passed to a builder",
            BuildError::InvalidHandle(ResourceKind::BindGroup) => "Invalid BindGroupHandle passed to a builder",
            BuildError::InvalidHandle(ResourceKind::Shader) => "Invalid ShaderHandle passed to a builder",
            BuildError::InvalidHandle(ResourceKind::RenderPipeline) => "Invalid pipeline handle passed to a render pass",
            BuildError::InvalidHandle(ResourceKind::ComputePipeline) => "Invalid pipeline handle passed to a compute pass",
            BuildError::InvalidHandle(ResourceKind::RenderPass) => "Invalid RenderPassHandle",
            BuildError::ZeroSizedElement => "Elements of a buffer must have a size",
            BuildError::TooLarge => "The size in bytes does not fit the address type of the device",
            BuildError::Misaligned => "Data accessed by shaders must have an alignment of 8",
            BuildError::IndexWidth => "Type of unsupported size used in an index buffer",
            BuildError::MissingSize => "Trying to build texture with no specified size",
            BuildError::MissingVertexShader => "Vertex Shader not defined when building a render pipeline",
            BuildError::MissingTopology => "Topology not defined when building render pipeline",
            BuildError::MissingFrontFace => "Front face not defined when building render pipeline",
            BuildError::MissingShader => "No shader provided when building a compute pipeline",
            BuildError::MissingWorkGroups => "No work groups defined when building a compute pipeline",
            BuildError::NotVertexBuffer => "A buffer attached as a vertex buffer cannot be used as a vertex buffer",
            BuildError::NotInstanceBuffer => "A buffer attached as an instance buffer cannot be used as an instance buffer",
            BuildError::TooManySlots => "More bind groups or vertex buffers than there are slot numbers",
        }
    }
}

impl WriteError {
    /// What went wrong, in words.
    pub open spec fn text(self) -> Seq<char> {
        match self {
            WriteError::InvalidHandle => "Invalid handle passed to a write or a resize"@,
            WriteError::TypeMismatch => "Attempted to write with a different type than the resource was initialized with"@,
            WriteError::DimensionMismatch => "Tried to resize a texture to be a different dimension"@,
            WriteError::RowTooLong => "A row of the texture is longer than can be described"@,
        }
    }

    /// What went wrong, in words.
    pub fn message(&self) -> (message: &'static str)
        ensures
            message@ == self.text(),
    {
        match self {
            WriteError::InvalidHandle => "Invalid handle passed to a write or a resize",
            WriteError::TypeMismatch => "Attempted to write with a different type than the resource was initialized with",
            WriteError::DimensionMismatch => "Tried to resize a texture to be a different dimension",
            WriteError::RowTooLong => "A row of the texture is longer than can be described",
        }
    }
}

impl FrameError {
    /// What went wrong, in words.
    pub open spec fn text(self) -> Seq<char> {
        match self {
            FrameError::VertexCountMismatch => "Vertex buffers in render pipeline have different lengths"@,
            FrameError::InstanceCountMismatch => "Instance buffers in render pipeline have different lengths"@,
            FrameError::DrawTooLarge => "A draw covers more elements than a draw call can name"@,
        }
    }

    /// What went wrong, in words.
    pub fn message(&self) -> (message: &'static str)
        ensures
            message@ == self.text(),
    {
        match self {
            FrameError::VertexCountMismatch => "Vertex buffers in render pipeline have different lengths",
            FrameError::InstanceCountMismatch => "Instance buffers in render pipeline have different lengths",
            FrameError::DrawTooLarge => "A draw covers more elements than a draw call can name",
        }
    }
}

} // verus!
