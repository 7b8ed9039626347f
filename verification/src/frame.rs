//! What one frame draws.
//!
//! A frame is a list of commands, decided from the declared passes and
//! pipelines and from the current size of the buffers. The functions here say
//! which list that is; the context computes it, and whoever owns the device
//! replays it into a command stream.

use crate::bind_group::BindGroupHandle;
use crate::buffer::{BufferHandle, BufferView, IndexFormat, index_format_of};
use crate::compute_pass::{ComputePassHandle, ComputePassView};
use crate::compute_pipeline::{ComputePipelineHandle, ComputePipelineView};
use crate::error::FrameError;
use crate::render_pass::{Color, DepthAttachment, Operations, RenderPassHandle, RenderPassView};
use crate::render_pipeline::{PipelineHandle, RenderPipelineView};
use crate::texture::TextureHandle;
use vstd::prelude::*;

verus! {

/// A failed attempt to acquire the presentation target.
#[derive(Clone, Copy, Debug, PartialEq, Eq, Structural)]
pub enum SurfaceError {
    /// The target was not ready in time.
    Timeout,
    /// The surface configuration no longer matches the surface.
    Outdated,
    /// The surface was lost.
    Lost,
    /// The device ran out of memory.
    OutOfMemory,
}

/// What to do about a frame whose presentation target could not be acquired.
#[derive(Clone, Copy, Debug, PartialEq, Eq, Structural)]
pub enum Recovery {
    /// Configure the surface again and draw the next frame.
    Reconfigure,
    /// Drop this frame and draw the next one.
    Skip,
    /// Give up: the context has to be set up anew.
    Fatal,
}

/// How each acquisition failure is answered.
pub open spec fn recovery(error: SurfaceError) -> Recovery {
    match error {
        SurfaceError::Lost => Recovery::Reconfigure,
        SurfaceError::OutOfMemory => Recovery::Reconfigure,
        SurfaceError::Timeout => Recovery::Skip,
        SurfaceError::Outdated => Recovery::Fatal,
    }
}

/// Decides what to do about a frame whose presentation target could not be
/// acquired.
pub fn classify(error: SurfaceError) -> (answer: Recovery)
    ensures
        answer == recovery(error),
{
    match error {
        SurfaceError::Lost => Recovery::Reconfigure,
        SurfaceError::OutOfMemory => Recovery::Reconfigure,
        SurfaceError::Timeout => Recovery::Skip,
        SurfaceError::Outdated => Recovery::Fatal,
    }
}

/// The image an attachment draws into.
#[derive(Clone, Copy, PartialEq, Eq)]
pub enum AttachmentTarget {
    /// The presentation target acquired for this frame.
    Surface,
    /// The current view of a texture.
    Texture(TextureHandle),
}

/// One step of a frame.
#[allow(inconsistent_fields)]
#[derive(Clone, Copy, PartialEq, Eq)]
pub enum Command {
    /// Adds a colour output to the render pass that begins next.
    AttachColor { target: AttachmentTarget, ops: Operations<Color> },
    /// Sets the depth and stencil output of the render pass that begins next.
    AttachDepth { attachment: DepthAttachment },
    BeginRenderPass { pass: RenderPassHandle },
    SetRenderPipeline { pipeline: PipelineHandle },
    SetBindGroup { slot: u32, group: BindGroupHandle },
    SetIndexBuffer { buffer: BufferHandle, format: IndexFormat },
    SetVertexBuffer { slot: u32, buffer: BufferHandle },
    /// Draws indices `0..indices` for instances `0..instances`.
    DrawIndexed { indices: u32, instances: u32 },
    /// Draws vertices `0..vertices` for instances `0..instances`.
    Draw { vertices: u32, instances: u32 },
    EndRenderPass,
    BeginComputePass { pass: ComputePassHandle },
    SetComputePipeline { pipeline: ComputePipelineHandle },
    DispatchWorkgroups { x: u32, y: u32, z: u32 },
    EndComputePass,
    /// Hands the recorded commands to the device queue.
    Submit,
    /// Shows the frame.
    Present,
}

/// Where a colour attachment draws: the handle of the presentation target
/// stands for the frame itself, any other handle for its texture.
pub open spec fn attachment_target(texture: TextureHandle) -> AttachmentTarget {
    if texture@ == 0 {
        AttachmentTarget::Surface
    } else {
        AttachmentTarget::Texture(texture)
    }
}

/// The outputs of a render pass, colour attachments in declared order and
/// then the depth attachment, if there is one.
pub open spec fn attachment_commands(pass: RenderPassView) -> Seq<Command> {
    Seq::new(
        pass.color_attachments.len(),
        |i: int|
            Command::AttachColor {
                target: attachment_target(pass.color_attachments[i].texture),
                ops: pass.color_attachments[i].ops,
            },
    ) + match pass.depth_attachments {
        Some(attachment) => seq![Command::AttachDepth { attachment }],
        None => Seq::empty(),
    }
}

/// Each bind group at the slot of its position.
pub open spec fn bind_group_commands(groups: Seq<BindGroupHandle>) -> Seq<Command> {
    Seq::new(groups.len(), |i: int| Command::SetBindGroup { slot: i as u32, group: groups[i] })
}

/// Each buffer as a vertex source, at slots counted from `first_slot`.
pub open spec fn vertex_buffer_commands(buffers: Seq<BufferHandle>, first_slot: int) -> Seq<Command> {
    Seq::new(
        buffers.len(),
        |i: int| Command::SetVertexBuffer { slot: (first_slot + i) as u32, buffer: buffers[i] },
    )
}

/// How many elements the buffer `handle` names has room for.
pub open spec fn count(handle: BufferHandle, buffers: Seq<BufferView>) -> u64 {
    buffers[handle@ as int].len()
}

/// Whether all of `handles` hold the same number of elements.
pub open spec fn same_count(handles: Seq<BufferHandle>, buffers: Seq<BufferView>) -> bool {
    forall|i: int| 0 <= i < handles.len() ==> count(#[trigger] handles[i], buffers) == count(handles[0], buffers)
}

/// The smallest element count among the first `n` of `handles`, which is not
/// empty.
pub open spec fn min_count(handles: Seq<BufferHandle>, n: nat, buffers: Seq<BufferView>) -> u64
    decreases n,
{
    if n <= 1 {
        count(handles[0], buffers)
    } else {
        let rest = min_count(handles, (n - 1) as nat, buffers);
        let last = count(handles[n - 1], buffers);
        if last < rest {
            last
        } else {
            rest
        }
    }
}

/// The vertices a draw without an index buffer covers: as many as the
/// shortest vertex buffer holds, and one where no vertex buffer is attached.
pub open spec fn vertex_count(pipeline: RenderPipelineView, buffers: Seq<BufferView>) -> u64 {
    if pipeline.vertex_buffers.len() == 0 {
        1
    } else {
        min_count(pipeline.vertex_buffers, pipeline.vertex_buffers.len(), buffers)
    }
}

/// The instances an indexed draw covers: as many as the instance buffers
/// hold, and one where no instance buffer is attached.
pub open spec fn instance_count(pipeline: RenderPipelineView, buffers: Seq<BufferView>) -> u64 {
    if pipeline.instance_buffers.len() == 0 {
        1
    } else {
        count(pipeline.instance_buffers[0], buffers)
    }
}

/// Why the draw of `pipeline` cannot be issued, if anything stands against it.
pub open spec fn draw_error(pipeline: RenderPipelineView, buffers: Seq<BufferView>) -> Option<FrameError> {
    match pipeline.index_buffer {
        Some(index) => if !same_count(pipeline.vertex_buffers, buffers) {
            Some(FrameError::VertexCountMismatch)
        } else if !same_count(pipeline.instance_buffers, buffers) {
            Some(FrameError::InstanceCountMismatch)
        } else if count(index, buffers) > u32::MAX || instance_count(pipeline, buffers) > u32::MAX {
            Some(FrameError::DrawTooLarge)
        } else {
            None
        },
        None => if vertex_count(pipeline, buffers) > u32::MAX {
            Some(FrameError::DrawTooLarge)
        } else {
            None
        },
    }
}

/// The index format of the buffer `index` names. Index buffers of a built
/// pipeline have elements of 2 or of 4 bytes.
pub open spec fn index_format(index: BufferHandle, buffers: Seq<BufferView>) -> IndexFormat {
    index_format_of(buffers[index@ as int].element.size).unwrap()
}

/// The buffers a draw reads and the draw itself.
pub open spec fn draw_commands(pipeline: RenderPipelineView, buffers: Seq<BufferView>) -> Seq<Command> {
    match pipeline.index_buffer {
        Some(index) => seq![Command::SetIndexBuffer { buffer: index, format: index_format(index, buffers) }]
            + vertex_buffer_commands(pipeline.vertex_buffers, 0) + vertex_buffer_commands(
            pipeline.instance_buffers,
            pipeline.vertex_buffers.len() as int,
        ) + seq![
            Command::DrawIndexed {
                indices: count(index, buffers) as u32,
                instances: instance_count(pipeline, buffers) as u32,
            },
        ],
        None => vertex_buffer_commands(pipeline.vertex_buffers, 0) + seq![
            Command::Draw { vertices: vertex_count(pipeline, buffers) as u32, instances: 1 },
        ],
    }
}

/// Everything one render pipeline contributes to a pass: the pipeline, its
/// bind groups, its buffers, its draw.
pub open spec fn render_pipeline_commands(
    handle: PipelineHandle,
    pipeline: RenderPipelineView,
    buffers: Seq<BufferView>,
) -> Seq<Command> {
    seq![Command::SetRenderPipeline { pipeline: handle }] + bind_group_commands(pipeline.bind_groups)
        + draw_commands(pipeline, buffers)
}

/// The first reason why one of the first `n` of `handles` cannot be drawn.
pub open spec fn render_pipelines_error(
    handles: Seq<PipelineHandle>,
    n: nat,
    pipelines: Seq<RenderPipelineView>,
    buffers: Seq<BufferView>,
) -> Option<FrameError>
    decreases n,
{
    if n == 0 {
        None
    } else {
        match render_pipelines_error(handles, (n - 1) as nat, pipelines, buffers) {
            Some(error) => Some(error),
            None => draw_error(pipelines[handles[n - 1]@ as int], buffers),
        }
    }
}

/// What the first `n` of `handles` contribute to a pass, in order.
pub open spec fn render_pipelines_commands(
    handles: Seq<PipelineHandle>,
    n: nat,
    pipelines: Seq<RenderPipelineView>,
    buffers: Seq<BufferView>,
) -> Seq<Command>
    decreases n,
{
    if n == 0 {
        Seq::empty()
    } else {
        render_pipelines_commands(handles, (n - 1) as nat, pipelines, buffers) + render_pipeline_commands(
            handles[n - 1],
            pipelines[handles[n - 1]@ as int],
            buffers,
        )
    }
}

/// One render pass: its outputs, its beginning, its pipelines in declared
/// order, its end.
pub open spec fn render_pass_commands(
    handle: RenderPassHandle,
    pass: RenderPassView,
    pipelines: Seq<RenderPipelineView>,
    buffers: Seq<BufferView>,
) -> Seq<Command> {
    attachment_commands(pass) + seq![Command::BeginRenderPass { pass: handle }] + render_pipelines_commands(
        pass.pipelines,
        pass.pipelines.len(),
        pipelines,
        buffers,
    ) + seq![Command::EndRenderPass]
}

/// Everything one compute pipeline contributes to a pass: the pipeline, its
/// bind groups, one dispatch of its workgroup count.
pub open spec fn compute_pipeline_commands(handle: ComputePipelineHandle, pipeline: ComputePipelineView) -> Seq<
    Command,
> {
    seq![Command::SetComputePipeline { pipeline: handle }] + bind_group_commands(pipeline.bind_groups) + seq![
        Command::DispatchWorkgroups {
            x: pipeline.work_groups[0],
            y: pipeline.work_groups[1],
            z: pipeline.work_groups[2],
        },
    ]
}

/// What the first `n` of `handles` contribute to a compute pass, in order.
pub open spec fn compute_pipelines_commands(
    handles: Seq<ComputePipelineHandle>,
    n: nat,
    pipelines: Seq<ComputePipelineView>,
) -> Seq<Command>
    decreases n,
{
    if n == 0 {
        Seq::empty()
    } else {
        compute_pipelines_commands(handles, (n - 1) as nat, pipelines) + compute_pipeline_commands(
            handles[n - 1],
            pipelines[handles[n - 1]@ as int],
        )
    }
}

/// One compute pass: its beginning, its pipelines in declared order, its end.
pub open spec fn compute_pass_commands(
    handle: ComputePassHandle,
    pass: ComputePassView,
    pipelines: Seq<ComputePipelineView>,
) -> Seq<Command> {
    seq![Command::BeginComputePass { pass: handle }] + compute_pipelines_commands(
        pass.pipelines,
        pass.pipelines.len(),
        pipelines,
    ) + seq![Command::EndComputePass]
}

/// `min_count` is the minimum: no buffer among the first `n` holds fewer
/// elements, and one of them holds exactly that many.
pub proof fn lemma_min_count(handles: Seq<BufferHandle>, n: nat, buffers: Seq<BufferView>)
    requires
        0 < n <= handles.len(),
    ensures
        forall|i: int| 0 <= i < n ==> min_count(handles, n, buffers) <= count(#[trigger] handles[i], buffers),
        exists|i: int| 0 <= i < n && min_count(handles, n, buffers) == count(#[trigger] handles[i], buffers),
    decreases n,
{
    if n > 1 {
        lemma_min_count(handles, (n - 1) as nat, buffers);
        let rest = min_count(handles, (n - 1) as nat, buffers);
        let last = count(handles[n - 1], buffers);
        if last < rest {
        } else {
            let i = choose|i: int| 0 <= i < n - 1 && rest == count(#[trigger] handles[i], buffers);
        }
    }
}

/// A pipeline without an index buffer ends in one draw that is not indexed.
/// It covers as many vertices as the shortest of the attached vertex buffers
/// holds, exactly one where no vertex buffer is attached, and one instance.
pub proof fn lemma_draw_without_indices(pipeline: RenderPipelineView, buffers: Seq<BufferView>)
    requires
        pipeline.index_buffer is None,
        draw_error(pipeline, buffers) is None,
    ensures
        draw_commands(pipeline, buffers).len() == pipeline.vertex_buffers.len() + 1,
        draw_commands(pipeline, buffers).last() == (Command::Draw {
            vertices: vertex_count(pipeline, buffers) as u32,
            instances: 1,
        }),
        vertex_count(pipeline, buffers) as u32 == vertex_count(pipeline, buffers),
        pipeline.vertex_buffers.len() == 0 ==> vertex_count(pipeline, buffers) == 1,
        forall|i: int|
            0 <= i < pipeline.vertex_buffers.len() ==> vertex_count(pipeline, buffers) <= count(
                #[trigger] pipeline.vertex_buffers[i],
                buffers,
            ),
        pipeline.vertex_buffers.len() > 0 ==> exists|i: int|
            0 <= i < pipeline.vertex_buffers.len() && vertex_count(pipeline, buffers) == count(
                #[trigger] pipeline.vertex_buffers[i],
                buffers,
            ),
{
    if pipeline.vertex_buffers.len() > 0 {
        lemma_min_count(pipeline.vertex_buffers, pipeline.vertex_buffers.len(), buffers);
    }
}

/// A pipeline with an index buffer sets that buffer first, as 16-bit indices
/// where its elements are 2 bytes wide and as 32-bit indices where they are 4
/// bytes wide, and ends in one indexed draw that covers the whole index
/// buffer, for as many instances as the instance buffers hold, or for one
/// where none is attached.
pub proof fn lemma_draw_with_indices(pipeline: RenderPipelineView, buffers: Seq<BufferView>)
    requires
        pipeline.index_buffer is Some,
        index_format_of(buffers[pipeline.index_buffer.unwrap()@ as int].element.size) is Some,
        draw_error(pipeline, buffers) is None,
    ensures
        draw_commands(pipeline, buffers).first() matches Command::SetIndexBuffer { buffer, format }
            && buffer == pipeline.index_buffer.unwrap() && (buffers[buffer@ as int].element.size == 2
            ==> format == IndexFormat::Uint16) && (buffers[buffer@ as int].element.size == 4 ==> format
            == IndexFormat::Uint32),
        draw_commands(pipeline, buffers).last() == (Command::DrawIndexed {
            indices: count(pipeline.index_buffer.unwrap(), buffers) as u32,
            instances: instance_count(pipeline, buffers) as u32,
        }),
        count(pipeline.index_buffer.unwrap(), buffers) as u32 == count(pipeline.index_buffer.unwrap(), buffers),
        instance_count(pipeline, buffers) as u32 == instance_count(pipeline, buffers),
        same_count(pipeline.vertex_buffers, buffers),
        same_count(pipeline.instance_buffers, buffers),
{
}

/// The first error among the pipelines of a pass stays the first however many
/// more pipelines are looked at.
pub proof fn lemma_pipelines_error_from(
    handles: Seq<PipelineHandle>,
    n: nat,
    m: nat,
    pipelines: Seq<RenderPipelineView>,
    buffers: Seq<BufferView>,
)
    requires
        n <= m,
        render_pipelines_error(handles, n, pipelines, buffers) is Some,
    ensures
        render_pipelines_error(handles, m, pipelines, buffers) == render_pipelines_error(
            handles,
            n,
            pipelines,
            buffers,
        ),
    decreases m,
{
    if n < m {
        lemma_pipelines_error_from(handles, n, (m - 1) as nat, pipelines, buffers);
    }
}

} // verus!
