use petra::bind_group::{BindGroupBuilder, ShaderStages};
use petra::buffer::{BufferBuilder, BufferContents, BufferHandle, ElementType, IndexFormat};
use petra::compute_pass::ComputePassBuilder;
use petra::compute_pipeline::ComputePipelineBuilder;
use petra::error::FrameError;
use petra::frame::{classify, AttachmentTarget, Command, Recovery, SurfaceError};
use petra::manager::RenderManager;
use petra::render_pass::{Color, DepthAttachment, LoadOp, Operations, RenderPassBuilder};
use petra::render_pipeline::{FrontFace, PrimitiveTopology, RenderPipelineBuilder};
use petra::shader::ShaderHandle;
use petra::texture::{framebuffer, TextureBuilder, TextureFormat};
use petra::vertex::{VertexAttribute, VertexFormat};

/// Two single-precision components.
const VERTEX: ElementType = ElementType { id: 7000, size: 8 };
const UNIFORM: ElementType = ElementType { id: 7001, size: 16 };
const KEEP: Operations<Color> = Operations { load: LoadOp::Load, store: true };

fn position() -> Vec<VertexAttribute> {
    vec![VertexAttribute { format: VertexFormat::Float32x2, offset: 0, shader_location: 0 }]
}

fn vertices(manager: &mut RenderManager, count: u64) -> BufferHandle {
    BufferBuilder::new(None, VERTEX).vertex(8, position()).build(manager, count).ok().unwrap()
}

fn instances(manager: &mut RenderManager, count: u64) -> BufferHandle {
    BufferBuilder::new(None, VERTEX).instance(8, position()).build(manager, count).ok().unwrap()
}

fn indices16(manager: &mut RenderManager, count: usize) -> BufferHandle {
    BufferBuilder::new(None, u16::element()).index().build_init(manager, &vec![0u8; 2 * count]).ok().unwrap()
}

fn indices32(manager: &mut RenderManager, count: usize) -> BufferHandle {
    BufferBuilder::new(None, u32::element()).index().build_init(manager, &vec![0u8; 4 * count]).ok().unwrap()
}

fn triangles(shader: ShaderHandle) -> RenderPipelineBuilder {
    RenderPipelineBuilder::new(None)
        .vertex_shader(shader, "vs_main")
        .fragment_shader(shader, "fs_main")
        .topology(PrimitiveTopology::TriangleList)
        .front_face(FrontFace::Cw)
}

/// The draws of a frame, in order.
fn draws(commands: &[Command]) -> Vec<Command> {
    commands
        .iter()
        .copied()
        .filter(|command| matches!(command, Command::Draw { .. } | Command::DrawIndexed { .. }))
        .collect()
}

#[test]
fn acquisition_failures_are_classified() {
    assert_eq!(classify(SurfaceError::Lost), Recovery::Reconfigure);
    assert_eq!(classify(SurfaceError::OutOfMemory), Recovery::Reconfigure);
    assert_eq!(classify(SurfaceError::Timeout), Recovery::Skip);
    assert_eq!(classify(SurfaceError::Outdated), Recovery::Fatal);
}

#[test]
fn a_frame_without_passes_is_submitted_and_presented() {
    let manager = RenderManager::new(800, 600);
    let commands = manager.render().ok().unwrap();
    assert!(commands == vec![Command::Submit, Command::Present]);
}

#[test]
fn three_vertices_are_drawn_once() {
    let mut manager = RenderManager::new(800, 600);
    let shader = manager.register_shader("shader", Some("triangle"));
    let buffer = BufferBuilder::new(Some("triangle"), VERTEX)
        .vertex(8, position())
        .build_init(&mut manager, &[0u8; 24])
        .ok()
        .unwrap();
    let pipeline = triangles(shader).add_vertex_buffer(buffer).build(&mut manager).ok().unwrap();
    let pass = RenderPassBuilder::new(Some("triangle")).add_pipeline(pipeline).build(&mut manager).ok().unwrap();

    let commands = manager.render().ok().unwrap();
    assert!(
        commands
            == vec![
                Command::AttachColor { target: AttachmentTarget::Surface, ops: KEEP },
                Command::BeginRenderPass { pass },
                Command::SetRenderPipeline { pipeline },
                Command::SetVertexBuffer { slot: 0, buffer },
                Command::Draw { vertices: 3, instances: 1 },
                Command::EndRenderPass,
                Command::Submit,
                Command::Present,
            ]
    );
    assert!(draws(&commands) == vec![Command::Draw { vertices: 3, instances: 1 }]);
    // The next frame is the same frame.
    assert!(manager.render().ok().unwrap() == commands);
}

#[test]
fn without_vertex_buffers_one_vertex_is_drawn() {
    let mut manager = RenderManager::new(800, 600);
    let shader = manager.register_shader("shader", None);
    let pipeline = triangles(shader).build(&mut manager).ok().unwrap();
    RenderPassBuilder::new(None).add_pipeline(pipeline).build(&mut manager).ok().unwrap();
    let commands = manager.render().ok().unwrap();
    assert!(draws(&commands) == vec![Command::Draw { vertices: 1, instances: 1 }]);
}

#[test]
fn the_shortest_vertex_buffer_decides_the_vertex_count() {
    let mut manager = RenderManager::new(800, 600);
    let shader = manager.register_shader("shader", None);
    let long = vertices(&mut manager, 9);
    let short = vertices(&mut manager, 4);
    let middle = vertices(&mut manager, 6);
    for (buffers, expected) in [
        (vec![long, short, middle], 4),
        (vec![short, long], 4),
        (vec![long, middle], 6),
        (vec![long], 9),
        (vec![middle, middle], 6),
    ] {
        let mut manager_pipeline = triangles(shader);
        for buffer in &buffers {
            manager_pipeline = manager_pipeline.add_vertex_buffer(*buffer);
        }
        let pipeline = manager_pipeline.build(&mut manager).ok().unwrap();
        let pass = RenderPassBuilder::new(None).add_pipeline(pipeline).build(&mut manager).ok().unwrap();
        let commands = manager.render().ok().unwrap();
        assert!(draws(&commands).last() == Some(&Command::Draw { vertices: expected, instances: 1 }));
        assert!(manager.reorder_pipelines(pass, &[]).is_ok());
    }
}

#[test]
fn vertex_buffers_take_the_slots_of_their_positions() {
    let mut manager = RenderManager::new(800, 600);
    let shader = manager.register_shader("shader", None);
    let a = vertices(&mut manager, 3);
    let b = vertices(&mut manager, 3);
    // Instance buffers are not used by a draw without indices.
    let unused = instances(&mut manager, 5);
    let pipeline = triangles(shader)
        .add_vertex_buffer(b)
        .add_vertex_buffer(a)
        .add_instance_buffer(unused)
        .build(&mut manager)
        .ok()
        .unwrap();
    let pass = RenderPassBuilder::new(None).add_pipeline(pipeline).build(&mut manager).ok().unwrap();
    let commands = manager.render().ok().unwrap();
    assert!(
        commands[1..6]
            == [
                Command::BeginRenderPass { pass },
                Command::SetRenderPipeline { pipeline },
                Command::SetVertexBuffer { slot: 0, buffer: b },
                Command::SetVertexBuffer { slot: 1, buffer: a },
                Command::Draw { vertices: 3, instances: 1 },
            ]
    );
}

#[test]
fn indices_of_two_bytes_are_drawn_as_16_bit() {
    let mut manager = RenderManager::new(800, 600);
    let shader = manager.register_shader("shader", None);
    let quad = vertices(&mut manager, 4);
    let index = indices16(&mut manager, 6);
    let pipeline = triangles(shader).add_vertex_buffer(quad).add_index_buffer(index).build(&mut manager).ok().unwrap();
    let pass = RenderPassBuilder::new(None).add_pipeline(pipeline).build(&mut manager).ok().unwrap();
    let commands = manager.render().ok().unwrap();
    assert!(
        commands
            == vec![
                Command::AttachColor { target: AttachmentTarget::Surface, ops: KEEP },
                Command::BeginRenderPass { pass },
                Command::SetRenderPipeline { pipeline },
                Command::SetIndexBuffer { buffer: index, format: IndexFormat::Uint16 },
                Command::SetVertexBuffer { slot: 0, buffer: quad },
                Command::DrawIndexed { indices: 6, instances: 1 },
                Command::EndRenderPass,
                Command::Submit,
                Command::Present,
            ]
    );
}

#[test]
fn indices_of_four_bytes_are_drawn_as_32_bit() {
    let mut manager = RenderManager::new(800, 600);
    let shader = manager.register_shader("shader", None);
    let index = indices32(&mut manager, 12);
    let pipeline = triangles(shader).add_index_buffer(index).build(&mut manager).ok().unwrap();
    RenderPassBuilder::new(None).add_pipeline(pipeline).build(&mut manager).ok().unwrap();
    let commands = manager.render().ok().unwrap();
    assert!(commands[3] == Command::SetIndexBuffer { buffer: index, format: IndexFormat::Uint32 });
    assert!(commands[4] == Command::DrawIndexed { indices: 12, instances: 1 });
}

#[test]
fn instance_buffers_follow_the_vertex_buffers() {
    let mut manager = RenderManager::new(800, 600);
    let shader = manager.register_shader("shader", None);
    let a = vertices(&mut manager, 4);
    let b = vertices(&mut manager, 4);
    let per_instance = instances(&mut manager, 7);
    let more = instances(&mut manager, 7);
    let index = indices16(&mut manager, 6);
    let pipeline = triangles(shader)
        .add_instance_buffer(per_instance)
        .add_vertex_buffer(a)
        .add_index_buffer(index)
        .add_vertex_buffer(b)
        .add_instance_buffer(more)
        .build(&mut manager)
        .ok()
        .unwrap();
    RenderPassBuilder::new(None).add_pipeline(pipeline).build(&mut manager).ok().unwrap();
    let commands = manager.render().ok().unwrap();
    assert!(
        commands[3..9]
            == [
                Command::SetIndexBuffer { buffer: index, format: IndexFormat::Uint16 },
                Command::SetVertexBuffer { slot: 0, buffer: a },
                Command::SetVertexBuffer { slot: 1, buffer: b },
                Command::SetVertexBuffer { slot: 2, buffer: per_instance },
                Command::SetVertexBuffer { slot: 3, buffer: more },
                Command::DrawIndexed { indices: 6, instances: 7 },
            ]
    );
}

#[test]
fn an_indexed_draw_needs_vertex_buffers_of_one_length() {
    let mut manager = RenderManager::new(800, 600);
    let shader = manager.register_shader("shader", None);
    let a = vertices(&mut manager, 4);
    let b = vertices(&mut manager, 5);
    let index = indices16(&mut manager, 6);
    let pipeline = triangles(shader)
        .add_vertex_buffer(a)
        .add_vertex_buffer(b)
        .add_index_buffer(index)
        .build(&mut manager)
        .ok()
        .unwrap();
    RenderPassBuilder::new(None).add_pipeline(pipeline).build(&mut manager).ok().unwrap();
    assert_eq!(manager.render().err(), Some(FrameError::VertexCountMismatch));
    // Once the buffers agree the frame is drawn.
    manager.write_to_buffer(a, VERTEX, &[0u8; 40]).ok().unwrap();
    assert!(draws(&manager.render().ok().unwrap()) == vec![Command::DrawIndexed { indices: 6, instances: 1 }]);
}

#[test]
fn an_indexed_draw_needs_instance_buffers_of_one_length() {
    let mut manager = RenderManager::new(800, 600);
    let shader = manager.register_shader("shader", None);
    let a = instances(&mut manager, 4);
    let b = instances(&mut manager, 5);
    let index = indices16(&mut manager, 6);
    let pipeline = triangles(shader)
        .add_instance_buffer(a)
        .add_instance_buffer(b)
        .add_index_buffer(index)
        .build(&mut manager)
        .ok()
        .unwrap();
    RenderPassBuilder::new(None).add_pipeline(pipeline).build(&mut manager).ok().unwrap();
    assert_eq!(manager.render().err(), Some(FrameError::InstanceCountMismatch));
}

#[test]
fn vertex_and_instance_buffers_may_differ_in_length() {
    let mut manager = RenderManager::new(800, 600);
    let shader = manager.register_shader("shader", None);
    let per_vertex = vertices(&mut manager, 4);
    let per_instance = instances(&mut manager, 100);
    let index = indices16(&mut manager, 6);
    let pipeline = triangles(shader)
        .add_vertex_buffer(per_vertex)
        .add_instance_buffer(per_instance)
        .add_index_buffer(index)
        .build(&mut manager)
        .ok()
        .unwrap();
    RenderPassBuilder::new(None).add_pipeline(pipeline).build(&mut manager).ok().unwrap();
    assert!(draws(&manager.render().ok().unwrap()) == vec![Command::DrawIndexed { indices: 6, instances: 100 }]);
}

#[test]
fn the_first_draw_that_cannot_be_issued_is_reported() {
    let mut manager = RenderManager::new(800, 600);
    let shader = manager.register_shader("shader", None);
    let four = vertices(&mut manager, 4);
    let five = vertices(&mut manager, 5);
    let three = instances(&mut manager, 3);
    let two = instances(&mut manager, 2);
    let index = indices16(&mut manager, 6);
    let fine = triangles(shader).add_vertex_buffer(four).build(&mut manager).ok().unwrap();
    let vertex_trouble = triangles(shader)
        .add_vertex_buffer(four)
        .add_vertex_buffer(five)
        .add_instance_buffer(three)
        .add_instance_buffer(two)
        .add_index_buffer(index)
        .build(&mut manager)
        .ok()
        .unwrap();
    let instance_trouble = triangles(shader)
        .add_instance_buffer(three)
        .add_instance_buffer(two)
        .add_index_buffer(index)
        .build(&mut manager)
        .ok()
        .unwrap();
    let first = RenderPassBuilder::new(None).add_pipeline(fine).add_pipeline(instance_trouble).build(&mut manager).ok().unwrap();
    let second = RenderPassBuilder::new(None).add_pipeline(vertex_trouble).build(&mut manager).ok().unwrap();
    assert_eq!(manager.render().err(), Some(FrameError::InstanceCountMismatch));
    assert!(manager.reorder_pipelines(first, &[fine]).is_ok());
    assert_eq!(manager.render().err(), Some(FrameError::VertexCountMismatch));
    assert!(manager.reorder_pipelines(second, &[fine]).is_ok());
    assert!(manager.render().is_ok());
}

#[test]
fn a_draw_beyond_what_a_draw_call_can_name_is_reported() {
    let mut manager = RenderManager::new(800, 600);
    let shader = manager.register_shader("shader", None);
    let byte = ElementType { id: 7002, size: 1 };
    let most = BufferBuilder::new(None, byte).vertex(1, Vec::new()).build(&mut manager, 0xffff_fff8).ok().unwrap();
    let pipeline = triangles(shader).add_vertex_buffer(most).build(&mut manager).ok().unwrap();
    let pass = RenderPassBuilder::new(None).add_pipeline(pipeline).build(&mut manager).ok().unwrap();
    assert!(draws(&manager.render().ok().unwrap()) == vec![Command::Draw { vertices: 0xffff_fff8, instances: 1 }]);

    let too_many = BufferBuilder::new(None, byte).vertex(1, Vec::new()).build(&mut manager, 0x1_0000_0000).ok().unwrap();
    let pipeline = triangles(shader).add_vertex_buffer(too_many).build(&mut manager).ok().unwrap();
    assert!(manager.reorder_pipelines(pass, &[pipeline]).is_ok());
    assert_eq!(manager.render().err(), Some(FrameError::DrawTooLarge));

    let index = indices16(&mut manager, 3);
    let instanced = BufferBuilder::new(None, byte).instance(1, Vec::new()).build(&mut manager, 0x1_0000_0000).ok().unwrap();
    let pipeline = triangles(shader).add_instance_buffer(instanced).add_index_buffer(index).build(&mut manager).ok().unwrap();
    assert!(manager.reorder_pipelines(pass, &[pipeline]).is_ok());
    assert_eq!(manager.render().err(), Some(FrameError::DrawTooLarge));
}

#[test]
fn bind_groups_take_the_slots_of_their_positions() {
    let mut manager = RenderManager::new(800, 600);
    let shader = manager.register_shader("shader", None);
    let uniform = BufferBuilder::new(None, UNIFORM).uniform().build(&mut manager, 1).ok().unwrap();
    let stages = ShaderStages { vertex: true, fragment: true, compute: false };
    let camera = BindGroupBuilder::new(None).bind_uniform_buffer(0, stages, UNIFORM, uniform).build(&mut manager).ok().unwrap();
    let material = BindGroupBuilder::new(None).bind_uniform_buffer(0, stages, UNIFORM, uniform).build(&mut manager).ok().unwrap();
    let pipeline = triangles(shader)
        .add_bind_group(material)
        .add_bind_group(camera)
        .add_bind_group(material)
        .build(&mut manager)
        .ok()
        .unwrap();
    RenderPassBuilder::new(None).add_pipeline(pipeline).build(&mut manager).ok().unwrap();
    let commands = manager.render().ok().unwrap();
    assert!(
        commands[2..7]
            == [
                Command::SetRenderPipeline { pipeline },
                Command::SetBindGroup { slot: 0, group: material },
                Command::SetBindGroup { slot: 1, group: camera },
                Command::SetBindGroup { slot: 2, group: material },
                Command::Draw { vertices: 1, instances: 1 },
            ]
    );
}

#[test]
fn attachments_resolve_to_the_screen_or_to_their_texture() {
    let mut manager = RenderManager::new(800, 600);
    let texel = ElementType { id: 7003, size: 4 };
    let _first = TextureBuilder::new(None, TextureFormat::Rgba8Unorm, texel).size_2d(1, 1).build(&mut manager).ok().unwrap();
    let target = TextureBuilder::new(None, TextureFormat::Rgba8Unorm, texel).size_framebuffer().build(&mut manager).ok().unwrap();
    let depth = TextureBuilder::new(None, TextureFormat::Depth32Float, texel).size_framebuffer().build(&mut manager).ok().unwrap();
    let white = Color { r: 1.0f64.to_bits(), g: 1.0f64.to_bits(), b: 1.0f64.to_bits(), a: 1.0f64.to_bits() };
    let one = 1.0f32.to_bits();
    let pass = RenderPassBuilder::new(None)
        .add_color_attachment(target, Some(white), true)
        .add_color_attachment(framebuffer(), None, false)
        .add_depth_stencil_attachment(depth, Some((Some(one), false)), None)
        .build(&mut manager)
        .ok()
        .unwrap();
    let commands = manager.render().ok().unwrap();
    assert!(
        commands
            == vec![
                Command::AttachColor {
                    target: AttachmentTarget::Texture(target),
                    ops: Operations { load: LoadOp::Clear(white), store: true },
                },
                Command::AttachColor {
                    target: AttachmentTarget::Surface,
                    ops: Operations { load: LoadOp::Load, store: false },
                },
                Command::AttachDepth {
                    attachment: DepthAttachment {
                        texture: depth,
                        depth_op: Some(Operations { load: LoadOp::Clear(one), store: false }),
                        stencil_op: None,
                    },
                },
                Command::BeginRenderPass { pass },
                Command::EndRenderPass,
                Command::Submit,
                Command::Present,
            ]
    );
}

#[test]
fn compute_passes_dispatch_their_work_groups() {
    let mut manager = RenderManager::new(800, 600);
    let shader = manager.register_shader("shader", None);
    let storage = BufferBuilder::new(None, UNIFORM).storage().build(&mut manager, 64).ok().unwrap();
    let stages = ShaderStages { vertex: false, fragment: false, compute: true };
    let group = BindGroupBuilder::new(None)
        .bind_storage_buffer(0, stages, false, Some(64), UNIFORM, storage)
        .build(&mut manager)
        .ok()
        .unwrap();
    let first = ComputePipelineBuilder::new(None)
        .set_shader(shader, "first")
        .work_groups([64, 1, 1])
        .add_bind_group(group)
        .build(&mut manager)
        .ok()
        .unwrap();
    let second = ComputePipelineBuilder::new(None).set_shader(shader, "second").work_groups([2, 3, 4]).build(&mut manager).ok().unwrap();
    let pass = ComputePassBuilder::new(None).add_pipeline(first).add_pipeline(second).build(&mut manager).ok().unwrap();
    let commands = manager.render().ok().unwrap();
    assert!(
        commands
            == vec![
                Command::BeginComputePass { pass },
                Command::SetComputePipeline { pipeline: first },
                Command::SetBindGroup { slot: 0, group },
                Command::DispatchWorkgroups { x: 64, y: 1, z: 1 },
                Command::SetComputePipeline { pipeline: second },
                Command::DispatchWorkgroups { x: 2, y: 3, z: 4 },
                Command::EndComputePass,
                Command::Submit,
                Command::Present,
            ]
    );
}

#[test]
fn passes_and_pipelines_are_replayed_in_declared_order() {
    let mut manager = RenderManager::new(800, 600);
    let shader = manager.register_shader("shader", None);
    let three = vertices(&mut manager, 3);
    let six = vertices(&mut manager, 6);
    let small = triangles(shader).add_vertex_buffer(three).build(&mut manager).ok().unwrap();
    let large = triangles(shader).add_vertex_buffer(six).build(&mut manager).ok().unwrap();
    let compute = ComputePipelineBuilder::new(None).set_shader(shader, "main").work_groups([1, 1, 1]).build(&mut manager).ok().unwrap();

    let first = RenderPassBuilder::new(None).add_pipeline(large).add_pipeline(small).build(&mut manager).ok().unwrap();
    let second = ComputePassBuilder::new(None).add_pipeline(compute).build(&mut manager).ok().unwrap();
    let third = RenderPassBuilder::new(None).add_pipeline(small).build(&mut manager).ok().unwrap();

    let commands = manager.render().ok().unwrap();
    let order: Vec<Command> = commands
        .iter()
        .copied()
        .filter(|command| {
            matches!(
                command,
                Command::BeginRenderPass { .. }
                    | Command::BeginComputePass { .. }
                    | Command::Draw { .. }
                    | Command::DispatchWorkgroups { .. }
                    | Command::Submit
                    | Command::Present
            )
        })
        .collect();
    assert!(
        order
            == vec![
                Command::BeginRenderPass { pass: first },
                Command::Draw { vertices: 6, instances: 1 },
                Command::Draw { vertices: 3, instances: 1 },
                Command::BeginComputePass { pass: second },
                Command::DispatchWorkgroups { x: 1, y: 1, z: 1 },
                Command::BeginRenderPass { pass: third },
                Command::Draw { vertices: 3, instances: 1 },
                Command::Submit,
                Command::Present,
            ]
    );

    // Reordering the pipelines of a pass reorders its draws.
    assert!(manager.reorder_pipelines(first, &[small, large]).is_ok());
    let commands = manager.render().ok().unwrap();
    assert!(
        draws(&commands)
            == vec![
                Command::Draw { vertices: 3, instances: 1 },
                Command::Draw { vertices: 6, instances: 1 },
                Command::Draw { vertices: 3, instances: 1 },
            ]
    );
}

#[test]
fn a_growing_buffer_grows_the_draw() {
    let mut manager = RenderManager::new(800, 600);
    let shader = manager.register_shader("shader", None);
    let buffer = vertices(&mut manager, 1);
    let pipeline = triangles(shader).add_vertex_buffer(buffer).build(&mut manager).ok().unwrap();
    RenderPassBuilder::new(None).add_pipeline(pipeline).build(&mut manager).ok().unwrap();
    assert!(draws(&manager.render().ok().unwrap()) == vec![Command::Draw { vertices: 1, instances: 1 }]);
    let outcome = manager.write_to_buffer(buffer, VERTEX, &[0u8; 80]).ok().unwrap();
    assert!(outcome.reallocated);
    assert!(draws(&manager.render().ok().unwrap()) == vec![Command::Draw { vertices: 10, instances: 1 }]);
}
