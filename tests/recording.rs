use rikka_gpu::barrier::{state_info, ResourceState, StateTracker};
use rikka_gpu::buffer::{BufferLocation, ResourceUsageType};
use rikka_gpu::commands::{record_scene, Command, CommandBuffer, CommandBufferState, MeshDraw, SceneFrame};
use rikka_gpu::error::GpuError;
use rikka_gpu::pipeline::{
    scene_pipeline_desc, GraphicsPipelineDesc, PolygonMode, RasterizationState, RenderingFormats,
    ShaderStageDesc, ShaderStageType, ShaderStateDesc, CULL_MODE_BACK, CULL_MODE_NONE, FORMAT_D32_SFLOAT,
    scene_vertex_input, uniform_buffer_desc, zero_buffer_desc, VertexInputRate, VertexInputState,
    FORMAT_R32G32B32A32_SFLOAT, UNIFORM_DATA_BYTES,
};

fn frame(img: usize) -> SceneFrame {
    SceneFrame {
        swapchain_image: img,
        width: 1920,
        height: 1200,
        color_view: 100,
        depth_view: 101,
        pipeline: 200,
        pipeline_layout: 201,
        bindless_set: 300,
        zero_buffer: 400,
    }
}

fn draw(base: u64, tangent: Option<u64>, incomplete: bool) -> MeshDraw {
    MeshDraw {
        position_buffer: Some(base),
        position_offset: 1,
        tex_coords_buffer: Some(base + 1),
        tex_coords_offset: 2,
        normal_buffer: Some(base + 2),
        normal_offset: 3,
        tangent_buffer: tangent,
        tangent_offset: 4,
        index_buffer: Some(base + 3),
        index_offset: 5,
        descriptor_set: Some(base + 4),
        count: 36,
        textures_incomplete: incomplete,
    }
}

#[test]
fn command_buffer_lifecycle() {
    let mut cb = CommandBuffer::new();
    assert_eq!(cb.state(), CommandBufferState::Initial);
    assert_eq!(cb.record(Command::EndRendering), Err(GpuError::InvalidFrameState));
    assert_eq!(cb.end(), Err(GpuError::InvalidFrameState));
    assert_eq!(cb.begin(), Ok(()));
    assert_eq!(cb.begin(), Err(GpuError::InvalidFrameState));
    assert_eq!(cb.record(Command::EndRendering), Ok(()));
    assert_eq!(cb.end(), Ok(()));
    assert_eq!(cb.state(), CommandBufferState::Executable);
    assert_eq!(cb.commands(), &[Command::EndRendering]);
    cb.reset();
    assert_eq!(cb.state(), CommandBufferState::Initial);
    assert!(cb.commands().is_empty());
}

#[test]
fn scene_recording_binds_before_each_draw() {
    let mut states = StateTracker::new();
    let img = states.track(ResourceState::Present);
    let mut cb = CommandBuffer::new();
    let draws = [draw(10, Some(99), false), draw(20, None, true), draw(30, None, false)];
    assert_eq!(record_scene(&mut cb, &mut states, frame(img), &draws), Ok(()));
    assert_eq!(cb.state(), CommandBufferState::Executable);
    assert_eq!(states.state(img), Some(ResourceState::Present));
    let c = cb.commands();
    // 3 leading, 8 per drawn primitive (one skipped), 2 trailing.
    assert_eq!(c.len(), 3 + 16 + 2);
    match c[0] {
        Command::Barrier { barrier } => {
            assert_eq!(barrier.image, img);
            assert_eq!(barrier.new_layout, state_info(ResourceState::RenderTarget).layout);
        }
        _ => panic!("first command must be a barrier"),
    }
    assert_eq!(c[1], Command::BeginRendering { width: 1920, height: 1200, color_view: 100, depth_view: 101 });
    assert_eq!(c[2], Command::BindGraphicsPipeline { pipeline: 200 });
    assert_eq!(c[3], Command::BindVertexBuffer { buffer: 10, slot: 0, offset: 1 });
    assert_eq!(c[6], Command::BindVertexBuffer { buffer: 99, slot: 3, offset: 4 });
    assert_eq!(c[7], Command::BindIndexBuffer { buffer: 13, offset: 5 });
    assert_eq!(c[8], Command::BindDescriptorSet { set: 14, layout: 201, index: 0 });
    assert_eq!(c[9], Command::BindDescriptorSet { set: 300, layout: 201, index: 1 });
    assert_eq!(
        c[10],
        Command::DrawIndexed { index_count: 36, instance_count: 1, first_index: 0, vertex_offset: 0, first_instance: 0 }
    );
    assert_eq!(c[11], Command::BindVertexBuffer { buffer: 30, slot: 0, offset: 1 });
    // Missing tangents come from the zero buffer.
    assert_eq!(c[14], Command::BindVertexBuffer { buffer: 400, slot: 3, offset: 0 });
    assert_eq!(c[19], Command::EndRendering);
    match c[20] {
        Command::Barrier { barrier } => {
            assert_eq!(barrier.old_layout, state_info(ResourceState::RenderTarget).layout);
            assert_eq!(barrier.new_layout, state_info(ResourceState::Present).layout);
        }
        _ => panic!("last command must be a barrier"),
    }
}

#[test]
fn scene_recording_refuses_bad_inputs() {
    let mut states = StateTracker::new();
    let mut cb = CommandBuffer::new();
    assert_eq!(record_scene(&mut cb, &mut states, frame(0), &[]), Err(GpuError::UnknownResource));
    assert!(cb.commands().is_empty());
    let img = states.track(ResourceState::Undefined);
    assert_eq!(cb.begin(), Ok(()));
    assert_eq!(record_scene(&mut cb, &mut states, frame(img), &[]), Err(GpuError::InvalidFrameState));
    assert_eq!(states.state(img), Some(ResourceState::Undefined));
    cb.reset();
    assert_eq!(record_scene(&mut cb, &mut states, frame(img), &[]), Ok(()));
    assert_eq!(cb.commands().len(), 5);
}

#[test]
fn scene_vertex_layout() {
    let v = scene_vertex_input();
    assert!(v.is_consistent());
    assert_eq!(v.attributes().len(), 4);
    assert_eq!(v.attributes()[3].format, FORMAT_R32G32B32A32_SFLOAT);
    let strides: Vec<u32> = v.streams().iter().map(|s| s.stride).collect();
    assert_eq!(strides, vec![12, 8, 12, 16]);
    assert!(v.streams().iter().all(|s| s.input_rate == VertexInputRate::Vertex));
}

#[test]
fn inconsistent_vertex_layouts_are_detected() {
    let missing_stream = VertexInputState::new()
        .add_vertex_attribute(0, 0, 0, 106)
        .add_vertex_attribute(1, 1, 0, 103)
        .add_vertex_stream(0, 12, VertexInputRate::Vertex);
    assert!(!missing_stream.is_consistent());
    let shared_location = VertexInputState::new()
        .add_vertex_attribute(0, 0, 0, 106)
        .add_vertex_attribute(0, 0, 12, 103)
        .add_vertex_stream(0, 20, VertexInputRate::Instance);
    assert!(!shared_location.is_consistent());
    assert!(VertexInputState::new().is_consistent());
}

#[test]
fn setup_buffer_descriptions() {
    assert_eq!(UNIFORM_DATA_BYTES, 224);
    let u = uniform_buffer_desc();
    assert_eq!(u.size, 224);
    assert_eq!(u.usage_flags, 0x10);
    assert_eq!(u.location(), BufferLocation::CpuToGpu);
    assert_eq!(u.resource_usage, ResourceUsageType::Immutable);
    let z = zero_buffer_desc();
    assert_eq!(z.size, 16);
    assert_eq!(z.usage_flags, 0x80);
    assert_eq!(z.create_usage_flags(), 0x83);
    assert_eq!(z.location(), BufferLocation::CpuToGpu);
}

#[test]
fn scene_pipeline_description() {
    let d = scene_pipeline_desc(1920, 1200, 50);
    assert_eq!(d.shader_state.len(), 2);
    assert_eq!((d.width, d.height), (1920, 1200));
    assert_eq!(d.formats, RenderingFormats { color_format: Some(50), depth_format: Some(FORMAT_D32_SFLOAT) });
    assert_eq!(d.rasterization, RasterizationState { polygon_mode: PolygonMode::Fill, cull_mode: CULL_MODE_NONE });
    assert!(d.vertex_input.is_consistent());
    assert_eq!(d.vertex_input.streams().len(), 4);
}

#[test]
fn pipeline_description_setters() {
    let d = GraphicsPipelineDesc::new();
    assert_eq!(d.shader_state.len(), 0);
    assert_eq!(d.rasterization, RasterizationState { polygon_mode: PolygonMode::Fill, cull_mode: CULL_MODE_BACK });
    assert_eq!(d.formats, RenderingFormats { color_format: None, depth_format: None });
    let stage = ShaderStageDesc::new_from_source_file("a.vert", ShaderStageType::Vertex);
    assert_eq!(stage.source_file, "a.vert");
    let d = d
        .set_shader_state(ShaderStateDesc::new().add_stage(stage))
        .set_extent(8, 6)
        .set_rasterization_state(RasterizationState::new().set_polygon_mode(PolygonMode::Line));
    assert_eq!(d.shader_state.len(), 1);
    assert_eq!((d.width, d.height), (8, 6));
    assert_eq!(d.rasterization.polygon_mode, PolygonMode::Line);
    assert_eq!(d.rasterization.cull_mode, CULL_MODE_BACK);
}
