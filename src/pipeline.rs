use vstd::prelude::*;

use crate::buffer::{BufferDesc, ResourceUsageType, BUFFER_USAGE_UNIFORM_BUFFER, BUFFER_USAGE_VERTEX_BUFFER};

verus! {

/// Format codes of the graphics API for vertex attributes and depth.
pub const FORMAT_R32G32_SFLOAT: u32 = 103;
pub const FORMAT_R32G32B32_SFLOAT: u32 = 106;
pub const FORMAT_R32G32B32A32_SFLOAT: u32 = 109;
pub const FORMAT_D32_SFLOAT: u32 = 126;

/// Bytes of a 4x4 matrix of 32-bit floats.
pub const MAT4_BYTES: u32 = 64;
/// Bytes of a vector of four 32-bit floats.
pub const VEC4_BYTES: u32 = 16;
/// Bytes of the per-frame uniform block: model, view and projection
/// matrices, then eye and light positions.
pub const UNIFORM_DATA_BYTES: u32 = 3 * MAT4_BYTES + 2 * VEC4_BYTES;

/// Whether a stream advances per vertex or per instance.
#[derive(Debug, Clone, Copy, PartialEq, Eq, Structural)]
pub enum VertexInputRate {
    Vertex,
    Instance,
}

/// A shader input read from a stream.
#[derive(Debug, Clone, Copy, PartialEq, Eq, Structural)]
pub struct VertexAttribute {
    pub location: u32,
    pub binding: u32,
    pub offset: u32,
    pub format: u32,
}

/// A vertex buffer binding: its stride and rate.
#[derive(Debug, Clone, Copy, PartialEq, Eq, Structural)]
pub struct VertexStream {
    pub binding: u32,
    pub stride: u32,
    pub input_rate: VertexInputRate,
}

/// Whether `streams` declares binding `binding`.
pub open spec fn has_stream(streams: Seq<VertexStream>, binding: u32) -> bool {
    exists|j: int| 0 <= j < streams.len() && streams[j].binding == binding
}

/// Whether every attribute reads a declared stream and no two attributes
/// share a location.
pub open spec fn layout_consistent(attrs: Seq<VertexAttribute>, streams: Seq<VertexStream>) -> bool {
    &&& forall|i: int| 0 <= i < attrs.len() ==> has_stream(streams, #[trigger] attrs[i].binding)
    &&& forall|i: int, k: int|
        0 <= i < attrs.len() && 0 <= k < attrs.len() && i != k ==> attrs[i].location
            != attrs[k].location
}

/// The vertex input of a pipeline, built up attribute by attribute and
/// stream by stream.
pub struct VertexInputState {
    attributes: Vec<VertexAttribute>,
    streams: Vec<VertexStream>,
}

impl VertexInputState {
    pub closed spec fn attributes_spec(&self) -> Seq<VertexAttribute> {
        self.attributes@
    }

    pub closed spec fn streams_spec(&self) -> Seq<VertexStream> {
        self.streams@
    }

    pub fn new() -> (r: Self)
        ensures
            r.attributes_spec() == Seq::<VertexAttribute>::empty(),
            r.streams_spec() == Seq::<VertexStream>::empty(),
    {
        VertexInputState { attributes: Vec::new(), streams: Vec::new() }
    }

    pub fn add_vertex_attribute(self, location: u32, binding: u32, offset: u32, format: u32) -> (r:
        Self)
        ensures
            r.attributes_spec() == self.attributes_spec().push(
                VertexAttribute { location, binding, offset, format },
            ),
            r.streams_spec() == self.streams_spec(),
    {
        let mut attributes = self.attributes;
        attributes.push(VertexAttribute { location, binding, offset, format });
        VertexInputState { attributes, streams: self.streams }
    }

    pub fn add_vertex_stream(self, binding: u32, stride: u32, input_rate: VertexInputRate) -> (r:
        Self)
        ensures
            r.streams_spec() == self.streams_spec().push(
                VertexStream { binding, stride, input_rate },
            ),
            r.attributes_spec() == self.attributes_spec(),
    {
        let mut streams = self.streams;
        streams.push(VertexStream { binding, stride, input_rate });
        VertexInputState { attributes: self.attributes, streams }
    }

    pub fn attributes(&self) -> (r: &[VertexAttribute])
        ensures
            r@ == self.attributes_spec(),
    {
        self.attributes.as_slice()
    }

    pub fn streams(&self) -> (r: &[VertexStream])
        ensures
            r@ == self.streams_spec(),
    {
        self.streams.as_slice()
    }

    /// Whether every attribute reads a declared stream and no two attributes
    /// share a location.
    #[verifier::loop_isolation(false)]
    pub fn is_consistent(&self) -> (r: bool)
        ensures
            r == layout_consistent(self.attributes_spec(), self.streams_spec()),
    {
        let attrs = self.attributes.as_slice();
        let streams = self.streams.as_slice();
        let mut i: usize = 0;
        while i < attrs.len()
            invariant
                i <= attrs@.len(),
                attrs@ == self.attributes@,
                streams@ == self.streams@,
                forall|a: int| 0 <= a < i ==> has_stream(streams@, #[trigger] attrs@[a].binding),
                forall|a: int, k: int|
                    0 <= a < i && 0 <= k < attrs@.len() && a != k ==> attrs@[a].location
                        != attrs@[k].location,
            decreases attrs@.len() - i,
        {
            let mut found = false;
            let mut j: usize = 0;
            while j < streams.len()
                invariant
                    i < attrs@.len(),
                    j <= streams@.len(),
                    found ==> exists|s: int|
                        0 <= s < streams@.len() && streams@[s].binding == attrs@[i as int].binding,
                    !found ==> forall|s: int| 0 <= s < j ==> streams@[s].binding != attrs@[i as int].binding,
                decreases streams@.len() - j,
            {
                if streams[j].binding == attrs[i].binding {
                    found = true;
                }
                j = j + 1;
            }
            if !found {
                proof {
                    if layout_consistent(self.attributes@, self.streams@) {
                        let ai = attrs@[i as int];
                        assert(has_stream(streams@, ai.binding));
                        let j = choose|j: int|
                            0 <= j < streams@.len() && streams@[j].binding == ai.binding;
                        assert(streams@[j].binding != ai.binding);
                    }
                }
                return false;
            }
            let mut k: usize = 0;
            while k < attrs.len()
                invariant
                    i < attrs@.len(),
                    k <= attrs@.len(),
                    forall|m: int| 0 <= m < k && m != i ==> attrs@[i as int].location != attrs@[m].location,
                decreases attrs@.len() - k,
            {
                if k != i && attrs[k].location == attrs[i].location {
                    assert(attrs@[k as int].location == attrs@[i as int].location);
                    assert(!layout_consistent(self.attributes@, self.streams@));
                    return false;
                }
                k = k + 1;
            }
            i = i + 1;
        }
        true
    }
}

/// Attributes of the scene vertex input: position, texture coordinates,
/// normal and tangent, one stream each.
pub open spec fn scene_vertex_input_attributes() -> Seq<VertexAttribute> {
    seq![
        VertexAttribute { location: 0, binding: 0, offset: 0, format: FORMAT_R32G32B32_SFLOAT },
        VertexAttribute { location: 1, binding: 1, offset: 0, format: FORMAT_R32G32_SFLOAT },
        VertexAttribute { location: 2, binding: 2, offset: 0, format: FORMAT_R32G32B32_SFLOAT },
        VertexAttribute { location: 3, binding: 3, offset: 0, format: FORMAT_R32G32B32A32_SFLOAT },
    ]
}

/// Streams of the scene vertex input, one per attribute.
pub open spec fn scene_vertex_input_streams() -> Seq<VertexStream> {
    seq![
        VertexStream { binding: 0, stride: 12, input_rate: VertexInputRate::Vertex },
        VertexStream { binding: 1, stride: 8, input_rate: VertexInputRate::Vertex },
        VertexStream { binding: 2, stride: 12, input_rate: VertexInputRate::Vertex },
        VertexStream { binding: 3, stride: 16, input_rate: VertexInputRate::Vertex },
    ]
}

/// The vertex input that scene geometry is drawn with: position, texture
/// coordinates, normal and tangent, each from a stream of its own.
pub fn scene_vertex_input() -> (r: VertexInputState)
    ensures
        r.attributes_spec() == scene_vertex_input_attributes(),
        r.streams_spec() == scene_vertex_input_streams(),
        r.attributes_spec() == seq![
            VertexAttribute { location: 0, binding: 0, offset: 0, format: FORMAT_R32G32B32_SFLOAT },
            VertexAttribute { location: 1, binding: 1, offset: 0, format: FORMAT_R32G32_SFLOAT },
            VertexAttribute { location: 2, binding: 2, offset: 0, format: FORMAT_R32G32B32_SFLOAT },
            VertexAttribute { location: 3, binding: 3, offset: 0, format: FORMAT_R32G32B32A32_SFLOAT },
        ],
        r.streams_spec() == seq![
            VertexStream { binding: 0, stride: 12, input_rate: VertexInputRate::Vertex },
            VertexStream { binding: 1, stride: 8, input_rate: VertexInputRate::Vertex },
            VertexStream { binding: 2, stride: 12, input_rate: VertexInputRate::Vertex },
            VertexStream { binding: 3, stride: 16, input_rate: VertexInputRate::Vertex },
        ],
        layout_consistent(r.attributes_spec(), r.streams_spec()),
{
    let r = VertexInputState::new()
        .add_vertex_attribute(0, 0, 0, FORMAT_R32G32B32_SFLOAT)
        .add_vertex_stream(0, 12, VertexInputRate::Vertex)
        .add_vertex_attribute(1, 1, 0, FORMAT_R32G32_SFLOAT)
        .add_vertex_stream(1, 8, VertexInputRate::Vertex)
        .add_vertex_attribute(2, 2, 0, FORMAT_R32G32B32_SFLOAT)
        .add_vertex_stream(2, 12, VertexInputRate::Vertex)
        .add_vertex_attribute(3, 3, 0, FORMAT_R32G32B32A32_SFLOAT)
        .add_vertex_stream(3, 16, VertexInputRate::Vertex);
    let ghost a = r.attributes_spec();
    let ghost s = r.streams_spec();
    assert(a =~= seq![
        VertexAttribute { location: 0, binding: 0, offset: 0, format: FORMAT_R32G32B32_SFLOAT },
        VertexAttribute { location: 1, binding: 1, offset: 0, format: FORMAT_R32G32_SFLOAT },
        VertexAttribute { location: 2, binding: 2, offset: 0, format: FORMAT_R32G32B32_SFLOAT },
        VertexAttribute { location: 3, binding: 3, offset: 0, format: FORMAT_R32G32B32A32_SFLOAT },
    ]);
    assert(s =~= seq![
        VertexStream { binding: 0, stride: 12, input_rate: VertexInputRate::Vertex },
        VertexStream { binding: 1, stride: 8, input_rate: VertexInputRate::Vertex },
        VertexStream { binding: 2, stride: 12, input_rate: VertexInputRate::Vertex },
        VertexStream { binding: 3, stride: 16, input_rate: VertexInputRate::Vertex },
    ]);
    assert forall|i: int| 0 <= i < a.len() implies has_stream(s, #[trigger] a[i].binding) by {
        assert(s[i].binding == a[i].binding);
    }
    r
}


/// Shader stage kinds.
#[derive(Debug, Clone, Copy, PartialEq, Eq, Structural)]
pub enum ShaderStageType {
    Vertex,
    Fragment,
    Compute,
}

/// One shader stage, compiled from the source file it names.
pub struct ShaderStageDesc {
    pub source_file: String,
    pub stage: ShaderStageType,
}

impl ShaderStageDesc {
    pub fn new_from_source_file(path: &str, stage: ShaderStageType) -> (r: Self)
        ensures
            r.source_file@ == path@,
            r.stage == stage,
    {
        ShaderStageDesc { source_file: path.to_owned(), stage }
    }
}

/// The stages of a pipeline, in the order they were added.
pub struct ShaderStateDesc {
    stages: Vec<ShaderStageDesc>,
}

/// What a stage description says, as plain values.
pub open spec fn stage_view(s: ShaderStageDesc) -> (Seq<char>, ShaderStageType) {
    (s.source_file@, s.stage)
}

impl ShaderStateDesc {
    pub closed spec fn stages_spec(&self) -> Seq<(Seq<char>, ShaderStageType)> {
        self.stages@.map_values(|s: ShaderStageDesc| stage_view(s))
    }

    pub fn new() -> (r: Self)
        ensures
            r.stages_spec() == Seq::<(Seq<char>, ShaderStageType)>::empty(),
    {
        let r = ShaderStateDesc { stages: Vec::new() };
        assert(r.stages_spec() =~= Seq::<(Seq<char>, ShaderStageType)>::empty());
        r
    }

    pub fn add_stage(self, stage: ShaderStageDesc) -> (r: Self)
        ensures
            r.stages_spec() == self.stages_spec().push(stage_view(stage)),
    {
        let ghost v = stage_view(stage);
        let mut stages = self.stages;
        stages.push(stage);
        let r = ShaderStateDesc { stages };
        assert(r.stages_spec() =~= self.stages_spec().push(v));
        r
    }

    pub fn len(&self) -> (r: usize)
        ensures
            r == self.stages_spec().len(),
    {
        self.stages.len()
    }
}

/// How polygons are filled.
#[derive(Debug, Clone, Copy, PartialEq, Eq, Structural)]
pub enum PolygonMode {
    Fill,
    Line,
    Point,
}

/// Face culling mode bits of the graphics API.
pub const CULL_MODE_NONE: u32 = 0;
pub const CULL_MODE_FRONT: u32 = 1;
pub const CULL_MODE_BACK: u32 = 2;

/// Fixed-function rasterization state.
#[derive(Debug, Clone, Copy, PartialEq, Eq, Structural)]
pub struct RasterizationState {
    pub polygon_mode: PolygonMode,
    pub cull_mode: u32,
}

impl RasterizationState {
    pub fn new() -> (r: Self)
        ensures
            r == (RasterizationState { polygon_mode: PolygonMode::Fill, cull_mode: CULL_MODE_BACK }),
    {
        RasterizationState { polygon_mode: PolygonMode::Fill, cull_mode: CULL_MODE_BACK }
    }

    pub fn set_polygon_mode(self, polygon_mode: PolygonMode) -> (r: Self)
        ensures
            r == (RasterizationState { polygon_mode, ..self }),
    {
        RasterizationState { polygon_mode, ..self }
    }

    pub fn set_cull_mode(self, cull_mode: u32) -> (r: Self)
        ensures
            r == (RasterizationState { cull_mode, ..self }),
    {
        RasterizationState { cull_mode, ..self }
    }
}

/// Attachment formats that a pipeline renders into, declared without a
/// render-pass object.
#[derive(Debug, Clone, Copy, PartialEq, Eq, Structural)]
pub struct RenderingFormats {
    pub color_format: Option<u32>,
    pub depth_format: Option<u32>,
}

/// Everything a graphics pipeline is compiled from.
pub struct GraphicsPipelineDesc {
    pub shader_state: ShaderStateDesc,
    pub vertex_input: VertexInputState,
    pub rasterization: RasterizationState,
    pub formats: RenderingFormats,
    pub width: u32,
    pub height: u32,
}

impl GraphicsPipelineDesc {
    pub fn new() -> (r: Self)
        ensures
            r.shader_state.stages_spec().len() == 0,
            r.vertex_input.attributes_spec().len() == 0,
            r.vertex_input.streams_spec().len() == 0,
            r.rasterization == (RasterizationState { polygon_mode: PolygonMode::Fill, cull_mode: CULL_MODE_BACK }),
            r.formats == (RenderingFormats { color_format: None, depth_format: None }),
            r.width == 0,
            r.height == 0,
    {
        GraphicsPipelineDesc {
            shader_state: ShaderStateDesc::new(),
            vertex_input: VertexInputState::new(),
            rasterization: RasterizationState::new(),
            formats: RenderingFormats { color_format: None, depth_format: None },
            width: 0,
            height: 0,
        }
    }

    pub fn set_shader_state(self, shader_state: ShaderStateDesc) -> (r: Self)
        ensures
            r.shader_state.stages_spec() == shader_state.stages_spec(),
            r.vertex_input.attributes_spec() == self.vertex_input.attributes_spec(),
            r.vertex_input.streams_spec() == self.vertex_input.streams_spec(),
            r.rasterization == self.rasterization,
            r.formats == self.formats,
            r.width == self.width,
            r.height == self.height,
    {
        GraphicsPipelineDesc { shader_state, ..self }
    }

    pub fn set_vertex_input_state(self, vertex_input: VertexInputState) -> (r: Self)
        ensures
            r.shader_state.stages_spec() == self.shader_state.stages_spec(),
            r.vertex_input.attributes_spec() == vertex_input.attributes_spec(),
            r.vertex_input.streams_spec() == vertex_input.streams_spec(),
            r.rasterization == self.rasterization,
            r.formats == self.formats,
            r.width == self.width,
            r.height == self.height,
    {
        GraphicsPipelineDesc { vertex_input, ..self }
    }

    pub fn set_rasterization_state(self, rasterization: RasterizationState) -> (r: Self)
        ensures
            r.shader_state.stages_spec() == self.shader_state.stages_spec(),
            r.vertex_input.attributes_spec() == self.vertex_input.attributes_spec(),
            r.vertex_input.streams_spec() == self.vertex_input.streams_spec(),
            r.rasterization == rasterization,
            r.formats == self.formats,
            r.width == self.width,
            r.height == self.height,
    {
        GraphicsPipelineDesc { rasterization, ..self }
    }

    pub fn set_rendering_formats(self, formats: RenderingFormats) -> (r: Self)
        ensures
            r.shader_state.stages_spec() == self.shader_state.stages_spec(),
            r.vertex_input.attributes_spec() == self.vertex_input.attributes_spec(),
            r.vertex_input.streams_spec() == self.vertex_input.streams_spec(),
            r.rasterization == self.rasterization,
            r.formats == formats,
            r.width == self.width,
            r.height == self.height,
    {
        GraphicsPipelineDesc { formats, ..self }
    }

    pub fn set_extent(self, width: u32, height: u32) -> (r: Self)
        ensures
            r.shader_state.stages_spec() == self.shader_state.stages_spec(),
            r.vertex_input.attributes_spec() == self.vertex_input.attributes_spec(),
            r.vertex_input.streams_spec() == self.vertex_input.streams_spec(),
            r.rasterization == self.rasterization,
            r.formats == self.formats,
            r.width == width,
            r.height == height,
    {
        GraphicsPipelineDesc { width, height, ..self }
    }
}

/// The pipeline that scene geometry is drawn with, for a swapchain of
/// `width` x `height` in `swapchain_format`: a vertex and a fragment stage,
/// the scene's vertex input, filled polygons without culling, one color
/// attachment in the swapchain's format and a 32-bit float depth attachment.
pub fn scene_pipeline_desc(width: u32, height: u32, swapchain_format: u32) -> (r: GraphicsPipelineDesc)
    ensures
        r.shader_state.stages_spec().len() == 2,
        r.shader_state.stages_spec()[0].1 == ShaderStageType::Vertex,
        r.shader_state.stages_spec()[1].1 == ShaderStageType::Fragment,
        r.vertex_input.attributes_spec() == scene_vertex_input_attributes(),
        r.vertex_input.streams_spec() == scene_vertex_input_streams(),
        r.rasterization == (RasterizationState { polygon_mode: PolygonMode::Fill, cull_mode: CULL_MODE_NONE }),
        r.formats == (RenderingFormats {
            color_format: Some(swapchain_format),
            depth_format: Some(FORMAT_D32_SFLOAT),
        }),
        r.width == width,
        r.height == height,
{
    let shader_state = ShaderStateDesc::new()
        .add_stage(ShaderStageDesc::new_from_source_file("shaders/simple_pbr.vert", ShaderStageType::Vertex))
        .add_stage(ShaderStageDesc::new_from_source_file("shaders/simple_pbr.frag", ShaderStageType::Fragment));
    GraphicsPipelineDesc::new()
        .set_shader_state(shader_state)
        .set_extent(width, height)
        .set_rendering_formats(RenderingFormats {
            color_format: Some(swapchain_format),
            depth_format: Some(FORMAT_D32_SFLOAT),
        })
        .set_vertex_input_state(scene_vertex_input())
        .set_rasterization_state(
            RasterizationState::new().set_polygon_mode(PolygonMode::Fill).set_cull_mode(CULL_MODE_NONE),
        )
}

/// The per-frame uniform buffer: one uniform block, written by the host.
pub fn uniform_buffer_desc() -> (r: BufferDesc)
    ensures
        r == (BufferDesc {
            usage_flags: BUFFER_USAGE_UNIFORM_BUFFER,
            resource_usage: ResourceUsageType::Immutable,
            size: UNIFORM_DATA_BYTES,
            device_only: false,
        }),
{
    BufferDesc::new()
        .set_size(UNIFORM_DATA_BYTES)
        .set_usage_flags(BUFFER_USAGE_UNIFORM_BUFFER)
        .set_device_only(false)
}

/// The stand-in tangent stream: one vector of four zero floats, written by
/// the host.
pub fn zero_buffer_desc() -> (r: BufferDesc)
    ensures
        r == (BufferDesc {
            usage_flags: BUFFER_USAGE_VERTEX_BUFFER,
            resource_usage: ResourceUsageType::Immutable,
            size: VEC4_BYTES,
            device_only: false,
        }),
{
    BufferDesc::new()
        .set_size(VEC4_BYTES)
        .set_usage_flags(BUFFER_USAGE_VERTEX_BUFFER)
        .set_device_only(false)
}

} // verus!
