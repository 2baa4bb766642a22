//! Pipelines, described: what a render or compute pipeline is compiled from.
//!
//! A shader descriptor names the bind-group layouts that the shader consumes,
//! in the order in which the shader indexes them, its vertex layout and its
//! colour and depth-stencil state. A pipeline is made of a descriptor and the
//! bytes of its shader stages, which must be SPIR-V modules.

use vstd::prelude::*;
use vstd::bytes::spec_u32_from_le_bytes;
use crate::buffer::{spec_unpack_words, unpack_words};
use crate::error::APURRendererError;
use crate::texture::TextureFormat;

verus! {

/// The first word of every SPIR-V module.
pub const SPIRV_MAGIC_NUMBER: u32 = 0x0723_0203;

/// All four colour channels are written.
pub const COLOR_WRITE_ALL: u32 = 15;

/// The type and number of the components of a vertex attribute.
#[derive(Debug, Clone, Copy, PartialEq, Eq, Structural)]
pub enum VertexFormat {
    Uchar2,
    Uchar4,
    Char2,
    Char4,
    Uchar2Norm,
    Uchar4Norm,
    Char2Norm,
    Char4Norm,
    Ushort2,
    Ushort4,
    Short2,
    Short4,
    Ushort2Norm,
    Ushort4Norm,
    Short2Norm,
    Short4Norm,
    Half2,
    Half4,
    Float,
    Float2,
    Float3,
    Float4,
    Uint,
    Uint2,
    Uint3,
    Uint4,
    Int,
    Int2,
    Int3,
    Int4,
}

impl VertexFormat {
    /// The number of bytes that an attribute of this format takes.
    pub open spec fn spec_size(self) -> u64 {
        match self {
            VertexFormat::Uchar2
            | VertexFormat::Char2
            | VertexFormat::Uchar2Norm
            | VertexFormat::Char2Norm => 2,
            VertexFormat::Uchar4
            | VertexFormat::Char4
            | VertexFormat::Uchar4Norm
            | VertexFormat::Char4Norm
            | VertexFormat::Ushort2
            | VertexFormat::Short2
            | VertexFormat::Ushort2Norm
            | VertexFormat::Short2Norm
            | VertexFormat::Half2
            | VertexFormat::Float
            | VertexFormat::Uint
            | VertexFormat::Int => 4,
            VertexFormat::Ushort4
            | VertexFormat::Short4
            | VertexFormat::Ushort4Norm
            | VertexFormat::Short4Norm
            | VertexFormat::Half4
            | VertexFormat::Float2
            | VertexFormat::Uint2
            | VertexFormat::Int2 => 8,
            VertexFormat::Float3 | VertexFormat::Uint3 | VertexFormat::Int3 => 12,
            VertexFormat::Float4 | VertexFormat::Uint4 | VertexFormat::Int4 => 16,
        }
    }

    /// The number of bytes that an attribute of this format takes.
    pub fn size(&self) -> (bytes: u64)
        ensures
            bytes == self.spec_size(),
            2 <= bytes <= 16,
    {
        match self {
            VertexFormat::Uchar2
            | VertexFormat::Char2
            | VertexFormat::Uchar2Norm
            | VertexFormat::Char2Norm => 2,
            VertexFormat::Uchar4
            | VertexFormat::Char4
            | VertexFormat::Uchar4Norm
            | VertexFormat::Char4Norm
            | VertexFormat::Ushort2
            | VertexFormat::Short2
            | VertexFormat::Ushort2Norm
            | VertexFormat::Short2Norm
            | VertexFormat::Half2
            | VertexFormat::Float
            | VertexFormat::Uint
            | VertexFormat::Int => 4,
            VertexFormat::Ushort4
            | VertexFormat::Short4
            | VertexFormat::Ushort4Norm
            | VertexFormat::Short4Norm
            | VertexFormat::Half4
            | VertexFormat::Float2
            | VertexFormat::Uint2
            | VertexFormat::Int2 => 8,
            VertexFormat::Float3 | VertexFormat::Uint3 | VertexFormat::Int3 => 12,
            VertexFormat::Float4 | VertexFormat::Uint4 | VertexFormat::Int4 => 16,
        }
    }
}

/// Whether a vertex buffer advances per vertex or per instance.
#[derive(Debug, Clone, Copy, PartialEq, Eq, Structural)]
pub enum InputStepMode {
    Vertex,
    Instance,
}

/// The width of the indices of an indexed draw.
#[derive(Debug, Clone, Copy, PartialEq, Eq, Structural)]
pub enum IndexFormat {
    Uint16,
    Uint32,
}

/// One attribute of a vertex: where it starts within the vertex, its format,
/// and the shader input that it feeds.
#[derive(Debug, Clone, Copy, PartialEq, Eq, Structural)]
pub struct VertexAttributeDescriptor {
    pub offset: u64,
    pub format: VertexFormat,
    pub shader_location: u32,
}

/// The layout of the vertices of one vertex buffer.
#[derive(Debug)]
pub struct VertexBufferDescriptor {
    pub stride: u64,
    pub step_mode: InputStepMode,
    pub attributes: Vec<VertexAttributeDescriptor>,
}

/// The vertex input of a render pipeline.
#[derive(Debug)]
pub struct VertexStateDescriptor {
    pub index_format: IndexFormat,
    pub vertex_buffers: Vec<VertexBufferDescriptor>,
}

/// The number of bytes that the first `count` of `formats` take together.
pub open spec fn packed_offset(formats: Seq<VertexFormat>, count: int) -> int
    decreases count,
{
    if count <= 0 {
        0
    } else {
        packed_offset(formats, count - 1) + formats[count - 1].spec_size()
    }
}

/// The attributes of `formats` laid out one after the other without gaps:
/// attribute `i` feeds shader input `i`.
pub open spec fn packed_attributes(formats: Seq<VertexFormat>) -> Seq<VertexAttributeDescriptor> {
    Seq::new(
        formats.len(),
        |i: int|
            VertexAttributeDescriptor {
                offset: packed_offset(formats, i) as u64,
                format: formats[i],
                shader_location: i as u32,
            },
    )
}

/// The first `count` formats take at most 16 bytes each, and at least 2.
pub proof fn lemma_packed_offset_bounds(formats: Seq<VertexFormat>, count: int)
    requires
        0 <= count <= formats.len(),
    ensures
        2 * count <= packed_offset(formats, count) <= 16 * count,
    decreases count,
{
    if count > 0 {
        lemma_packed_offset_bounds(formats, count - 1);
    }
}

impl VertexBufferDescriptor {
    /// The buffer holds one vertex after the other, each made of attributes of
    /// `formats`, in that order, without gaps.
    pub open spec fn is_packed(&self, formats: Seq<VertexFormat>) -> bool {
        &&& self.stride == packed_offset(formats, formats.len() as int)
        &&& self.step_mode == InputStepMode::Vertex
        &&& self.attributes@ == packed_attributes(formats)
    }

    /// The layout of tightly packed vertices with attributes of `formats`.
    pub fn packed(formats: &[VertexFormat]) -> (layout: Self)
        requires
            formats@.len() <= u32::MAX,
        ensures
            layout.is_packed(formats@),
    {
        let mut attributes: Vec<VertexAttributeDescriptor> = Vec::new();
        let mut offset: u64 = 0;
        let mut i: usize = 0;
        while i < formats.len()
            invariant
                i <= formats@.len() <= u32::MAX,
                offset == packed_offset(formats@, i as int),
                attributes@ == packed_attributes(formats@).take(i as int),
            decreases formats@.len() - i,
        {
            proof {
                lemma_packed_offset_bounds(formats@, i as int);
            }
            let format = formats[i];
            attributes.push(VertexAttributeDescriptor { offset, format, shader_location: i as u32 });
            assert(attributes@ =~= packed_attributes(formats@).take(i as int + 1));
            offset = offset + format.size();
            i = i + 1;
        }
        assert(attributes@ =~= packed_attributes(formats@));
        VertexBufferDescriptor { stride: offset, step_mode: InputStepMode::Vertex, attributes }
    }
}

/// A factor of a blend equation.
#[derive(Debug, Clone, Copy, PartialEq, Eq, Structural)]
pub enum BlendFactor {
    Zero,
    One,
    SrcColor,
    OneMinusSrcColor,
    SrcAlpha,
    OneMinusSrcAlpha,
    DstColor,
    OneMinusDstColor,
    DstAlpha,
    OneMinusDstAlpha,
    SrcAlphaSaturated,
    BlendColor,
    OneMinusBlendColor,
}

/// The operation of a blend equation.
#[derive(Debug, Clone, Copy, PartialEq, Eq, Structural)]
pub enum BlendOperation {
    Add,
    Subtract,
    ReverseSubtract,
    Min,
    Max,
}

/// How a fragment is blended with what the target holds.
#[derive(Debug, Clone, Copy, PartialEq, Eq, Structural)]
pub struct BlendDescriptor {
    pub src_factor: BlendFactor,
    pub dst_factor: BlendFactor,
    pub operation: BlendOperation,
}

impl BlendDescriptor {
    /// The fragment replaces what the target holds.
    pub open spec fn spec_replace() -> BlendDescriptor {
        BlendDescriptor {
            src_factor: BlendFactor::One,
            dst_factor: BlendFactor::Zero,
            operation: BlendOperation::Add,
        }
    }

    /// The fragment replaces what the target holds.
    pub fn replace() -> (blend: Self)
        ensures
            blend == Self::spec_replace(),
    {
        BlendDescriptor {
            src_factor: BlendFactor::One,
            dst_factor: BlendFactor::Zero,
            operation: BlendOperation::Add,
        }
    }
}

/// One colour target of a render pipeline.
#[derive(Debug, Clone, Copy, PartialEq, Eq, Structural)]
pub struct ColorStateDescriptor {
    pub format: TextureFormat,
    pub alpha_blend: BlendDescriptor,
    pub color_blend: BlendDescriptor,
    pub write_mask: u32,
}

/// The comparison of a depth or stencil test.
#[derive(Debug, Clone, Copy, PartialEq, Eq, Structural)]
pub enum CompareFunction {
    Never,
    Less,
    Equal,
    LessEqual,
    Greater,
    NotEqual,
    GreaterEqual,
    Always,
}

/// What a stencil test does to the stencil value.
#[derive(Debug, Clone, Copy, PartialEq, Eq, Structural)]
pub enum StencilOperation {
    Keep,
    Zero,
    Replace,
    Invert,
    IncrementClamp,
    DecrementClamp,
    IncrementWrap,
    DecrementWrap,
}

/// The stencil test for the faces of one side.
#[derive(Debug, Clone, Copy, PartialEq, Eq, Structural)]
pub struct StencilStateFaceDescriptor {
    pub compare: CompareFunction,
    pub fail_op: StencilOperation,
    pub depth_fail_op: StencilOperation,
    pub pass_op: StencilOperation,
}

impl StencilStateFaceDescriptor {
    /// The stencil test that always passes and keeps the stencil value.
    pub open spec fn spec_ignore() -> StencilStateFaceDescriptor {
        StencilStateFaceDescriptor {
            compare: CompareFunction::Always,
            fail_op: StencilOperation::Keep,
            depth_fail_op: StencilOperation::Keep,
            pass_op: StencilOperation::Keep,
        }
    }

    /// The stencil test that always passes and keeps the stencil value.
    pub fn ignore() -> (face: Self)
        ensures
            face == Self::spec_ignore(),
    {
        StencilStateFaceDescriptor {
            compare: CompareFunction::Always,
            fail_op: StencilOperation::Keep,
            depth_fail_op: StencilOperation::Keep,
            pass_op: StencilOperation::Keep,
        }
    }
}

/// The depth and stencil target of a render pipeline.
#[derive(Debug, Clone, Copy, PartialEq, Eq, Structural)]
pub struct DepthStencilStateDescriptor {
    pub format: TextureFormat,
    pub depth_write_enabled: bool,
    pub depth_compare: CompareFunction,
    pub stencil_front: StencilStateFaceDescriptor,
    pub stencil_back: StencilStateFaceDescriptor,
    pub stencil_read_mask: u32,
    pub stencil_write_mask: u32,
}

/// Which winding makes a triangle face the viewer.
#[derive(Debug, Clone, Copy, PartialEq, Eq, Structural)]
pub enum FrontFace {
    Ccw,
    Cw,
}

/// Which faces are not drawn.
#[derive(Debug, Clone, Copy, PartialEq, Eq, Structural)]
pub enum CullMode {
    Nothing,
    Front,
    Back,
}

/// How vertices make primitives.
#[derive(Debug, Clone, Copy, PartialEq, Eq, Structural)]
pub enum PrimitiveTopology {
    PointList,
    LineList,
    LineStrip,
    TriangleList,
    TriangleStrip,
}

/// How primitives are rasterized. The slope scale and the clamp of the depth
/// bias are 32-bit IEEE-754 bit patterns.
#[derive(Debug, Clone, Copy, PartialEq, Eq, Structural)]
pub struct RasterizationStateDescriptor {
    pub front_face: FrontFace,
    pub cull_mode: CullMode,
    pub depth_bias: i32,
    pub depth_bias_slope_scale_bits: u32,
    pub depth_bias_clamp_bits: u32,
    pub clamp_depth: bool,
}

/// The rasterization that every render pipeline of this layer has: clockwise
/// front faces, no culling, no depth bias.
pub open spec fn fixed_rasterization() -> RasterizationStateDescriptor {
    RasterizationStateDescriptor {
        front_face: FrontFace::Cw,
        cull_mode: CullMode::Nothing,
        depth_bias: 0,
        depth_bias_slope_scale_bits: 0,
        depth_bias_clamp_bits: 0,
        clamp_depth: false,
    }
}

/// The bytes are a SPIR-V module as far as this layer looks: whole words,
/// little-endian, the first of them the magic number.
pub open spec fn spec_is_spirv(data: Seq<u8>) -> bool {
    &&& data.len() % 4 == 0
    &&& data.len() >= 4
    &&& spec_u32_from_le_bytes(data.subrange(0, 4)) == SPIRV_MAGIC_NUMBER
}

/// The words of a shader stage that was read as `data`; nothing where the
/// file could not be read or is no SPIR-V module.
pub open spec fn spec_stage(data: Option<Seq<u8>>) -> Option<Seq<u32>> {
    match data {
        Some(bytes) if spec_is_spirv(bytes) => Some(spec_unpack_words(bytes)),
        _ => None,
    }
}

/// Reads `data` as a SPIR-V module.
///
/// Fails with `ErrorOpeningShaderSPV` exactly when `data` is not made of
/// whole words or does not begin with the SPIR-V magic number.
pub fn make_spirv(data: &[u8]) -> (words: Result<Vec<u32>, APURRendererError>)
    ensures
        spec_is_spirv(data@) ==> words.is_ok() && words.unwrap()@ == spec_unpack_words(data@),
        !spec_is_spirv(data@) ==> words == Err::<Vec<u32>, APURRendererError>(
            APURRendererError::ErrorOpeningShaderSPV,
        ),
{
    if data.len() < 4 {
        return Err(APURRendererError::ErrorOpeningShaderSPV);
    }
    match unpack_words(data) {
        Ok(words) => {
            if words[0] != SPIRV_MAGIC_NUMBER {
                return Err(APURRendererError::ErrorOpeningShaderSPV);
            }
            Ok(words)
        },
        Err(_) => Err(APURRendererError::ErrorOpeningShaderSPV),
    }
}

/// The words of a shader stage whose file gave `data`, or gave nothing.
pub fn load_stage(data: Option<&[u8]>) -> (words: Result<Vec<u32>, APURRendererError>)
    ensures
        match spec_stage(
            match data {
                Some(d) => Some(d@),
                None => None,
            },
        ) {
            Some(w) => words.is_ok() && words.unwrap()@ == w,
            None => words == Err::<Vec<u32>, APURRendererError>(
                APURRendererError::ErrorOpeningShaderSPV,
            ),
        },
{
    match data {
        Some(bytes) => make_spirv(bytes),
        None => Err(APURRendererError::ErrorOpeningShaderSPV),
    }
}

/// What a render pipeline is made from, its shader stages aside.
#[derive(Debug)]
pub struct RenderShader {
    /// The compiled bind-group layouts, in the order in which the shader
    /// indexes them.
    pub layouts: Vec<u64>,
    /// Where the vertex stage is read from.
    pub vertex_module_path: String,
    /// Where the fragment stage is read from, if the shader has one.
    pub fragment_module_path: Option<String>,
    pub vertex_state: VertexStateDescriptor,
    pub color_states: Vec<ColorStateDescriptor>,
    pub depth_stencil: Option<DepthStencilStateDescriptor>,
}

/// What a compute pipeline is made from, its shader stage aside.
#[derive(Debug)]
pub struct ComputeShader {
    /// The compiled bind-group layouts, in the order in which the shader
    /// indexes them.
    pub layouts: Vec<u64>,
    /// Where the compute stage is read from.
    pub compute_module_path: String,
}

/// All that the graphics backend compiles a render pipeline from.
#[derive(Debug)]
pub struct RenderPipelineDescriptor {
    pub bind_group_layouts: Vec<u64>,
    pub vertex_module: Vec<u32>,
    pub fragment_module: Option<Vec<u32>>,
    pub rasterization_state: RasterizationStateDescriptor,
    pub primitive_topology: PrimitiveTopology,
    pub color_states: Vec<ColorStateDescriptor>,
    pub depth_stencil_state: Option<DepthStencilStateDescriptor>,
    pub vertex_state: VertexStateDescriptor,
    pub sample_count: u32,
    pub sample_mask: u32,
    pub alpha_to_coverage_enabled: bool,
}

/// All that the graphics backend compiles a compute pipeline from.
#[derive(Debug)]
pub struct ComputePipelineDescriptor {
    pub bind_group_layouts: Vec<u64>,
    pub compute_module: Vec<u32>,
}

/// A render pipeline whose parts passed the checks of this layer.
#[derive(Debug)]
pub struct RenderPipeline {
    pipeline: RenderPipelineDescriptor,
}

/// A compute pipeline whose parts passed the checks of this layer.
#[derive(Debug)]
pub struct ComputePipeline {
    pipeline: ComputePipelineDescriptor,
}

/// The fragment stage that a shader with the path `path` gets from the file
/// content `data`: a shader without a fragment stage reads no file.
pub open spec fn spec_fragment_stage(path: Option<String>, data: Option<Seq<u8>>) -> Option<
    Option<Seq<u32>>,
> {
    match path {
        None => Some(None),
        Some(_) => match spec_stage(data) {
            Some(words) => Some(Some(words)),
            None => None,
        },
    }
}

/// The words of `module`, where there is one.
pub open spec fn module_view(module: Option<Vec<u32>>) -> Option<Seq<u32>> {
    match module {
        Some(words) => Some(words@),
        None => None,
    }
}

/// The bytes of `data`, where there are some.
pub open spec fn bytes_view(data: Option<&[u8]>) -> Option<Seq<u8>> {
    match data {
        Some(bytes) => Some(bytes@),
        None => None,
    }
}

impl RenderPipeline {
    pub closed spec fn spec_descriptor(&self) -> RenderPipelineDescriptor {
        self.pipeline
    }

    /// The pipeline is made from `shader` and the stages `vertex` and
    /// `fragment`, with the rasterization that this layer fixes.
    pub open spec fn made_from(
        &self,
        shader: RenderShader,
        vertex: Seq<u32>,
        fragment: Option<Seq<u32>>,
    ) -> bool {
        let d = self.spec_descriptor();
        &&& d.bind_group_layouts == shader.layouts
        &&& d.vertex_module@ == vertex
        &&& module_view(d.fragment_module) == fragment
        &&& d.rasterization_state == fixed_rasterization()
        &&& d.primitive_topology == PrimitiveTopology::TriangleList
        &&& d.color_states == shader.color_states
        &&& d.depth_stencil_state == shader.depth_stencil
        &&& d.vertex_state == shader.vertex_state
        &&& d.sample_count == 1
        &&& d.sample_mask == u32::MAX
        &&& !d.alpha_to_coverage_enabled
    }

    /// Makes the pipeline that `shader` describes. `vertex_module` and
    /// `fragment_module` are what the files of the two stages gave, `None`
    /// for a file that could not be read.
    ///
    /// Fails with `ErrorOpeningShaderSPV` exactly when the vertex stage, or
    /// the fragment stage of a shader that has one, could not be read or is
    /// not a SPIR-V module.
    pub fn new(
        shader: RenderShader,
        vertex_module: Option<&[u8]>,
        fragment_module: Option<&[u8]>,
    ) -> (made: Result<Self, APURRendererError>)
        ensures
            match (
                spec_stage(bytes_view(vertex_module)),
                spec_fragment_stage(shader.fragment_module_path, bytes_view(fragment_module)),
            ) {
                (Some(vertex), Some(fragment)) => made.is_ok() && made.unwrap().made_from(
                    shader,
                    vertex,
                    fragment,
                ),
                _ => made.is_err() && made.unwrap_err() == APURRendererError::ErrorOpeningShaderSPV,
            },
    {
        let vertex = match load_stage(vertex_module) {
            Ok(words) => words,
            Err(e) => { return Err(e); },
        };
        let fragment: Option<Vec<u32>> = match &shader.fragment_module_path {
            Some(_) => match load_stage(fragment_module) {
                Ok(words) => Some(words),
                Err(e) => { return Err(e); },
            },
            None => None,
        };
        Ok(
            RenderPipeline {
                pipeline: RenderPipelineDescriptor {
                    bind_group_layouts: shader.layouts,
                    vertex_module: vertex,
                    fragment_module: fragment,
                    rasterization_state: RasterizationStateDescriptor {
                        front_face: FrontFace::Cw,
                        cull_mode: CullMode::Nothing,
                        depth_bias: 0,
                        depth_bias_slope_scale_bits: 0,
                        depth_bias_clamp_bits: 0,
                        clamp_depth: false,
                    },
                    primitive_topology: PrimitiveTopology::TriangleList,
                    color_states: shader.color_states,
                    depth_stencil_state: shader.depth_stencil,
                    vertex_state: shader.vertex_state,
                    sample_count: 1,
                    sample_mask: u32::MAX,
                    alpha_to_coverage_enabled: false,
                },
            },
        )
    }

    /// What the graphics backend compiles the pipeline from.
    pub fn descriptor(&self) -> (desc: &RenderPipelineDescriptor)
        ensures
            *desc == self.spec_descriptor(),
    {
        &self.pipeline
    }
}

impl ComputePipeline {
    pub closed spec fn spec_descriptor(&self) -> ComputePipelineDescriptor {
        self.pipeline
    }

    /// Makes the pipeline that `shader` describes. `compute_module` is what
    /// the file of the compute stage gave, `None` for a file that could not
    /// be read.
    ///
    /// Fails with `ErrorOpeningShaderSPV` exactly when the stage could not be
    /// read or is not a SPIR-V module.
    pub fn new(shader: ComputeShader, compute_module: Option<&[u8]>) -> (made: Result<
        Self,
        APURRendererError,
    >)
        ensures
            match spec_stage(bytes_view(compute_module)) {
                Some(words) => made.is_ok() && made.unwrap().spec_descriptor().compute_module@
                    == words && made.unwrap().spec_descriptor().bind_group_layouts
                    == shader.layouts,
                None => made.is_err() && made.unwrap_err()
                    == APURRendererError::ErrorOpeningShaderSPV,
            },
    {
        match load_stage(compute_module) {
            Ok(words) => Ok(
                ComputePipeline {
                    pipeline: ComputePipelineDescriptor {
                        bind_group_layouts: shader.layouts,
                        compute_module: words,
                    },
                },
            ),
            Err(e) => Err(e),
        }
    }

    /// What the graphics backend compiles the pipeline from.
    pub fn descriptor(&self) -> (desc: &ComputePipelineDescriptor)
        ensures
            *desc == self.spec_descriptor(),
    {
        &self.pipeline
    }
}

} // verus!
