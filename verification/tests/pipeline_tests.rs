use apur::error::APURRendererError;
use apur::pipeline::{
    load_stage, make_spirv, BlendDescriptor, BlendFactor, BlendOperation, ColorStateDescriptor,
    CompareFunction, ComputePipeline, ComputeShader, CullMode, DepthStencilStateDescriptor,
    FrontFace, IndexFormat, InputStepMode, PrimitiveTopology, RenderPipeline, RenderShader,
    StencilOperation, StencilStateFaceDescriptor, VertexBufferDescriptor, VertexFormat,
    VertexStateDescriptor, COLOR_WRITE_ALL, SPIRV_MAGIC_NUMBER,
};
use apur::texture::TextureFormat;

const SPIRV: [u8; 12] = [0x03, 0x02, 0x23, 0x07, 0, 0, 1, 0, 0xff, 0xee, 0xdd, 0xcc];

fn render_shader(fragment: bool) -> RenderShader {
    RenderShader {
        layouts: vec![4, 9],
        vertex_module_path: "res/shaders/solid.vert.spv".to_string(),
        fragment_module_path: if fragment {
            Some("res/shaders/solid.frag.spv".to_string())
        } else {
            None
        },
        vertex_state: VertexStateDescriptor {
            index_format: IndexFormat::Uint16,
            vertex_buffers: vec![VertexBufferDescriptor::packed(&[VertexFormat::Float3])],
        },
        color_states: vec![ColorStateDescriptor {
            format: TextureFormat::Bgra8UnormSrgb,
            alpha_blend: BlendDescriptor::replace(),
            color_blend: BlendDescriptor::replace(),
            write_mask: COLOR_WRITE_ALL,
        }],
        depth_stencil: Some(DepthStencilStateDescriptor {
            format: TextureFormat::Depth32Float,
            depth_write_enabled: true,
            depth_compare: CompareFunction::Less,
            stencil_front: StencilStateFaceDescriptor::ignore(),
            stencil_back: StencilStateFaceDescriptor::ignore(),
            stencil_read_mask: 0,
            stencil_write_mask: 0,
        }),
    }
}

#[test]
fn spirv_module_is_read_as_words() {
    assert_eq!(make_spirv(&SPIRV), Ok(vec![SPIRV_MAGIC_NUMBER, 0x0001_0000, 0xccdd_eeff]));
    assert_eq!(make_spirv(&SPIRV[..4]), Ok(vec![0x0723_0203]));
}

#[test]
fn spirv_words_are_those_of_the_backend() {
    match wgpu::util::make_spirv(&SPIRV) {
        wgpu::ShaderModuleSource::SpirV(words) => {
            assert_eq!(make_spirv(&SPIRV).unwrap(), words.to_vec());
        }
        _ => panic!("not a SPIR-V module"),
    }
}

#[test]
fn bytes_that_are_no_spirv_are_refused() {
    assert_eq!(make_spirv(&[]), Err(APURRendererError::ErrorOpeningShaderSPV));
    assert_eq!(make_spirv(&SPIRV[..3]), Err(APURRendererError::ErrorOpeningShaderSPV));
    assert_eq!(make_spirv(&SPIRV[..7]), Err(APURRendererError::ErrorOpeningShaderSPV));
    assert_eq!(make_spirv(&SPIRV[4..]), Err(APURRendererError::ErrorOpeningShaderSPV));
    assert_eq!(
        make_spirv(&[0x07, 0x23, 0x02, 0x03]),
        Err(APURRendererError::ErrorOpeningShaderSPV)
    );
}

#[test]
fn unread_stage_is_refused() {
    assert_eq!(load_stage(None), Err(APURRendererError::ErrorOpeningShaderSPV));
    assert_eq!(load_stage(Some(&SPIRV[..8])), Ok(vec![0x0723_0203, 0x0001_0000]));
}

#[test]
fn render_pipeline_takes_over_the_shader_and_fixes_rasterization() {
    let pipeline = RenderPipeline::new(render_shader(true), Some(&SPIRV), Some(&SPIRV[..4])).unwrap();
    let desc = pipeline.descriptor();
    assert_eq!(desc.bind_group_layouts, vec![4, 9]);
    assert_eq!(desc.vertex_module.len(), 3);
    assert_eq!(desc.fragment_module, Some(vec![0x0723_0203]));
    assert_eq!(desc.rasterization_state.front_face, FrontFace::Cw);
    assert_eq!(desc.rasterization_state.cull_mode, CullMode::Nothing);
    assert_eq!(desc.rasterization_state.depth_bias, 0);
    assert_eq!(desc.rasterization_state.depth_bias_slope_scale_bits, 0.0f32.to_bits());
    assert_eq!(desc.rasterization_state.depth_bias_clamp_bits, 0.0f32.to_bits());
    assert!(!desc.rasterization_state.clamp_depth);
    assert_eq!(desc.primitive_topology, PrimitiveTopology::TriangleList);
    assert_eq!(desc.color_states, render_shader(true).color_states);
    assert_eq!(desc.depth_stencil_state, render_shader(true).depth_stencil);
    assert_eq!(desc.vertex_state.index_format, IndexFormat::Uint16);
    assert_eq!(desc.vertex_state.vertex_buffers[0].stride, 12);
    assert_eq!(desc.sample_count, 1);
    assert_eq!(desc.sample_mask, !0);
    assert!(!desc.alpha_to_coverage_enabled);
}

#[test]
fn render_pipeline_without_fragment_stage_reads_no_fragment_file() {
    let pipeline = RenderPipeline::new(render_shader(false), Some(&SPIRV), None).unwrap();
    assert_eq!(pipeline.descriptor().fragment_module, None);
    let pipeline = RenderPipeline::new(render_shader(false), Some(&SPIRV), Some(&[1, 2, 3])).unwrap();
    assert_eq!(pipeline.descriptor().fragment_module, None);
}

#[test]
fn render_pipeline_fails_on_unreadable_or_malformed_stage() {
    let failed = |vertex: Option<&[u8]>, fragment: Option<&[u8]>| {
        RenderPipeline::new(render_shader(true), vertex, fragment).unwrap_err()
    };
    assert_eq!(failed(None, Some(&SPIRV)), APURRendererError::ErrorOpeningShaderSPV);
    assert_eq!(failed(Some(&SPIRV), None), APURRendererError::ErrorOpeningShaderSPV);
    assert_eq!(failed(Some(&SPIRV[..5]), Some(&SPIRV)), APURRendererError::ErrorOpeningShaderSPV);
    assert_eq!(failed(Some(&SPIRV), Some(&SPIRV[4..])), APURRendererError::ErrorOpeningShaderSPV);
    assert_eq!(
        RenderPipeline::new(render_shader(false), None, None).unwrap_err(),
        APURRendererError::ErrorOpeningShaderSPV
    );
}

#[test]
fn compute_pipeline_needs_its_stage() {
    let shader = || ComputeShader {
        layouts: vec![3],
        compute_module_path: "res/shaders/collatz/collatz.comp.spv".to_string(),
    };
    let pipeline = ComputePipeline::new(shader(), Some(&SPIRV)).unwrap();
    assert_eq!(pipeline.descriptor().bind_group_layouts, vec![3]);
    assert_eq!(pipeline.descriptor().compute_module[0], SPIRV_MAGIC_NUMBER);
    assert_eq!(pipeline.descriptor().compute_module.len(), 3);
    assert_eq!(
        ComputePipeline::new(shader(), None).unwrap_err(),
        APURRendererError::ErrorOpeningShaderSPV
    );
    assert_eq!(
        ComputePipeline::new(shader(), Some(&SPIRV[..6])).unwrap_err(),
        APURRendererError::ErrorOpeningShaderSPV
    );
}

#[test]
fn packed_layout_has_no_gaps() {
    let layout = VertexBufferDescriptor::packed(&[
        VertexFormat::Float3,
        VertexFormat::Uchar4Norm,
        VertexFormat::Half4,
        VertexFormat::Float4,
    ]);
    assert_eq!(layout.stride, 12 + 4 + 8 + 16);
    assert_eq!(layout.step_mode, InputStepMode::Vertex);
    let offsets: Vec<u64> = layout.attributes.iter().map(|a| a.offset).collect();
    assert_eq!(offsets, vec![0, 12, 16, 24]);
    let locations: Vec<u32> = layout.attributes.iter().map(|a| a.shader_location).collect();
    assert_eq!(locations, vec![0, 1, 2, 3]);
    let empty = VertexBufferDescriptor::packed(&[]);
    assert_eq!(empty.stride, 0);
    assert!(empty.attributes.is_empty());
}

#[test]
fn vertex_format_sizes_are_those_of_the_backend() {
    let pairs = [
        (VertexFormat::Uchar2, wgpu::VertexFormat::Uchar2),
        (VertexFormat::Uchar4, wgpu::VertexFormat::Uchar4),
        (VertexFormat::Char2, wgpu::VertexFormat::Char2),
        (VertexFormat::Char4, wgpu::VertexFormat::Char4),
        (VertexFormat::Uchar2Norm, wgpu::VertexFormat::Uchar2Norm),
        (VertexFormat::Uchar4Norm, wgpu::VertexFormat::Uchar4Norm),
        (VertexFormat::Char2Norm, wgpu::VertexFormat::Char2Norm),
        (VertexFormat::Char4Norm, wgpu::VertexFormat::Char4Norm),
        (VertexFormat::Ushort2, wgpu::VertexFormat::Ushort2),
        (VertexFormat::Ushort4, wgpu::VertexFormat::Ushort4),
        (VertexFormat::Short2, wgpu::VertexFormat::Short2),
        (VertexFormat::Short4, wgpu::VertexFormat::Short4),
        (VertexFormat::Ushort2Norm, wgpu::VertexFormat::Ushort2Norm),
        (VertexFormat::Ushort4Norm, wgpu::VertexFormat::Ushort4Norm),
        (VertexFormat::Short2Norm, wgpu::VertexFormat::Short2Norm),
        (VertexFormat::Short4Norm, wgpu::VertexFormat::Short4Norm),
        (VertexFormat::Half2, wgpu::VertexFormat::Half2),
        (VertexFormat::Half4, wgpu::VertexFormat::Half4),
        (VertexFormat::Float, wgpu::VertexFormat::Float),
        (VertexFormat::Float2, wgpu::VertexFormat::Float2),
        (VertexFormat::Float3, wgpu::VertexFormat::Float3),
        (VertexFormat::Float4, wgpu::VertexFormat::Float4),
        (VertexFormat::Uint, wgpu::VertexFormat::Uint),
        (VertexFormat::Uint2, wgpu::VertexFormat::Uint2),
        (VertexFormat::Uint3, wgpu::VertexFormat::Uint3),
        (VertexFormat::Uint4, wgpu::VertexFormat::Uint4),
        (VertexFormat::Int, wgpu::VertexFormat::Int),
        (VertexFormat::Int2, wgpu::VertexFormat::Int2),
        (VertexFormat::Int3, wgpu::VertexFormat::Int3),
        (VertexFormat::Int4, wgpu::VertexFormat::Int4),
    ];
    for (ours, theirs) in pairs {
        assert_eq!(ours.size(), theirs.size());
    }
}

#[test]
fn replace_blend_and_ignored_stencil_are_those_of_the_backend() {
    let replace = BlendDescriptor::replace();
    assert_eq!(replace.src_factor, BlendFactor::One);
    assert_eq!(replace.dst_factor, BlendFactor::Zero);
    assert_eq!(replace.operation, BlendOperation::Add);
    assert_eq!(wgpu::BlendDescriptor::REPLACE.src_factor, wgpu::BlendFactor::One);
    assert_eq!(wgpu::BlendDescriptor::REPLACE.dst_factor, wgpu::BlendFactor::Zero);
    assert_eq!(wgpu::BlendDescriptor::REPLACE.operation, wgpu::BlendOperation::Add);
    let ignore = StencilStateFaceDescriptor::ignore();
    assert_eq!(ignore.compare, CompareFunction::Always);
    assert_eq!(ignore.fail_op, StencilOperation::Keep);
    assert_eq!(ignore.depth_fail_op, StencilOperation::Keep);
    assert_eq!(ignore.pass_op, StencilOperation::Keep);
    let theirs = wgpu::StencilStateFaceDescriptor::default();
    assert_eq!(theirs.compare, wgpu::CompareFunction::Always);
    assert_eq!(theirs.fail_op, wgpu::StencilOperation::Keep);
    assert_eq!(theirs.depth_fail_op, wgpu::StencilOperation::Keep);
    assert_eq!(theirs.pass_op, wgpu::StencilOperation::Keep);
    assert_eq!(COLOR_WRITE_ALL, wgpu::ColorWrite::ALL.bits());
}
