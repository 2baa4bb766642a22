use apur::bind_group::{BindGroupEntry, BindingResource};
use apur::buffer::{BufferUsage, BufferWrite, ManagedBuffer, COPY_DST, INDEX, UNIFORM, VERTEX};
use apur::error::APURRendererError;
use apur::material::{MaterialManager, MaterialVariant, SourceMaterial};
use apur::model::Mesh;
use apur::pipeline::{CullMode, FrontFace, IndexFormat, PrimitiveTopology, VertexFormat};
use apur::renderer::{
    variant_shader, vertex_state, BindGroupRef, DrawCommand, Pipeline, Renderer, ShaderSource,
};
use apur::texture::{Sampler, TextureFormat, TextureView, TEXTURE_OUTPUT_ATTACHMENT};

const SPIRV: [u8; 8] = [0x03, 0x02, 0x23, 0x07, 1, 0, 0, 0];

fn source(name: &str, specular: &str, diffuse: &str) -> SourceMaterial {
    SourceMaterial {
        name: name.to_string(),
        specular_texture: specular.to_string(),
        diffuse_texture: diffuse.to_string(),
    }
}

fn manager() -> MaterialManager {
    let mut manager = MaterialManager::new(21, 22, 23, 24);
    let albedo = |h: u64| ManagedBuffer::from_data(h, BufferUsage::from_bits(UNIFORM), &[0.0f32; 3]);
    manager.add_material(&source("fa", "", ""), albedo(1), None, None).unwrap();
    manager
        .add_material(
            &source("comb", "s.png", "d.png"),
            albedo(2),
            Some(TextureView { handle: 50 }),
            Some(TextureView { handle: 60 }),
        )
        .unwrap();
    manager.add_material(&source("sp", "s.png", ""), albedo(3), None, None).unwrap();
    manager.add_material(&source("df", "", "d.png"), albedo(4), None, None).unwrap();
    manager
}

fn renderer(manager: &MaterialManager, transforms_usage: u32) -> Renderer {
    let transforms =
        ManagedBuffer::from_data(100, BufferUsage::from_bits(transforms_usage), &[0.0f32; 32]);
    let lights = ManagedBuffer::from_data(101, BufferUsage::from_bits(UNIFORM), &[0.0f32; 3]);
    let source = ShaderSource { vertex: Some(&SPIRV), fragment: Some(&SPIRV) };
    Renderer::new(
        800,
        600,
        TextureView { handle: 7 },
        transforms,
        lights,
        Sampler { handle: 8 },
        manager,
        [31, 32, 33, 34],
        [source; 4],
    )
    .unwrap()
}

fn mesh(id: u64, indices: u32, material: &str) -> Mesh {
    Mesh::new(
        ManagedBuffer::from_data(id, BufferUsage::from_bits(VERTEX), &[0.0f32; 24]),
        ManagedBuffer::from_data(id + 1, BufferUsage::from_bits(INDEX), &vec![0u32; indices as usize]),
        indices,
        material.to_string(),
    )
}

fn mesh_commands(id: u64, indices: u32, material: usize) -> Vec<DrawCommand> {
    vec![
        DrawCommand::SetVertexBuffer { slot: 0, buffer: id, offset: 0, size: 96 },
        DrawCommand::SetIndexBuffer { buffer: id + 1, offset: 0, size: 4 * indices as u64 },
        DrawCommand::SetBindGroup { index: 1, group: BindGroupRef::Material(material) },
        DrawCommand::DrawIndexed { index_count: indices },
    ]
}

#[test]
fn vertex_states_are_tightly_packed() {
    let fa = vertex_state(MaterialVariant::FixedAlbedo);
    assert_eq!(fa.index_format, IndexFormat::Uint32);
    assert_eq!(fa.vertex_buffers.len(), 1);
    assert_eq!(fa.vertex_buffers[0].stride, 24);
    let attrs = &fa.vertex_buffers[0].attributes;
    assert_eq!(attrs.len(), 2);
    assert_eq!((attrs[0].offset, attrs[0].format, attrs[0].shader_location), (0, VertexFormat::Float3, 0));
    assert_eq!((attrs[1].offset, attrs[1].format, attrs[1].shader_location), (12, VertexFormat::Float3, 1));
    for variant in [MaterialVariant::Specular, MaterialVariant::Diffuse, MaterialVariant::Combined] {
        let state = vertex_state(variant);
        assert_eq!(state.vertex_buffers[0].stride, 32);
        let attrs = &state.vertex_buffers[0].attributes;
        assert_eq!(attrs.len(), 3);
        assert_eq!((attrs[0].offset, attrs[0].format), (0, VertexFormat::Float3));
        assert_eq!((attrs[1].offset, attrs[1].format), (12, VertexFormat::Float2));
        assert_eq!((attrs[2].offset, attrs[2].format, attrs[2].shader_location), (20, VertexFormat::Float3, 2));
    }
}

#[test]
fn variant_shader_names_layouts_and_stage_files() {
    let shader = variant_shader(MaterialVariant::Combined, 5, 6);
    assert_eq!(shader.layouts, vec![5, 6]);
    assert_eq!(shader.vertex_module_path, "res/shaders/combined.vert.spv");
    assert_eq!(shader.fragment_module_path.as_deref(), Some("res/shaders/combined.frag.spv"));
    assert_eq!(shader.color_states.len(), 1);
    assert_eq!(shader.color_states[0].format, TextureFormat::Bgra8UnormSrgb);
    assert_eq!(shader.depth_stencil.unwrap().format, TextureFormat::Depth32Float);
    let fa = variant_shader(MaterialVariant::FixedAlbedo, 1, 2);
    assert_eq!(fa.vertex_module_path, "res/shaders/fixed_albedo.vert.spv");
    assert_eq!(fa.fragment_module_path.as_deref(), Some("res/shaders/fixed_albedo.frag.spv"));
}

#[test]
fn pipeline_is_made_with_fixed_rasterization_and_global_group() {
    let transforms = ManagedBuffer::from_data(100, BufferUsage::from_bits(UNIFORM), &[0.0f32; 32]);
    let lights = ManagedBuffer::from_data(101, BufferUsage::from_bits(UNIFORM), &[0.0f32; 3]);
    let sampler = Sampler { handle: 8 };
    let pipe = Pipeline::new(
        MaterialVariant::Specular,
        Some(&SPIRV),
        Some(&SPIRV),
        32,
        22,
        &transforms,
        &sampler,
        &lights,
    )
    .unwrap();
    assert_eq!(pipe.variant(), MaterialVariant::Specular);
    assert_eq!(pipe.mesh_count(), 0);
    let desc = pipe.pipeline().descriptor();
    assert_eq!(desc.bind_group_layouts, vec![32, 22]);
    assert_eq!(desc.vertex_module, vec![0x0723_0203, 1]);
    assert_eq!(desc.fragment_module, Some(vec![0x0723_0203, 1]));
    assert_eq!(desc.rasterization_state.front_face, FrontFace::Cw);
    assert_eq!(desc.rasterization_state.cull_mode, CullMode::Nothing);
    assert_eq!(desc.rasterization_state.depth_bias, 0);
    assert_eq!(desc.primitive_topology, PrimitiveTopology::TriangleList);
    assert_eq!(desc.sample_count, 1);
    assert_eq!(desc.sample_mask, u32::MAX);
    assert!(!desc.alpha_to_coverage_enabled);
    assert_eq!(pipe.global_bg().layout(), 32);
    assert_eq!(
        pipe.global_bg().entries().as_slice(),
        &[
            BindGroupEntry {
                binding: 0,
                resource: BindingResource::Buffer { buffer: 100, offset: 0, size: 128 },
            },
            BindGroupEntry { binding: 1, resource: BindingResource::Sampler(sampler) },
            BindGroupEntry {
                binding: 2,
                resource: BindingResource::Buffer { buffer: 101, offset: 0, size: 12 },
            },
        ]
    );
}

#[test]
fn fixed_albedo_pipeline_has_no_sampler_in_its_global_group() {
    let transforms = ManagedBuffer::from_data(100, BufferUsage::from_bits(UNIFORM), &[0.0f32; 32]);
    let lights = ManagedBuffer::from_data(101, BufferUsage::from_bits(UNIFORM), &[0.0f32; 3]);
    let pipe = Pipeline::new(
        MaterialVariant::FixedAlbedo,
        Some(&SPIRV),
        Some(&SPIRV),
        31,
        21,
        &transforms,
        &Sampler { handle: 8 },
        &lights,
    )
    .unwrap();
    assert_eq!(pipe.global_bg().entries().len(), 2);
    assert_eq!(
        pipe.global_bg().entries()[1],
        BindGroupEntry {
            binding: 1,
            resource: BindingResource::Buffer { buffer: 101, offset: 0, size: 12 },
        }
    );
}

#[test]
fn pipeline_with_bad_stage_fails() {
    let transforms = ManagedBuffer::from_data(100, BufferUsage::from_bits(UNIFORM), &[0.0f32; 32]);
    let lights = ManagedBuffer::from_data(101, BufferUsage::from_bits(UNIFORM), &[0.0f32; 3]);
    let sampler = Sampler { handle: 8 };
    let bad: [u8; 4] = [1, 2, 3, 4];
    for (vertex, fragment) in [
        (None, Some(&SPIRV[..])),
        (Some(&SPIRV[..]), None),
        (Some(&bad[..]), Some(&SPIRV[..])),
        (Some(&SPIRV[..]), Some(&bad[..])),
    ] {
        let made = Pipeline::new(
            MaterialVariant::Diffuse,
            vertex,
            fragment,
            33,
            23,
            &transforms,
            &sampler,
            &lights,
        );
        assert_eq!(made.unwrap_err(), APURRendererError::ErrorOpeningShaderSPV);
    }
}

#[test]
fn renderer_new_describes_depth_target_and_pipelines() {
    let manager = manager();
    let renderer = renderer(&manager, UNIFORM | COPY_DST);
    let depth = renderer.depth_texture();
    assert_eq!(depth.label, "Depth-Stencil texture");
    assert_eq!((depth.width, depth.height, depth.depth), (800, 600, 1));
    assert_eq!(depth.format, TextureFormat::Depth32Float);
    assert_eq!(depth.usage, TEXTURE_OUTPUT_ATTACHMENT);
    assert_eq!(renderer.transforms().handle(), 100);
    assert_eq!(renderer.lights().handle(), 101);
    let expected = [
        (MaterialVariant::FixedAlbedo, 31, 21, 2),
        (MaterialVariant::Specular, 32, 22, 3),
        (MaterialVariant::Diffuse, 33, 23, 3),
        (MaterialVariant::Combined, 34, 24, 3),
    ];
    for (variant, global, material, slots) in expected {
        let pipe = renderer.pipeline(variant);
        assert_eq!(pipe.variant(), variant);
        assert_eq!(pipe.mesh_count(), 0);
        assert_eq!(pipe.pipeline().descriptor().bind_group_layouts, vec![global, material]);
        assert_eq!(pipe.global_bg().layout(), global);
        assert_eq!(pipe.global_bg().entries().len(), slots);
    }
}

#[test]
fn renderer_new_fails_on_a_bad_shader() {
    let manager = manager();
    let good = ShaderSource { vertex: Some(&SPIRV), fragment: Some(&SPIRV) };
    let bad = ShaderSource { vertex: Some(&SPIRV), fragment: Some(&SPIRV[..7]) };
    let made = Renderer::new(
        800,
        600,
        TextureView { handle: 7 },
        ManagedBuffer::from_data(100, BufferUsage::from_bits(UNIFORM), &[0.0f32; 32]),
        ManagedBuffer::from_data(101, BufferUsage::from_bits(UNIFORM), &[0.0f32; 3]),
        Sampler { handle: 8 },
        &manager,
        [31, 32, 33, 34],
        [good, good, bad, good],
    );
    assert_eq!(made.unwrap_err(), APURRendererError::ErrorOpeningShaderSPV);
}

#[test]
fn frame_binds_one_pipeline_per_occupied_bucket() {
    let manager = manager();
    let mut renderer = renderer(&manager, UNIFORM | COPY_DST);
    let meshes = vec![mesh(200, 3, "fa"), mesh(300, 6, "comb"), mesh(400, 9, "fa")];
    renderer.add_meshes(meshes, &manager);
    assert_eq!(renderer.pipeline(MaterialVariant::FixedAlbedo).mesh_count(), 2);
    assert_eq!(renderer.pipeline(MaterialVariant::Specular).mesh_count(), 0);
    assert_eq!(renderer.pipeline(MaterialVariant::Diffuse).mesh_count(), 0);
    assert_eq!(renderer.pipeline(MaterialVariant::Combined).mesh_count(), 1);
    assert!(renderer.materials_loaded(&manager));

    let frame = renderer.render(&manager);
    assert_eq!(frame.transform_update, None);
    let binds = frame
        .commands
        .iter()
        .filter(|c| matches!(c, DrawCommand::SetPipeline(_)))
        .count();
    assert_eq!(binds, 2);

    let mut expected = vec![
        DrawCommand::SetPipeline(MaterialVariant::FixedAlbedo),
        DrawCommand::SetBindGroup {
            index: 0,
            group: BindGroupRef::Global(MaterialVariant::FixedAlbedo),
        },
    ];
    expected.extend(mesh_commands(200, 3, 0));
    expected.extend(mesh_commands(400, 9, 0));
    expected.push(DrawCommand::SetPipeline(MaterialVariant::Combined));
    expected.push(DrawCommand::SetBindGroup {
        index: 0,
        group: BindGroupRef::Global(MaterialVariant::Combined),
    });
    expected.extend(mesh_commands(300, 6, 1));
    assert_eq!(frame.commands, expected);
}

#[test]
fn buckets_are_drawn_in_fixed_order_whatever_the_order_of_adding() {
    let manager = manager();
    let mut renderer = renderer(&manager, UNIFORM | COPY_DST);
    renderer.add_meshes(vec![mesh(300, 6, "comb"), mesh(500, 3, "df")], &manager);
    renderer.add_meshes(vec![mesh(600, 3, "sp"), mesh(200, 3, "fa")], &manager);
    let frame = renderer.render(&manager);
    let pipelines: Vec<MaterialVariant> = frame
        .commands
        .iter()
        .filter_map(|c| match c {
            DrawCommand::SetPipeline(v) => Some(*v),
            _ => None,
        })
        .collect();
    assert_eq!(
        pipelines,
        vec![
            MaterialVariant::FixedAlbedo,
            MaterialVariant::Specular,
            MaterialVariant::Diffuse,
            MaterialVariant::Combined,
        ]
    );
    assert_eq!(frame.commands.len(), 4 * 6);
}

#[test]
fn empty_renderer_draws_nothing() {
    let manager = manager();
    let mut renderer = renderer(&manager, UNIFORM | COPY_DST);
    let frame = renderer.render(&manager);
    assert!(frame.commands.is_empty());
    assert_eq!(frame.transform_update, None);
}

#[test]
fn camera_move_updates_transforms_once() {
    let manager = manager();
    let mut renderer = renderer(&manager, UNIFORM | COPY_DST);
    renderer.rotate_camera();
    let frame = renderer.render(&manager);
    assert_eq!(
        frame.transform_update,
        Some(Ok(BufferWrite { buffer: 100, offset: 0, size: 64 }))
    );
    assert_eq!(renderer.render(&manager).transform_update, None);
    renderer.move_camera();
    assert!(renderer.render(&manager).transform_update.is_some());
}

#[test]
fn refused_transform_update_is_reported_and_the_frame_still_drawn() {
    let manager = manager();
    let mut renderer = renderer(&manager, UNIFORM);
    renderer.add_meshes(vec![mesh(200, 3, "fa")], &manager);
    renderer.move_camera();
    let frame = renderer.render(&manager);
    assert_eq!(frame.transform_update, Some(Err(APURRendererError::BufferUsageNotCopyDst)));
    assert_eq!(frame.commands.len(), 6);
}

#[test]
fn materials_loaded_tells_an_unknown_material() {
    let manager = manager();
    let mut renderer = renderer(&manager, UNIFORM);
    renderer.add_meshes(vec![mesh(200, 3, "fa")], &manager);
    let other = MaterialManager::new(1, 2, 3, 4);
    assert!(renderer.materials_loaded(&manager));
    assert!(!renderer.materials_loaded(&other));
}

#[test]
fn pipeline_bucket_keeps_insertion_order() {
    let manager = manager();
    let transforms = ManagedBuffer::from_data(100, BufferUsage::from_bits(UNIFORM), &[0.0f32; 32]);
    let lights = ManagedBuffer::from_data(101, BufferUsage::from_bits(UNIFORM), &[0.0f32; 3]);
    let mut pipe = Pipeline::new(
        MaterialVariant::Specular,
        Some(&SPIRV),
        Some(&SPIRV),
        32,
        22,
        &transforms,
        &Sampler { handle: 8 },
        &lights,
    )
    .unwrap();
    let mut commands = vec![DrawCommand::DrawIndexed { index_count: 1 }];
    pipe.draw_meshes(&mut commands, &manager);
    assert_eq!(commands.len(), 1);
    pipe.add_mesh(mesh(600, 3, "sp"));
    pipe.add_mesh(mesh(700, 12, "sp"));
    assert!(pipe.materials_loaded(&manager));
    pipe.draw_meshes(&mut commands, &manager);
    let mut expected = vec![
        DrawCommand::DrawIndexed { index_count: 1 },
        DrawCommand::SetPipeline(MaterialVariant::Specular),
        DrawCommand::SetBindGroup { index: 0, group: BindGroupRef::Global(MaterialVariant::Specular) },
    ];
    expected.extend(mesh_commands(600, 3, 2));
    expected.extend(mesh_commands(700, 12, 2));
    assert_eq!(commands, expected);
}

#[test]
fn meshes_known_tells_an_unknown_material() {
    let manager = manager();
    assert!(apur::renderer::meshes_known(&vec![mesh(1, 3, "fa"), mesh(3, 3, "df")], &manager));
    assert!(!apur::renderer::meshes_known(&vec![mesh(1, 3, "fa"), mesh(3, 3, "none")], &manager));
    assert!(apur::renderer::meshes_known(&vec![], &manager));
}
