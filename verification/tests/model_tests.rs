use apur::buffer::{BufferUsage, ManagedBuffer, INDEX, UNIFORM, VERTEX};
use apur::material::{MaterialManager, SourceMaterial};
use apur::model::{
    expand_positions, indices_in_range, interleave, Mesh, ModelImporter, Scene, SourceModel,
};
use apur::renderable::FixedMapped;
use apur::shader::SolidShader;
use apur::texture::TextureView;

fn model(vertices: usize, texcoords: bool, material_id: Option<usize>) -> SourceModel<f32> {
    SourceModel {
        positions: (0..3 * vertices).map(|i| i as f32).collect(),
        normals: (0..3 * vertices).map(|i| 100.0 + i as f32).collect(),
        texcoords: if texcoords {
            (0..2 * vertices).map(|i| 200.0 + i as f32).collect()
        } else {
            vec![]
        },
        indices: (0..vertices as u32).collect(),
        material_id,
    }
}

fn manager() -> MaterialManager {
    let mut manager = MaterialManager::new(1, 2, 3, 4);
    let albedo = |h: u64| ManagedBuffer::from_data(h, BufferUsage::from_bits(UNIFORM), &[0.0f32; 3]);
    manager
        .add_material(
            &SourceMaterial {
                name: "plain".to_string(),
                specular_texture: String::new(),
                diffuse_texture: String::new(),
            },
            albedo(1),
            None,
            None,
        )
        .unwrap();
    manager
        .add_material(
            &SourceMaterial {
                name: "painted".to_string(),
                specular_texture: String::new(),
                diffuse_texture: "d.png".to_string(),
            },
            albedo(2),
            None,
            Some(TextureView { handle: 9 }),
        )
        .unwrap();
    manager
}

#[test]
fn mesh_keeps_what_it_was_made_of() {
    let mesh = Mesh::new(
        ManagedBuffer::from_data(1, BufferUsage::from_bits(VERTEX), &[0.0f32; 6]),
        ManagedBuffer::from_data(2, BufferUsage::from_bits(INDEX), &[0u32, 1, 2]),
        3,
        "stone".to_string(),
    );
    assert_eq!(mesh.get_mat_name(), "stone");
    assert_eq!(mesh.get_indices_count(), 3);
    assert_eq!(mesh.get_vertex_buffer().handle(), 1);
    assert_eq!(mesh.get_vertex_buffer().size_bytes(), 24);
    assert_eq!(mesh.get_indices_buffer().handle(), 2);
    assert_eq!(mesh.get_indices_buffer().size_bytes(), 12);
}

#[test]
fn interleave_positions_and_normals() {
    let vertices = interleave(&[1.0f32, 2.0, 3.0, 4.0, 5.0, 6.0], &[], &[7.0, 8.0, 9.0, 10.0, 11.0, 12.0], false);
    assert_eq!(vertices, vec![1.0, 2.0, 3.0, 7.0, 8.0, 9.0, 4.0, 5.0, 6.0, 10.0, 11.0, 12.0]);
}

#[test]
fn interleave_with_texture_coordinates() {
    let vertices = interleave(
        &[1u32, 2, 3, 4, 5, 6],
        &[21, 22, 23, 24],
        &[11, 12, 13, 14, 15, 16],
        true,
    );
    assert_eq!(vertices, vec![1, 2, 3, 21, 22, 11, 12, 13, 4, 5, 6, 23, 24, 14, 15, 16]);
}

#[test]
fn interleave_ignores_texture_coordinates_that_are_not_asked_for() {
    let vertices = interleave(&[1u8, 2, 3], &[9, 9, 9, 9, 9, 9], &[4, 5, 6], false);
    assert_eq!(vertices, vec![1, 2, 3, 4, 5, 6]);
}

#[test]
fn interleave_of_nothing_is_nothing() {
    assert_eq!(interleave::<f32>(&[], &[], &[], true), Vec::<f32>::new());
    assert_eq!(interleave::<f32>(&[], &[], &[], false), Vec::<f32>::new());
}

#[test]
fn interleave_keeps_a_ragged_last_vertex() {
    // Seven positions and eight normals make three chunks each.
    let vertices = interleave(&[1u8, 2, 3, 4, 5, 6, 7], &[], &[11, 12, 13, 14, 15, 16, 17, 18], false);
    assert_eq!(vertices, vec![1, 2, 3, 11, 12, 13, 4, 5, 6, 14, 15, 16, 7, 17, 18]);
    // Six positions make two chunks; the third chunk of the normals is dropped.
    let vertices = interleave(&[1u8, 2, 3, 4, 5, 6], &[], &[11, 12, 13, 14, 15, 16, 17], false);
    assert_eq!(vertices, vec![1, 2, 3, 11, 12, 13, 4, 5, 6, 14, 15, 16]);
}

#[test]
fn indices_are_checked_against_the_vertex_array() {
    assert!(indices_in_range(3, &[0, 1, 2, 2, 0]));
    assert!(!indices_in_range(3, &[0, 3]));
    assert!(indices_in_range(0, &[]));
    assert!(!indices_in_range(0, &[0]));
}

#[test]
fn expand_positions_writes_one_vertex_per_index() {
    let positions = [0.0f32, 0.1, 0.2, 1.0, 1.1, 1.2, 2.0, 2.1, 2.2];
    assert_eq!(
        expand_positions(&positions, &[2, 0, 2]),
        vec![2.0, 2.1, 2.2, 0.0, 0.1, 0.2, 2.0, 2.1, 2.2]
    );
    assert_eq!(expand_positions(&positions, &[]), Vec::<f32>::new());
}

#[test]
fn expand_positions_skips_what_is_not_there() {
    let positions = [0u8, 1, 2, 10, 11];
    assert_eq!(expand_positions(&positions, &[1, 5, 0, u32::MAX]), vec![10, 11, 0, 1, 2]);
}

#[test]
fn scene_turns_models_into_mesh_data() {
    let manager = manager();
    let names = vec!["plain".to_string(), "painted".to_string()];
    let models = vec![model(2, true, Some(0)), model(1, false, None), model(2, true, Some(1))];
    for m in &models {
        assert!(Scene::can_load(m, &names, &manager));
    }
    let meshes = Scene::default().load_from_obj(&models, &names, &manager);
    assert_eq!(meshes.len(), 2);
    assert_eq!(meshes[0].model, 0);
    assert_eq!(meshes[0].mat_name, "plain");
    assert_eq!(meshes[0].indices_count, 2);
    assert_eq!(
        meshes[0].vertices,
        vec![0.0, 1.0, 2.0, 100.0, 101.0, 102.0, 3.0, 4.0, 5.0, 103.0, 104.0, 105.0]
    );
    assert_eq!(meshes[1].model, 2);
    assert_eq!(meshes[1].mat_name, "painted");
    assert_eq!(
        meshes[1].vertices,
        vec![
            0.0, 1.0, 2.0, 200.0, 201.0, 100.0, 101.0, 102.0, 3.0, 4.0, 5.0, 202.0, 203.0, 103.0,
            104.0, 105.0
        ]
    );
}

#[test]
fn scene_tells_models_that_cannot_be_loaded() {
    let manager = manager();
    let names = vec!["plain".to_string(), "painted".to_string(), "unknown".to_string()];
    assert!(!Scene::can_load(&model(2, false, Some(1)), &names, &manager));
    assert!(Scene::can_load(&model(2, false, Some(0)), &names, &manager));
    assert!(!Scene::can_load(&model(2, true, Some(2)), &names, &manager));
    assert!(!Scene::can_load(&model(2, true, Some(3)), &names, &manager));
    let mut uneven = model(2, true, Some(0));
    uneven.normals.truncate(3);
    assert!(!Scene::can_load(&uneven, &names, &manager));
    assert!(Scene::load_model(&model(2, true, None), 0, &names, &manager).is_none());
}

#[test]
fn importer_interleaves_positions_and_normals_of_each_model() {
    let models = vec![model(1, false, None), model(2, true, None)];
    let meshes = ModelImporter::load_meshes_obj(&models);
    assert_eq!(meshes.len(), 2);
    assert_eq!(meshes[0], vec![0.0, 1.0, 2.0, 100.0, 101.0, 102.0]);
    assert_eq!(meshes[1].len(), 12);
    assert_eq!(ModelImporter::interleave_model(&models[0]), Some(meshes[0].clone()));
}

#[test]
fn importer_refuses_bad_models() {
    let mut uneven = model(2, false, None);
    uneven.normals.truncate(2);
    assert_eq!(ModelImporter::interleave_model(&uneven), None);
    let mut out_of_range = model(1, false, None);
    out_of_range.indices = vec![0, 6];
    assert_eq!(ModelImporter::interleave_model(&out_of_range), None);
    out_of_range.indices = vec![0, 5];
    assert!(ModelImporter::interleave_model(&out_of_range).is_some());
}

#[test]
fn fixed_or_mapped_property() {
    let fixed: FixedMapped<u8> = FixedMapped::Fixed(7);
    assert_eq!(fixed.fixed(), Some(&7));
    assert_eq!(fixed.texture_name(), None);
    let mapped: FixedMapped<u8> = FixedMapped::Mapped("rough.png".to_string());
    assert_eq!(mapped.fixed(), None);
    assert_eq!(mapped.texture_name(), Some("rough.png"));
}

#[test]
fn solid_shader_layouts() {
    assert_eq!(SolidShader::global_layout().len(), 2);
    assert_eq!(SolidShader::element_layout().len(), 1);
    let state = SolidShader::vertex_state();
    assert_eq!(state.vertex_buffers[0].stride, 24);
    assert_eq!(state.vertex_buffers[0].attributes[1].offset, 12);
}

#[test]
fn component_mesh_has_buffers_for_what_the_model_has() {
    let handles = apur::mesh::MeshHandles { positions: 1, normals: 2, texcoords: 3, indices: 4 };
    let mesh = apur::mesh::Mesh::load(handles, &model(2, false, None));
    assert_eq!(mesh.positions_buffer().handle(), 1);
    assert_eq!(mesh.positions_buffer().size_bytes(), 24);
    assert_eq!(mesh.positions_buffer().usage(), BufferUsage::from_bits(VERTEX));
    assert_eq!(mesh.indices_buffer().handle(), 4);
    assert_eq!(mesh.indices_buffer().size_bytes(), 8);
    assert_eq!(mesh.indices_buffer().usage(), BufferUsage::from_bits(INDEX));
    assert_eq!(mesh.normals_buffer().unwrap().handle(), 2);
    assert_eq!(mesh.normals_buffer().unwrap().size_bytes(), 24);
    assert!(mesh.texcoords_buffer().is_none());
    let with_texcoords = apur::mesh::Mesh::load(handles, &model(2, true, None));
    assert_eq!(with_texcoords.texcoords_buffer().unwrap().size_bytes(), 16);
    assert_eq!(with_texcoords.texcoords_buffer().unwrap().handle(), 3);
    let mut bare = model(1, false, None);
    bare.normals.clear();
    assert!(apur::mesh::Mesh::load(handles, &bare).normals_buffer().is_none());
}
