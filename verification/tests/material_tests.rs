use apur::bind_group::{BindGroupEntry, BindingResource, BindingType, STAGE_FRAGMENT, STAGE_VERTEX};
use apur::buffer::{BufferUsage, ManagedBuffer, UNIFORM};
use apur::error::APURRendererError;
use apur::material::{
    classify, global_layout, material_layout, CombinedMaterial, DFMaterial, FAMaterial, Material,
    MaterialManager, MaterialVariant, SPMaterial, SourceMaterial,
};
use apur::texture::{TextureComponentType, TextureView, TextureViewDimension};

fn source(name: &str, specular: &str, diffuse: &str) -> SourceMaterial {
    SourceMaterial {
        name: name.to_string(),
        specular_texture: specular.to_string(),
        diffuse_texture: diffuse.to_string(),
    }
}

fn albedo(handle: u64) -> ManagedBuffer {
    ManagedBuffer::from_data(handle, BufferUsage::from_bits(UNIFORM), &[1.0f32, 0.5, 0.25])
}

fn albedo_entry(handle: u64) -> BindGroupEntry {
    BindGroupEntry {
        binding: 0,
        resource: BindingResource::Buffer { buffer: handle, offset: 0, size: 12 },
    }
}

fn texture_entry(binding: u32, handle: u64) -> BindGroupEntry {
    BindGroupEntry { binding, resource: BindingResource::TextureView(TextureView { handle }) }
}

#[test]
fn no_maps_is_fixed_albedo() {
    assert_eq!(classify("", ""), MaterialVariant::FixedAlbedo);
}

#[test]
fn specular_map_only_is_specular() {
    assert_eq!(classify("s.png", ""), MaterialVariant::Specular);
}

#[test]
fn diffuse_map_only_is_diffuse() {
    assert_eq!(classify("", "d.png"), MaterialVariant::Diffuse);
}

#[test]
fn both_maps_is_combined() {
    assert_eq!(classify("s.png", "d.png"), MaterialVariant::Combined);
}

#[test]
fn material_layouts_declare_albedo_then_maps() {
    let uniform = BindingType::UniformBuffer { dynamic: false, min_binding_size: None };
    let texture = BindingType::SampledTexture {
        dimension: TextureViewDimension::D2,
        component_type: TextureComponentType::Float,
        multisampled: false,
    };
    let fa = material_layout(MaterialVariant::FixedAlbedo);
    assert_eq!(fa.len(), 1);
    assert_eq!(fa.entries()[0].ty, uniform);
    assert_eq!(fa.entries()[0].visibility.bits, STAGE_FRAGMENT);
    let sp = material_layout(MaterialVariant::Specular);
    assert_eq!(sp.len(), 2);
    assert_eq!(sp.entries()[1].ty, texture);
    let df = material_layout(MaterialVariant::Diffuse);
    assert_eq!(df.entries().as_slice(), sp.entries().as_slice());
    let comb = material_layout(MaterialVariant::Combined);
    assert_eq!(comb.len(), 3);
    assert_eq!(comb.entries()[0].ty, uniform);
    assert_eq!(comb.entries()[1].ty, texture);
    assert_eq!(comb.entries()[2].ty, texture);
    assert_eq!(comb.entries()[2].binding, 2);
}

#[test]
fn global_layouts_have_a_sampler_where_there_are_maps() {
    let uniform = BindingType::UniformBuffer { dynamic: false, min_binding_size: None };
    let fa = global_layout(MaterialVariant::FixedAlbedo);
    assert_eq!(fa.len(), 2);
    assert_eq!(fa.entries()[0].visibility.bits, STAGE_VERTEX);
    assert_eq!(fa.entries()[1].visibility.bits, STAGE_FRAGMENT);
    assert_eq!(fa.entries()[1].ty, uniform);
    for variant in [MaterialVariant::Specular, MaterialVariant::Diffuse, MaterialVariant::Combined] {
        let layout = global_layout(variant);
        assert_eq!(layout.len(), 3);
        assert_eq!(layout.entries()[0].ty, uniform);
        assert_eq!(layout.entries()[1].ty, BindingType::Sampler { comparison: false });
        assert_eq!(layout.entries()[2].ty, uniform);
    }
}

#[test]
fn material_constructors_fill_their_layouts() {
    let fa_layout = material_layout(MaterialVariant::FixedAlbedo).build(1);
    let fa = Material::FA(FAMaterial::new(&fa_layout, albedo(10)));
    assert_eq!(fa.get_mat_bg().entries().as_slice(), &[albedo_entry(10)]);
    assert_eq!(fa.get_mat_bg().layout(), 1);
    assert_eq!(fa.get_mat_bg().label(), Some("FAMaterial bind-group"));

    let sp_layout = material_layout(MaterialVariant::Specular).build(2);
    let sp = Material::SP(SPMaterial::new(&sp_layout, albedo(11), TextureView { handle: 50 }));
    assert_eq!(sp.get_mat_bg().entries().as_slice(), &[albedo_entry(11), texture_entry(1, 50)]);

    let df_layout = material_layout(MaterialVariant::Diffuse).build(3);
    let df = Material::DF(DFMaterial::new(&df_layout, albedo(12), TextureView { handle: 60 }));
    assert_eq!(df.get_mat_bg().entries().as_slice(), &[albedo_entry(12), texture_entry(1, 60)]);
    assert_eq!(df.get_variant(), MaterialVariant::Diffuse);
    assert_eq!(df.get_albedo().handle(), 12);

    let comb_layout = material_layout(MaterialVariant::Combined).build(4);
    let comb = Material::COMB(CombinedMaterial::new(
        &comb_layout,
        albedo(13),
        TextureView { handle: 50 },
        TextureView { handle: 60 },
    ));
    assert_eq!(
        comb.get_mat_bg().entries().as_slice(),
        &[albedo_entry(13), texture_entry(1, 60), texture_entry(2, 50)]
    );
    assert_eq!(comb.get_mat_bg().layout(), 4);
}

#[test]
fn manager_starts_empty_with_four_layouts() {
    let manager = MaterialManager::new(1, 2, 3, 4);
    assert_eq!(manager.texture_count(), 0);
    assert!(manager.get_material("any").is_none());
    assert_eq!(manager.fa_mat_bg_layout().handle(), 1);
    assert_eq!(manager.sp_mat_bg_layout().handle(), 2);
    assert_eq!(manager.df_mat_bg_layout().handle(), 3);
    assert_eq!(manager.comb_mat_bg_layout().handle(), 4);
    assert_eq!(manager.fa_mat_bg_layout().entries().len(), 1);
    assert_eq!(manager.sp_mat_bg_layout().entries().len(), 2);
    assert_eq!(manager.df_mat_bg_layout().entries().len(), 2);
    assert_eq!(manager.comb_mat_bg_layout().entries().len(), 3);
}

#[test]
fn import_classifies_each_material() {
    let mut manager = MaterialManager::new(1, 2, 3, 4);
    manager.add_material(&source("plain", "", ""), albedo(10), None, None).unwrap();
    manager
        .add_material(&source("shiny", "s.png", ""), albedo(11), Some(TextureView { handle: 50 }), None)
        .unwrap();
    manager
        .add_material(&source("painted", "", "d.png"), albedo(12), None, Some(TextureView { handle: 60 }))
        .unwrap();
    manager
        .add_material(&source("both", "s.png", "d.png"), albedo(13), None, None)
        .unwrap();
    assert_eq!(manager.get_material("plain").unwrap().get_variant(), MaterialVariant::FixedAlbedo);
    assert_eq!(manager.get_material("shiny").unwrap().get_variant(), MaterialVariant::Specular);
    assert_eq!(manager.get_material("painted").unwrap().get_variant(), MaterialVariant::Diffuse);
    assert_eq!(manager.get_material("both").unwrap().get_variant(), MaterialVariant::Combined);
    assert_eq!(manager.texture_count(), 2);
    assert_eq!(manager.material_index("plain"), Some(0));
    assert_eq!(manager.material_index("both"), Some(3));
    assert_eq!(manager.material_index("none"), None);
    let both = manager.get_material("both").unwrap().get_mat_bg();
    assert_eq!(both.layout(), 4);
    assert_eq!(
        both.entries().as_slice(),
        &[albedo_entry(13), texture_entry(1, 60), texture_entry(2, 50)]
    );
}

#[test]
fn texture_is_loaded_once_per_path() {
    let mut manager = MaterialManager::new(1, 2, 3, 4);
    assert!(manager.needs_texture("s.png"));
    assert!(!manager.needs_texture(""));
    manager
        .add_material(&source("a", "s.png", ""), albedo(10), Some(TextureView { handle: 50 }), None)
        .unwrap();
    assert_eq!(manager.texture_count(), 1);
    assert!(!manager.needs_texture("s.png"));
    // A second import of the same path takes the view that is there, whatever is supplied.
    manager
        .add_material(&source("b", "s.png", ""), albedo(11), Some(TextureView { handle: 99 }), None)
        .unwrap();
    assert_eq!(manager.texture_count(), 1);
    assert_eq!(manager.get_texture("s.png"), Some(TextureView { handle: 50 }));
    assert_eq!(
        manager.get_material("b").unwrap().get_mat_bg().entries().as_slice(),
        &[albedo_entry(11), texture_entry(1, 50)]
    );
}

#[test]
fn same_path_for_both_maps_is_loaded_once() {
    let mut manager = MaterialManager::new(1, 2, 3, 4);
    manager
        .add_material(
            &source("a", "t.png", "t.png"),
            albedo(10),
            Some(TextureView { handle: 50 }),
            Some(TextureView { handle: 51 }),
        )
        .unwrap();
    assert_eq!(manager.texture_count(), 1);
    assert_eq!(manager.get_texture("t.png"), Some(TextureView { handle: 50 }));
    assert_eq!(
        manager.get_material("a").unwrap().get_mat_bg().entries().as_slice(),
        &[albedo_entry(10), texture_entry(1, 50), texture_entry(2, 50)]
    );
}

#[test]
fn missing_texture_fails_the_import_and_changes_nothing() {
    let mut manager = MaterialManager::new(1, 2, 3, 4);
    let failed = manager.add_material(
        &source("a", "s.png", "d.png"),
        albedo(10),
        Some(TextureView { handle: 50 }),
        None,
    );
    assert_eq!(failed, Err(APURRendererError::ErrorLoadingTextureImage));
    assert_eq!(manager.texture_count(), 0);
    assert!(manager.get_material("a").is_none());
    assert!(manager.needs_texture("s.png"));
    let failed = manager.add_material(&source("a", "s.png", ""), albedo(10), None, None);
    assert_eq!(failed, Err(APURRendererError::ErrorLoadingTextureImage));
}

#[test]
fn import_under_a_known_name_replaces_the_material() {
    let mut manager = MaterialManager::new(1, 2, 3, 4);
    manager.add_material(&source("m", "", ""), albedo(10), None, None).unwrap();
    manager.add_material(&source("n", "", ""), albedo(11), None, None).unwrap();
    manager
        .add_material(&source("m", "", "d.png"), albedo(12), None, Some(TextureView { handle: 60 }))
        .unwrap();
    assert_eq!(manager.material_index("m"), Some(0));
    assert_eq!(manager.material_index("n"), Some(1));
    assert_eq!(manager.get_material("m").unwrap().get_variant(), MaterialVariant::Diffuse);
    assert_eq!(manager.get_material("m").unwrap().get_albedo().handle(), 12);
}

#[test]
fn maps_to_supply_are_those_that_the_table_lacks() {
    let mut manager = MaterialManager::new(1, 2, 3, 4);
    assert_eq!(manager.maps_to_supply(&source("a", "", "")), (false, false));
    assert_eq!(manager.maps_to_supply(&source("a", "s.png", "")), (true, false));
    assert_eq!(manager.maps_to_supply(&source("a", "", "d.png")), (false, true));
    assert_eq!(manager.maps_to_supply(&source("a", "s.png", "d.png")), (true, true));
    // One path for both maps is supplied once.
    assert_eq!(manager.maps_to_supply(&source("a", "t.png", "t.png")), (true, false));
    manager
        .add_material(&source("a", "t.png", "t.png"), albedo(10), Some(TextureView { handle: 50 }), None)
        .unwrap();
    assert_eq!(manager.maps_to_supply(&source("b", "t.png", "t.png")), (false, false));
    assert_eq!(manager.maps_to_supply(&source("b", "t.png", "d.png")), (false, true));
    assert_eq!(manager.maps_to_supply(&source("b", "s.png", "t.png")), (true, false));
    // Supplying exactly what is asked for succeeds.
    manager
        .add_material(&source("b", "s.png", "t.png"), albedo(11), Some(TextureView { handle: 51 }), None)
        .unwrap();
    assert_eq!(manager.texture_count(), 2);
}
