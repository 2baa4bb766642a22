//! Material variants and the manager that classifies imported materials.
//!
//! An imported material has an albedo colour and up to two texture maps.
//! Which of the maps it has decides its variant, and with it the layout of its
//! bind group and the pipeline that draws it.

use vstd::prelude::*;
use crate::bind_group::{
    entries_from, BindGroup, BindGroupLayout, BindGroupLayoutBuilder, BindGroupLayoutEntry,
    BindingResource, BindingType, ShaderStage, STAGE_FRAGMENT, STAGE_VERTEX,
};
use crate::buffer::ManagedBuffer;
use crate::error::APURRendererError;
use crate::table::{distinct, spec_find, NameTable};
use crate::texture::{TextureComponentType, TextureView, TextureViewDimension};

verus! {

/// The four shading configurations, told apart by the texture maps that a
/// material has.
#[derive(Debug, Clone, Copy, PartialEq, Eq, Structural)]
pub enum MaterialVariant {
    FixedAlbedo,
    Specular,
    Diffuse,
    Combined,
}

/// The variant of a material by the maps that it has.
pub open spec fn spec_classify(has_specular: bool, has_diffuse: bool) -> MaterialVariant {
    if has_specular && has_diffuse {
        MaterialVariant::Combined
    } else if has_specular {
        MaterialVariant::Specular
    } else if has_diffuse {
        MaterialVariant::Diffuse
    } else {
        MaterialVariant::FixedAlbedo
    }
}

/// The variant of a material by the paths of its specular and diffuse maps;
/// an empty path means that the material has no such map.
pub fn classify(specular_path: &str, diffuse_path: &str) -> (variant: MaterialVariant)
    ensures
        variant == spec_classify(specular_path@.len() > 0, diffuse_path@.len() > 0),
{
    let has_specular = !specular_path.is_empty();
    let has_diffuse = !diffuse_path.is_empty();
    if has_specular && has_diffuse {
        MaterialVariant::Combined
    } else if has_specular {
        MaterialVariant::Specular
    } else if has_diffuse {
        MaterialVariant::Diffuse
    } else {
        MaterialVariant::FixedAlbedo
    }
}

/// A slot for a uniform buffer of fixed offset.
pub open spec fn uniform_slot(binding: u32, visibility: u32) -> BindGroupLayoutEntry {
    BindGroupLayoutEntry {
        binding,
        visibility: ShaderStage { bits: visibility },
        ty: BindingType::UniformBuffer { dynamic: false, min_binding_size: None },
    }
}

/// A slot for a two-dimensional texture that is sampled as floats.
pub open spec fn texture_slot(binding: u32, visibility: u32) -> BindGroupLayoutEntry {
    BindGroupLayoutEntry {
        binding,
        visibility: ShaderStage { bits: visibility },
        ty: BindingType::SampledTexture {
            dimension: TextureViewDimension::D2,
            component_type: TextureComponentType::Float,
            multisampled: false,
        },
    }
}

/// A slot for a sampler that does not compare.
pub open spec fn sampler_slot(binding: u32, visibility: u32) -> BindGroupLayoutEntry {
    BindGroupLayoutEntry {
        binding,
        visibility: ShaderStage { bits: visibility },
        ty: BindingType::Sampler { comparison: false },
    }
}

/// The slots of the bind group that each material of `variant` owns: the
/// albedo, then one texture per map.
pub open spec fn material_slots(variant: MaterialVariant) -> Seq<BindGroupLayoutEntry> {
    match variant {
        MaterialVariant::FixedAlbedo => seq![uniform_slot(0, STAGE_FRAGMENT)],
        MaterialVariant::Specular => seq![
            uniform_slot(0, STAGE_FRAGMENT),
            texture_slot(1, STAGE_FRAGMENT),
        ],
        MaterialVariant::Diffuse => seq![
            uniform_slot(0, STAGE_FRAGMENT),
            texture_slot(1, STAGE_FRAGMENT),
        ],
        MaterialVariant::Combined => seq![
            uniform_slot(0, STAGE_FRAGMENT),
            texture_slot(1, STAGE_FRAGMENT),
            texture_slot(2, STAGE_FRAGMENT),
        ],
    }
}

/// The slots of the bind group that all meshes of the pipeline of `variant`
/// share: the transforms, a sampler where the variant has maps, and the light.
pub open spec fn global_slots(variant: MaterialVariant) -> Seq<BindGroupLayoutEntry> {
    match variant {
        MaterialVariant::FixedAlbedo => seq![
            uniform_slot(0, STAGE_VERTEX),
            uniform_slot(1, STAGE_FRAGMENT),
        ],
        _ => seq![
            uniform_slot(0, STAGE_VERTEX),
            sampler_slot(1, STAGE_FRAGMENT),
            uniform_slot(2, STAGE_FRAGMENT),
        ],
    }
}

/// The label of the material layout of `variant`.
pub open spec fn material_layout_label(variant: MaterialVariant) -> Seq<char> {
    match variant {
        MaterialVariant::FixedAlbedo => "fa_pipe_mat_bg_layout"@,
        MaterialVariant::Specular => "sp_pipe_mat_bg_layout"@,
        MaterialVariant::Diffuse => "df_pipe_mat_bg_layout"@,
        MaterialVariant::Combined => "comb_pipe_mat_bg_layout"@,
    }
}

/// The label of the global layout of `variant`.
pub open spec fn global_layout_label(variant: MaterialVariant) -> Seq<char> {
    match variant {
        MaterialVariant::FixedAlbedo => "fa_pipe_global_bg_layout"@,
        MaterialVariant::Specular => "sp_pipe_global_bg_layout"@,
        MaterialVariant::Diffuse => "df_pipe_global_bg_layout"@,
        MaterialVariant::Combined => "comb_pipe_global_bg_layout"@,
    }
}

fn uniform_binding() -> (ty: BindingType)
    ensures
        ty == (BindingType::UniformBuffer { dynamic: false, min_binding_size: None }),
{
    BindingType::UniformBuffer { dynamic: false, min_binding_size: None }
}

fn texture_binding() -> (ty: BindingType)
    ensures
        ty == (BindingType::SampledTexture {
            dimension: TextureViewDimension::D2,
            component_type: TextureComponentType::Float,
            multisampled: false,
        }),
{
    BindingType::SampledTexture {
        dimension: TextureViewDimension::D2,
        component_type: TextureComponentType::Float,
        multisampled: false,
    }
}

/// Declares the slots of the material bind group of `variant`.
pub fn material_layout(variant: MaterialVariant) -> (builder: BindGroupLayoutBuilder)
    ensures
        builder.slots() == material_slots(variant),
        builder.tag() == Some(material_layout_label(variant)),
{
    let fragment = ShaderStage { bits: STAGE_FRAGMENT };
    let builder = BindGroupLayoutBuilder::new().with_binding(fragment, uniform_binding());
    let builder = match variant {
        MaterialVariant::FixedAlbedo => builder.with_tag("fa_pipe_mat_bg_layout"),
        MaterialVariant::Specular => builder.with_binding(fragment, texture_binding()).with_tag(
            "sp_pipe_mat_bg_layout",
        ),
        MaterialVariant::Diffuse => builder.with_binding(fragment, texture_binding()).with_tag(
            "df_pipe_mat_bg_layout",
        ),
        MaterialVariant::Combined => builder.with_binding(fragment, texture_binding()).with_binding(
            fragment,
            texture_binding(),
        ).with_tag("comb_pipe_mat_bg_layout"),
    };
    assert(builder.slots() =~= material_slots(variant));
    builder
}

/// Declares the slots of the global bind group of the pipeline of `variant`.
pub fn global_layout(variant: MaterialVariant) -> (builder: BindGroupLayoutBuilder)
    ensures
        builder.slots() == global_slots(variant),
        builder.tag() == Some(global_layout_label(variant)),
{
    let vertex = ShaderStage { bits: STAGE_VERTEX };
    let fragment = ShaderStage { bits: STAGE_FRAGMENT };
    let builder = BindGroupLayoutBuilder::new().with_binding(vertex, uniform_binding());
    let builder = match variant {
        MaterialVariant::FixedAlbedo => builder.with_binding(fragment, uniform_binding()).with_tag(
            "fa_pipe_global_bg_layout",
        ),
        MaterialVariant::Specular => builder.with_binding(
            fragment,
            BindingType::Sampler { comparison: false },
        ).with_binding(fragment, uniform_binding()).with_tag("sp_pipe_global_bg_layout"),
        MaterialVariant::Diffuse => builder.with_binding(
            fragment,
            BindingType::Sampler { comparison: false },
        ).with_binding(fragment, uniform_binding()).with_tag("df_pipe_global_bg_layout"),
        MaterialVariant::Combined => builder.with_binding(
            fragment,
            BindingType::Sampler { comparison: false },
        ).with_binding(fragment, uniform_binding()).with_tag("comb_pipe_global_bg_layout"),
    };
    assert(builder.slots() =~= global_slots(variant));
    builder
}

/// A material of one fixed colour.
#[derive(Debug)]
pub struct FAMaterial {
    albedo: ManagedBuffer,
    mat_bg: BindGroup,
}

/// A material with a specular map.
#[derive(Debug)]
pub struct SPMaterial {
    albedo: ManagedBuffer,
    specular: TextureView,
    mat_bg: BindGroup,
}

/// A material with a diffuse map.
#[derive(Debug)]
pub struct DFMaterial {
    albedo: ManagedBuffer,
    diffuse: TextureView,
    mat_bg: BindGroup,
}

/// A material with a specular and a diffuse map.
#[derive(Debug)]
pub struct CombinedMaterial {
    albedo: ManagedBuffer,
    specular: TextureView,
    diffuse: TextureView,
    mat_bg: BindGroup,
}

/// A material of one of the four variants.
#[derive(Debug)]
pub enum Material {
    FA(FAMaterial),
    SP(SPMaterial),
    DF(DFMaterial),
    COMB(CombinedMaterial),
}

/// The resources of the bind group of a material, in slot order: the albedo,
/// then the diffuse map, then the specular map, as far as the material has them.
pub open spec fn material_resources(
    albedo: ManagedBuffer,
    specular: Option<TextureView>,
    diffuse: Option<TextureView>,
) -> Seq<BindingResource> {
    let first = seq![BindingResource::whole_buffer(albedo)];
    let second = match diffuse {
        Some(view) => first.push(BindingResource::TextureView(view)),
        None => first,
    };
    match specular {
        Some(view) => second.push(BindingResource::TextureView(view)),
        None => second,
    }
}

impl FAMaterial {
    pub closed spec fn spec_albedo(&self) -> ManagedBuffer {
        self.albedo
    }

    pub closed spec fn spec_bind_group(&self) -> BindGroup {
        self.mat_bg
    }

    /// A material of the colour in `albedo`, with its bind group for `layout`.
    pub fn new(layout: &BindGroupLayout, albedo: ManagedBuffer) -> (material: Self)
        requires
            layout.slots() == material_slots(MaterialVariant::FixedAlbedo),
        ensures
            material.spec_albedo() == albedo,
            material.spec_bind_group().spec_layout() == layout.spec_handle(),
            material.spec_bind_group().bound() == entries_from(
                0,
                material_resources(albedo, None, None),
            ),
            material.spec_bind_group().fills(layout.slots()),
            material.spec_bind_group().tag() == Some("FAMaterial bind-group"@),
    {
        let builder = layout.to_bind_group_builder().with_tag("FAMaterial bind-group");
        let builder = builder.with_buffer(&albedo).unwrap();
        let mat_bg = builder.build().unwrap();
        assert(mat_bg.bound() =~= entries_from(0, material_resources(albedo, None, None)));
        FAMaterial { albedo, mat_bg }
    }
}

impl SPMaterial {
    pub closed spec fn spec_albedo(&self) -> ManagedBuffer {
        self.albedo
    }

    pub closed spec fn spec_specular(&self) -> TextureView {
        self.specular
    }

    pub closed spec fn spec_bind_group(&self) -> BindGroup {
        self.mat_bg
    }

    /// A material of the colour in `albedo` and the specular map `specular`,
    /// with its bind group for `layout`.
    pub fn new(layout: &BindGroupLayout, albedo: ManagedBuffer, specular: TextureView) -> (material:
        Self)
        requires
            layout.slots() == material_slots(MaterialVariant::Specular),
        ensures
            material.spec_albedo() == albedo,
            material.spec_specular() == specular,
            material.spec_bind_group().spec_layout() == layout.spec_handle(),
            material.spec_bind_group().bound() == entries_from(
                0,
                material_resources(albedo, Some(specular), None),
            ),
            material.spec_bind_group().fills(layout.slots()),
            material.spec_bind_group().tag() == None::<Seq<char>>,
    {
        let builder = layout.to_bind_group_builder();
        let builder = builder.with_buffer(&albedo).unwrap();
        let builder = builder.with_texture(&specular).unwrap();
        let mat_bg = builder.build().unwrap();
        assert(mat_bg.bound() =~= entries_from(
            0,
            material_resources(albedo, Some(specular), None),
        ));
        SPMaterial { albedo, specular, mat_bg }
    }
}

impl DFMaterial {
    pub closed spec fn spec_albedo(&self) -> ManagedBuffer {
        self.albedo
    }

    pub closed spec fn spec_diffuse(&self) -> TextureView {
        self.diffuse
    }

    pub closed spec fn spec_bind_group(&self) -> BindGroup {
        self.mat_bg
    }

    /// A material of the colour in `albedo` and the diffuse map `diffuse`,
    /// with its bind group for `layout`.
    pub fn new(layout: &BindGroupLayout, albedo: ManagedBuffer, diffuse: TextureView) -> (material:
        Self)
        requires
            layout.slots() == material_slots(MaterialVariant::Diffuse),
        ensures
            material.spec_albedo() == albedo,
            material.spec_diffuse() == diffuse,
            material.spec_bind_group().spec_layout() == layout.spec_handle(),
            material.spec_bind_group().bound() == entries_from(
                0,
                material_resources(albedo, None, Some(diffuse)),
            ),
            material.spec_bind_group().fills(layout.slots()),
            material.spec_bind_group().tag() == None::<Seq<char>>,
    {
        let builder = layout.to_bind_group_builder();
        let builder = builder.with_buffer(&albedo).unwrap();
        let builder = builder.with_texture(&diffuse).unwrap();
        let mat_bg = builder.build().unwrap();
        assert(mat_bg.bound() =~= entries_from(
            0,
            material_resources(albedo, None, Some(diffuse)),
        ));
        DFMaterial { albedo, diffuse, mat_bg }
    }
}

impl CombinedMaterial {
    pub closed spec fn spec_albedo(&self) -> ManagedBuffer {
        self.albedo
    }

    pub closed spec fn spec_specular(&self) -> TextureView {
        self.specular
    }

    pub closed spec fn spec_diffuse(&self) -> TextureView {
        self.diffuse
    }

    pub closed spec fn spec_bind_group(&self) -> BindGroup {
        self.mat_bg
    }

    /// A material of the colour in `albedo` with both maps, with its bind
    /// group for `layout`: the diffuse map is bound before the specular map.
    pub fn new(
        layout: &BindGroupLayout,
        albedo: ManagedBuffer,
        specular: TextureView,
        diffuse: TextureView,
    ) -> (material: Self)
        requires
            layout.slots() == material_slots(MaterialVariant::Combined),
        ensures
            material.spec_albedo() == albedo,
            material.spec_specular() == specular,
            material.spec_diffuse() == diffuse,
            material.spec_bind_group().spec_layout() == layout.spec_handle(),
            material.spec_bind_group().bound() == entries_from(
                0,
                material_resources(albedo, Some(specular), Some(diffuse)),
            ),
            material.spec_bind_group().fills(layout.slots()),
            material.spec_bind_group().tag() == None::<Seq<char>>,
    {
        let builder = layout.to_bind_group_builder();
        let builder = builder.with_buffer(&albedo).unwrap();
        let builder = builder.with_texture(&diffuse).unwrap();
        let builder = builder.with_texture(&specular).unwrap();
        let mat_bg = builder.build().unwrap();
        assert(mat_bg.bound() =~= entries_from(
            0,
            material_resources(albedo, Some(specular), Some(diffuse)),
        ));
        CombinedMaterial { albedo, specular, diffuse, mat_bg }
    }
}

impl Material {
    /// The variant of the material.
    pub open spec fn variant(&self) -> MaterialVariant {
        match self {
            Material::FA(_) => MaterialVariant::FixedAlbedo,
            Material::SP(_) => MaterialVariant::Specular,
            Material::DF(_) => MaterialVariant::Diffuse,
            Material::COMB(_) => MaterialVariant::Combined,
        }
    }

    /// The buffer that holds the colour of the material.
    pub open spec fn albedo(&self) -> ManagedBuffer {
        match self {
            Material::FA(m) => m.spec_albedo(),
            Material::SP(m) => m.spec_albedo(),
            Material::DF(m) => m.spec_albedo(),
            Material::COMB(m) => m.spec_albedo(),
        }
    }

    /// The specular map of the material, if it has one.
    pub open spec fn specular(&self) -> Option<TextureView> {
        match self {
            Material::FA(_) => None,
            Material::SP(m) => Some(m.spec_specular()),
            Material::DF(_) => None,
            Material::COMB(m) => Some(m.spec_specular()),
        }
    }

    /// The diffuse map of the material, if it has one.
    pub open spec fn diffuse(&self) -> Option<TextureView> {
        match self {
            Material::FA(_) => None,
            Material::SP(_) => None,
            Material::DF(m) => Some(m.spec_diffuse()),
            Material::COMB(m) => Some(m.spec_diffuse()),
        }
    }

    /// The bind group that the material owns.
    pub open spec fn bind_group(&self) -> BindGroup {
        match self {
            Material::FA(m) => m.spec_bind_group(),
            Material::SP(m) => m.spec_bind_group(),
            Material::DF(m) => m.spec_bind_group(),
            Material::COMB(m) => m.spec_bind_group(),
        }
    }

    /// The bind group of the material holds exactly the resources of the
    /// material, in the slots that the layout of its variant declares.
    pub open spec fn matches_layout(&self) -> bool {
        &&& self.bind_group().bound() == entries_from(
            0,
            material_resources(self.albedo(), self.specular(), self.diffuse()),
        )
        &&& self.bind_group().fills(material_slots(self.variant()))
    }

    pub fn get_variant(&self) -> (variant: MaterialVariant)
        ensures
            variant == self.variant(),
    {
        match self {
            Material::FA(_) => MaterialVariant::FixedAlbedo,
            Material::SP(_) => MaterialVariant::Specular,
            Material::DF(_) => MaterialVariant::Diffuse,
            Material::COMB(_) => MaterialVariant::Combined,
        }
    }

    pub fn get_mat_bg(&self) -> (group: &BindGroup)
        ensures
            *group == self.bind_group(),
    {
        match self {
            Material::FA(mat) => &mat.mat_bg,
            Material::SP(mat) => &mat.mat_bg,
            Material::DF(mat) => &mat.mat_bg,
            Material::COMB(mat) => &mat.mat_bg,
        }
    }

    pub fn get_albedo(&self) -> (buffer: &ManagedBuffer)
        ensures
            *buffer == self.albedo(),
    {
        match self {
            Material::FA(mat) => &mat.albedo,
            Material::SP(mat) => &mat.albedo,
            Material::DF(mat) => &mat.albedo,
            Material::COMB(mat) => &mat.albedo,
        }
    }
}

/// What an importer knows of a material: its name and the paths of its maps.
/// An empty path means that the material has no such map.
#[derive(Debug)]
pub struct SourceMaterial {
    pub name: String,
    pub specular_texture: String,
    pub diffuse_texture: String,
}

/// What looking a texture up comes to: the table afterwards and the view to
/// use, or nothing where the texture is not in the table and none was supplied.
///
/// A material without the map takes no view. A path that is in the table takes
/// the view that the table has and leaves the table as it is, whatever was
/// supplied. A new path takes the supplied view and goes to the end of the table.
pub open spec fn spec_resolve(
    keys: Seq<Seq<char>>,
    views: Seq<TextureView>,
    path: Seq<char>,
    supplied: Option<TextureView>,
) -> Option<(Seq<Seq<char>>, Seq<TextureView>, Option<TextureView>)> {
    if path.len() == 0 {
        Some((keys, views, None))
    } else {
        match spec_find(keys, path) {
            Some(i) => Some((keys, views, Some(views[i]))),
            None => match supplied {
                Some(view) => Some((keys.push(path), views.push(view), Some(view))),
                None => None,
            },
        }
    }
}

/// What resolving the specular map and then the diffuse map comes to: the
/// table afterwards and both views, or nothing where either is missing.
pub open spec fn spec_resolve_maps(
    keys: Seq<Seq<char>>,
    views: Seq<TextureView>,
    mat: SourceMaterial,
    specular: Option<TextureView>,
    diffuse: Option<TextureView>,
) -> Option<(Seq<Seq<char>>, Seq<TextureView>, Option<TextureView>, Option<TextureView>)> {
    match spec_resolve(keys, views, mat.specular_texture@, specular) {
        Some((keys1, views1, specular_view)) => match spec_resolve(
            keys1,
            views1,
            mat.diffuse_texture@,
            diffuse,
        ) {
            Some((keys2, views2, diffuse_view)) => Some(
                (keys2, views2, specular_view, diffuse_view),
            ),
            None => None,
        },
        None => None,
    }
}

/// A texture that is in the table is never loaded again: resolving its path
/// leaves the table as it is and takes the view that the table has, whatever
/// is supplied.
pub proof fn lemma_known_texture_is_reused(
    keys: Seq<Seq<char>>,
    views: Seq<TextureView>,
    path: Seq<char>,
    supplied: Option<TextureView>,
)
    requires
        path.len() > 0,
        spec_find(keys, path).is_some(),
    ensures
        spec_resolve(keys, views, path, supplied) == Some(
            (keys, views, Some(views[spec_find(keys, path).unwrap()])),
        ),
        spec_resolve(keys, views, path, supplied) == spec_resolve(keys, views, path, None),
{
}

/// A texture that was loaded once is in the table afterwards, so that a
/// second import of the same path finds it.
pub proof fn lemma_loaded_texture_is_known(
    keys: Seq<Seq<char>>,
    views: Seq<TextureView>,
    path: Seq<char>,
    view: TextureView,
    again: Option<TextureView>,
)
    requires
        path.len() > 0,
        distinct(keys),
        keys.len() == views.len(),
        spec_find(keys, path).is_none(),
    ensures
        ({
            let first = spec_resolve(keys, views, path, Some(view)).unwrap();
            &&& first == (keys.push(path), views.push(view), Some(view))
            &&& spec_resolve(first.0, first.1, path, again) == Some((first.0, first.1, Some(view)))
        }),
{
    lemma_find_push(keys, path, path);
}

/// Looking `name` up among `keys` with one more key at the end.
pub proof fn lemma_find_push(keys: Seq<Seq<char>>, last: Seq<char>, name: Seq<char>)
    requires
        distinct(keys),
        spec_find(keys, last).is_none(),
    ensures
        distinct(keys.push(last)),
        spec_find(keys.push(last), name) == if name == last {
            Some(keys.len() as int)
        } else {
            spec_find(keys, name)
        },
{
    let more = keys.push(last);
    assert forall|i: int, j: int| 0 <= i < j < more.len() implies more[i] != more[j] by {
        if j == keys.len() {
            assert(keys[i] != last);
        }
    }
    if name == last {
        assert(more[keys.len() as int] == name);
        let found = spec_find(more, name).unwrap();
        if found != keys.len() {
            assert(keys[found] == last);
        }
    } else {
        if spec_find(keys, name).is_some() {
            let i = spec_find(keys, name).unwrap();
            assert(more[i] == name);
            let found = spec_find(more, name).unwrap();
            if found != i {
                if found < i {
                    assert(more[found] != more[i]);
                } else {
                    assert(more[i] != more[found]);
                }
            }
        } else {
            if spec_find(more, name).is_some() {
                let found = spec_find(more, name).unwrap();
                assert(found < keys.len());
                assert(keys[found] == name);
            }
        }
    }
}

/// Keeps the textures and materials that were imported, each under its
/// name, and the four material layouts.
#[derive(Debug)]
pub struct MaterialManager {
    loaded_maps: NameTable<TextureView>,
    loaded_materials: NameTable<Material>,
    fa_mat_bg_lay: BindGroupLayout,
    sp_mat_bg_lay: BindGroupLayout,
    df_mat_bg_lay: BindGroupLayout,
    comb_mat_bg_lay: BindGroupLayout,
}

impl MaterialManager {
    #[verifier::type_invariant]
    spec fn well_formed(self) -> bool {
        &&& self.fa_mat_bg_lay.slots() == material_slots(MaterialVariant::FixedAlbedo)
        &&& self.sp_mat_bg_lay.slots() == material_slots(MaterialVariant::Specular)
        &&& self.df_mat_bg_lay.slots() == material_slots(MaterialVariant::Diffuse)
        &&& self.comb_mat_bg_lay.slots() == material_slots(MaterialVariant::Combined)
        &&& forall|i: int|
            0 <= i < self.loaded_materials.values().len() ==> {
                &&& (#[trigger] self.loaded_materials.values()[i]).matches_layout()
                &&& self.loaded_materials.values()[i].bind_group().spec_layout()
                    == self.layout_of(self.loaded_materials.values()[i].variant()).spec_handle()
            }
    }

    /// The paths of the textures that were loaded, in the order of loading.
    pub closed spec fn texture_names(&self) -> Seq<Seq<char>> {
        self.loaded_maps.keys()
    }

    /// The views of the textures that were loaded; `texture_views()[i]`
    /// belongs to `texture_names()[i]`.
    pub closed spec fn texture_views(&self) -> Seq<TextureView> {
        self.loaded_maps.values()
    }

    /// The names of the materials that were imported, in the order of import.
    pub closed spec fn material_names(&self) -> Seq<Seq<char>> {
        self.loaded_materials.keys()
    }

    /// The materials that were imported; `materials()[i]` belongs to
    /// `material_names()[i]`.
    pub closed spec fn materials(&self) -> Seq<Material> {
        self.loaded_materials.values()
    }

    /// The material layout of `variant`.
    pub closed spec fn layout_of(&self, variant: MaterialVariant) -> BindGroupLayout {
        match variant {
            MaterialVariant::FixedAlbedo => self.fa_mat_bg_lay,
            MaterialVariant::Specular => self.sp_mat_bg_lay,
            MaterialVariant::Diffuse => self.df_mat_bg_lay,
            MaterialVariant::Combined => self.comb_mat_bg_lay,
        }
    }

    /// The material that was imported under `name`, if there is one.
    pub open spec fn spec_material(&self, name: Seq<char>) -> Option<Material> {
        match spec_find(self.material_names(), name) {
            Some(i) => Some(self.materials()[i]),
            None => None,
        }
    }

    /// The variant of the material that was imported under `name`.
    pub open spec fn spec_variant(&self, name: Seq<char>) -> Option<MaterialVariant> {
        match self.spec_material(name) {
            Some(m) => Some(m.variant()),
            None => None,
        }
    }

    /// The view of the texture that was loaded from `path`, if there is one.
    pub open spec fn spec_texture(&self, path: Seq<char>) -> Option<TextureView> {
        match spec_find(self.texture_names(), path) {
            Some(i) => Some(self.texture_views()[i]),
            None => None,
        }
    }

    /// `material` is the material that an import of `mat` with the colour in
    /// `albedo` and the maps `specular` and `diffuse` makes for this manager.
    pub open spec fn makes(
        &self,
        material: Material,
        mat: SourceMaterial,
        albedo: ManagedBuffer,
        specular: Option<TextureView>,
        diffuse: Option<TextureView>,
    ) -> bool {
        &&& material.variant() == spec_classify(
            mat.specular_texture@.len() > 0,
            mat.diffuse_texture@.len() > 0,
        )
        &&& material.albedo() == albedo
        &&& material.specular() == specular
        &&& material.diffuse() == diffuse
        &&& material.matches_layout()
        &&& material.bind_group().spec_layout() == self.layout_of(material.variant()).spec_handle()
    }

    /// A manager without textures and materials. Each handle names the
    /// compiled material layout of one variant.
    pub fn new(fa_layout: u64, sp_layout: u64, df_layout: u64, comb_layout: u64) -> (manager: Self)
        ensures
            manager.texture_names().len() == 0,
            manager.texture_views().len() == 0,
            manager.material_names().len() == 0,
            manager.materials().len() == 0,
            manager.layout_of(MaterialVariant::FixedAlbedo).spec_handle() == fa_layout,
            manager.layout_of(MaterialVariant::Specular).spec_handle() == sp_layout,
            manager.layout_of(MaterialVariant::Diffuse).spec_handle() == df_layout,
            manager.layout_of(MaterialVariant::Combined).spec_handle() == comb_layout,
            forall|v: MaterialVariant| #[trigger] manager.layout_of(v).slots() == material_slots(v),
    {
        let manager = MaterialManager {
            loaded_maps: NameTable::new(),
            loaded_materials: NameTable::new(),
            fa_mat_bg_lay: material_layout(MaterialVariant::FixedAlbedo).build(fa_layout),
            sp_mat_bg_lay: material_layout(MaterialVariant::Specular).build(sp_layout),
            df_mat_bg_lay: material_layout(MaterialVariant::Diffuse).build(df_layout),
            comb_mat_bg_lay: material_layout(MaterialVariant::Combined).build(comb_layout),
        };
        assert forall|v: MaterialVariant| #[trigger]
            manager.layout_of(v).slots() == material_slots(v) by {}
        manager
    }

    /// Whether an import of a material with the map `path` has to supply the
    /// texture: the material has the map, and the table does not have it yet.
    pub fn needs_texture(&self, path: &str) -> (needed: bool)
        ensures
            needed == (path@.len() > 0 && self.spec_texture(path@).is_none()),
    {
        if path.is_empty() {
            return false;
        }
        self.loaded_maps.index_of(path).is_none()
    }

    /// Which of the two maps of `mat` an import has to supply: first whether
    /// the specular map, then whether the diffuse map. A map has to be
    /// supplied if the material has it and the table does not; a diffuse map
    /// of the same path as a specular map that is supplied comes with that.
    ///
    /// An import succeeds exactly if it supplies the maps that this asks for,
    /// and what it supplies for the others makes no difference.
    pub fn maps_to_supply(&self, mat: &SourceMaterial) -> (needs: (bool, bool))
        ensures
            needs.0 == (mat.specular_texture@.len() > 0 && self.spec_texture(
                mat.specular_texture@,
            ).is_none()),
            needs.1 == (mat.diffuse_texture@.len() > 0 && self.spec_texture(
                mat.diffuse_texture@,
            ).is_none() && !(needs.0 && mat.diffuse_texture@ == mat.specular_texture@)),
            forall|specular: Option<TextureView>, diffuse: Option<TextureView>|
                #![trigger spec_resolve_maps(self.texture_names(), self.texture_views(), *mat, specular, diffuse)]
                {
                    &&& spec_resolve_maps(
                        self.texture_names(),
                        self.texture_views(),
                        *mat,
                        specular,
                        diffuse,
                    ).is_some() <==> ((needs.0 ==> specular.is_some()) && (needs.1
                        ==> diffuse.is_some()))
                    &&& spec_resolve_maps(
                        self.texture_names(),
                        self.texture_views(),
                        *mat,
                        specular,
                        diffuse,
                    ) == spec_resolve_maps(
                        self.texture_names(),
                        self.texture_views(),
                        *mat,
                        if needs.0 {
                            specular
                        } else {
                            None
                        },
                        if needs.1 {
                            diffuse
                        } else {
                            None
                        },
                    )
                },
    {
        let needs_specular = self.needs_texture(mat.specular_texture.as_str());
        let same_path = mat.specular_texture == mat.diffuse_texture;
        let needs_diffuse = self.needs_texture(mat.diffuse_texture.as_str()) && !(needs_specular
            && same_path);
        let _loaded: usize = self.loaded_maps.len();
        proof {
            if needs_specular {
                lemma_find_push(
                    self.texture_names(),
                    mat.specular_texture@,
                    mat.diffuse_texture@,
                );
            }
        }
        (needs_specular, needs_diffuse)
    }

    /// Imports `mat`: resolves its maps, classifies it, builds its bind group
    /// and keeps it under its name.
    ///
    /// A map that the table has is taken from the table, and what was supplied
    /// for it is ignored; a map that the table does not have is taken from what
    /// was supplied and enters the table. Fails with `ErrorLoadingTextureImage`,
    /// and leaves the manager as it was, if a map that the table does not have
    /// was not supplied.
    pub fn add_material(
        &mut self,
        mat: &SourceMaterial,
        albedo: ManagedBuffer,
        specular: Option<TextureView>,
        diffuse: Option<TextureView>,
    ) -> (done: Result<(), APURRendererError>)
        ensures
            forall|v: MaterialVariant| #[trigger] final(self).layout_of(v) == old(self).layout_of(v),
            match spec_resolve_maps(
                old(self).texture_names(),
                old(self).texture_views(),
                *mat,
                specular,
                diffuse,
            ) {
                None => {
                    &&& done == Err::<(), APURRendererError>(
                        APURRendererError::ErrorLoadingTextureImage,
                    )
                    &&& final(self).texture_names() == old(self).texture_names()
                    &&& final(self).texture_views() == old(self).texture_views()
                    &&& final(self).material_names() == old(self).material_names()
                    &&& final(self).materials() == old(self).materials()
                },
                Some((keys, views, specular_view, diffuse_view)) => {
                    &&& done == Ok::<(), APURRendererError>(())
                    &&& final(self).texture_names() == keys
                    &&& final(self).texture_views() == views
                    &&& final(self).spec_material(mat.name@).is_some()
                    &&& final(self).makes(
                        final(self).spec_material(mat.name@).unwrap(),
                        *mat,
                        albedo,
                        specular_view,
                        diffuse_view,
                    )
                    &&& match spec_find(old(self).material_names(), mat.name@) {
                        Some(i) => final(self).material_names() == old(self).material_names()
                            && final(self).materials() == old(self).materials().update(
                            i,
                            final(self).spec_material(mat.name@).unwrap(),
                        ),
                        None => final(self).material_names() == old(self).material_names().push(
                            mat.name@,
                        ) && final(self).materials() == old(self).materials().push(
                            final(self).spec_material(mat.name@).unwrap(),
                        ),
                    }
                },
            },
    {
        proof {
            use_type_invariant(&*self);
        }
        let ghost keys0 = self.texture_names();
        let ghost views0 = self.texture_views();
        let mut maps: NameTable<TextureView> = NameTable::new();
        core::mem::swap(&mut maps, &mut self.loaded_maps);
        assert(maps.keys() == keys0 && maps.values() == views0);

        // Decide on both maps before the table changes.
        let has_specular = !mat.specular_texture.as_str().is_empty();
        let has_diffuse = !mat.diffuse_texture.as_str().is_empty();
        let specular_at: Option<usize> = if has_specular {
            maps.index_of(mat.specular_texture.as_str())
        } else {
            None
        };
        let diffuse_at: Option<usize> = if has_diffuse {
            maps.index_of(mat.diffuse_texture.as_str())
        } else {
            None
        };
        let same_path = mat.specular_texture == mat.diffuse_texture;
        let specular_new = has_specular && specular_at.is_none();
        let diffuse_new = has_diffuse && diffuse_at.is_none() && !(specular_new && same_path);
        proof {
            maps.lemma_shape();
            if specular_new && specular.is_some() {
                lemma_find_push(keys0, mat.specular_texture@, mat.diffuse_texture@);
            }
        }
        if (specular_new && specular.is_none()) || (diffuse_new && diffuse.is_none()) {
            self.loaded_maps = maps;
            return Err(APURRendererError::ErrorLoadingTextureImage);
        }
        let specular_view: Option<TextureView> = if !has_specular {
            None
        } else {
            match specular_at {
                Some(i) => Some(*maps.value_at(i)),
                None => {
                    maps.insert(mat.specular_texture.clone(), specular.unwrap());
                    specular
                },
            }
        };
        let diffuse_view: Option<TextureView> = if !has_diffuse {
            None
        } else {
            match diffuse_at {
                Some(i) => Some(*maps.value_at(i)),
                None => {
                    if specular_new && same_path {
                        specular_view
                    } else {
                        maps.insert(mat.diffuse_texture.clone(), diffuse.unwrap());
                        diffuse
                    }
                },
            }
        };
        self.loaded_maps = maps;

        let material = match (specular_view, diffuse_view) {
            (None, None) => Material::FA(FAMaterial::new(&self.fa_mat_bg_lay, albedo)),
            (Some(sp), None) => Material::SP(SPMaterial::new(&self.sp_mat_bg_lay, albedo, sp)),
            (None, Some(df)) => Material::DF(DFMaterial::new(&self.df_mat_bg_lay, albedo, df)),
            (Some(sp), Some(df)) => Material::COMB(
                CombinedMaterial::new(&self.comb_mat_bg_lay, albedo, sp, df),
            ),
        };
        let mut materials: NameTable<Material> = NameTable::new();
        core::mem::swap(&mut materials, &mut self.loaded_materials);
        proof {
            materials.lemma_shape();
        }
        materials.insert(mat.name.clone(), material);
        self.loaded_materials = materials;
        Ok(())
    }

    /// The material that was imported under `name`.
    pub fn get_material(&self, name: &str) -> (material: Option<&Material>)
        ensures
            match material {
                Some(m) => self.spec_material(name@) == Some(*m) && m.matches_layout()
                    && m.bind_group().spec_layout() == self.layout_of(m.variant()).spec_handle(),
                None => self.spec_material(name@).is_none(),
            },
    {
        proof {
            use_type_invariant(self);
            self.loaded_materials.lemma_shape();
        }
        match self.loaded_materials.index_of(name) {
            Some(i) => Some(self.loaded_materials.value_at(i)),
            None => None,
        }
    }

    /// The view of the texture that was loaded from `path`.
    pub fn get_texture(&self, path: &str) -> (view: Option<TextureView>)
        ensures
            view == self.spec_texture(path@),
    {
        proof {
            self.loaded_maps.lemma_shape();
        }
        match self.loaded_maps.index_of(path) {
            Some(i) => Some(*self.loaded_maps.value_at(i)),
            None => None,
        }
    }

    /// The position of the material `name` among the imported materials.
    pub fn material_index(&self, name: &str) -> (index: Option<usize>)
        ensures
            index == match spec_find(self.material_names(), name@) {
                Some(i) => Some(i as usize),
                None => None,
            },
            index.is_some() ==> index.unwrap() < self.materials().len(),
    {
        proof {
            self.loaded_materials.lemma_shape();
        }
        self.loaded_materials.index_of(name)
    }

    /// The number of textures that were loaded. No path is among them twice.
    pub fn texture_count(&self) -> (n: usize)
        ensures
            n == self.texture_names().len(),
            n == self.texture_views().len(),
            distinct(self.texture_names()),
    {
        self.loaded_maps.len()
    }

    pub fn fa_mat_bg_layout(&self) -> (layout: &BindGroupLayout)
        ensures
            *layout == self.layout_of(MaterialVariant::FixedAlbedo),
            layout.slots() == material_slots(MaterialVariant::FixedAlbedo),
    {
        proof {
            use_type_invariant(self);
        }
        &self.fa_mat_bg_lay
    }

    pub fn sp_mat_bg_layout(&self) -> (layout: &BindGroupLayout)
        ensures
            *layout == self.layout_of(MaterialVariant::Specular),
            layout.slots() == material_slots(MaterialVariant::Specular),
    {
        proof {
            use_type_invariant(self);
        }
        &self.sp_mat_bg_lay
    }

    pub fn df_mat_bg_layout(&self) -> (layout: &BindGroupLayout)
        ensures
            *layout == self.layout_of(MaterialVariant::Diffuse),
            layout.slots() == material_slots(MaterialVariant::Diffuse),
    {
        proof {
            use_type_invariant(self);
        }
        &self.df_mat_bg_lay
    }

    pub fn comb_mat_bg_layout(&self) -> (layout: &BindGroupLayout)
        ensures
            *layout == self.layout_of(MaterialVariant::Combined),
            layout.slots() == material_slots(MaterialVariant::Combined),
    {
        proof {
            use_type_invariant(self);
        }
        &self.comb_mat_bg_lay
    }
}

} // verus!
