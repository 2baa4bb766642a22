//! Batched draw submission.
//!
//! The renderer owns one pipeline per material variant. Every mesh goes into
//! the bucket of the pipeline that matches its material, and a frame is drawn
//! bucket by bucket: a pipeline is bound once, then its meshes are drawn in
//! the order in which they were added.

use vstd::prelude::*;
use crate::bind_group::{entries_from, BindGroup, BindingResource};
use crate::buffer::{BufferWrite, ManagedBuffer};
use crate::error::APURRendererError;
use crate::material::{global_layout, global_slots, MaterialManager, MaterialVariant};
use crate::model::Mesh;
use crate::pipeline::{
    BlendDescriptor, ColorStateDescriptor, CompareFunction, DepthStencilStateDescriptor,
    IndexFormat, PrimitiveTopology, RenderPipeline, RenderShader, StencilStateFaceDescriptor,
    VertexBufferDescriptor, VertexFormat, VertexStateDescriptor, COLOR_WRITE_ALL, bytes_view,
    fixed_rasterization, module_view, packed_offset, spec_stage,
};
use crate::table::spec_find;
use crate::texture::{
    Sampler, TextureDescriptor, TextureFormat, TextureView, TEXTURE_OUTPUT_ATTACHMENT,
};

verus! {

/// The number of bytes of the view matrix at the start of the transforms buffer.
pub const VIEW_MATRIX_BYTES: usize = 64;

/// A bind group that a draw refers to.
#[derive(Debug, Clone, Copy, PartialEq, Eq, Structural)]
pub enum BindGroupRef {
    /// The bind group that all meshes of the pipeline of a variant share.
    Global(MaterialVariant),
    /// The bind group of the material at this position among the imported
    /// materials.
    Material(usize),
}

/// One step of drawing a frame.
#[derive(Debug, Clone, Copy, PartialEq, Eq, Structural)]
pub enum DrawCommand {
    SetPipeline(MaterialVariant),
    SetBindGroup { index: u32, group: BindGroupRef },
    SetVertexBuffer { slot: u32, buffer: u64, offset: u64, size: u64 },
    SetIndexBuffer { buffer: u64, offset: u64, size: u64 },
    /// Draws the indices `0 .. index_count` once, from vertex 0 on.
    DrawIndexed { index_count: u32 },
}

/// The formats of the attributes of a vertex of `variant`: position and
/// normal, with texture coordinates between them where the variant has maps.
pub open spec fn vertex_formats(variant: MaterialVariant) -> Seq<VertexFormat> {
    match variant {
        MaterialVariant::FixedAlbedo => seq![VertexFormat::Float3, VertexFormat::Float3],
        _ => seq![VertexFormat::Float3, VertexFormat::Float2, VertexFormat::Float3],
    }
}

/// The number of 32-bit components of a vertex of `variant`.
pub open spec fn components_per_vertex(variant: MaterialVariant) -> nat {
    match variant {
        MaterialVariant::FixedAlbedo => 6,
        _ => 8,
    }
}

/// A vertex of each variant takes four bytes for each of its components.
pub proof fn lemma_vertex_stride(variant: MaterialVariant)
    ensures
        packed_offset(vertex_formats(variant), vertex_formats(variant).len() as int) == 4
            * components_per_vertex(variant),
{
    let f = vertex_formats(variant);
    reveal_with_fuel(packed_offset, 4);
    assert(packed_offset(f, 0) == 0);
}

/// `state` is the vertex input of the pipeline of `variant`: one buffer of
/// tightly packed vertices, drawn with 32-bit indices.
pub open spec fn is_vertex_state(state: VertexStateDescriptor, variant: MaterialVariant) -> bool {
    &&& state.index_format == IndexFormat::Uint32
    &&& state.vertex_buffers@.len() == 1
    &&& state.vertex_buffers@[0].is_packed(vertex_formats(variant))
    &&& state.vertex_buffers@[0].stride == 4 * components_per_vertex(variant)
}

/// The vertex input of the pipeline of `variant`.
pub fn vertex_state(variant: MaterialVariant) -> (state: VertexStateDescriptor)
    ensures
        is_vertex_state(state, variant),
{
    let buffer = match variant {
        MaterialVariant::FixedAlbedo => {
            let formats = [VertexFormat::Float3, VertexFormat::Float3];
            assert(formats@ =~= vertex_formats(variant));
            VertexBufferDescriptor::packed(formats.as_slice())
        },
        _ => {
            let formats = [VertexFormat::Float3, VertexFormat::Float2, VertexFormat::Float3];
            assert(formats@ =~= vertex_formats(variant));
            VertexBufferDescriptor::packed(formats.as_slice())
        },
    };
    proof {
        lemma_vertex_stride(variant);
    }
    let mut vertex_buffers: Vec<VertexBufferDescriptor> = Vec::new();
    vertex_buffers.push(buffer);
    VertexStateDescriptor { index_format: IndexFormat::Uint32, vertex_buffers }
}

/// The colour target of every pipeline of the renderer: the swap chain's
/// format, fragments replace what is there, all channels written.
pub open spec fn frame_color_state() -> ColorStateDescriptor {
    ColorStateDescriptor {
        format: TextureFormat::Bgra8UnormSrgb,
        alpha_blend: BlendDescriptor::spec_replace(),
        color_blend: BlendDescriptor::spec_replace(),
        write_mask: COLOR_WRITE_ALL,
    }
}

/// The depth target of every pipeline of the renderer: 32-bit depth, written,
/// nearer or equal fragments pass, the stencil ignored.
pub open spec fn frame_depth_state() -> DepthStencilStateDescriptor {
    DepthStencilStateDescriptor {
        format: TextureFormat::Depth32Float,
        depth_write_enabled: true,
        depth_compare: CompareFunction::LessEqual,
        stencil_front: StencilStateFaceDescriptor::spec_ignore(),
        stencil_back: StencilStateFaceDescriptor::spec_ignore(),
        stencil_read_mask: u32::MAX,
        stencil_write_mask: u32::MAX,
    }
}

/// Where the vertex stage of the pipeline of `variant` is kept.
pub open spec fn vertex_shader_path(variant: MaterialVariant) -> Seq<char> {
    match variant {
        MaterialVariant::FixedAlbedo => "res/shaders/fixed_albedo.vert.spv"@,
        MaterialVariant::Specular => "res/shaders/specular.vert.spv"@,
        MaterialVariant::Diffuse => "res/shaders/diffuse.vert.spv"@,
        MaterialVariant::Combined => "res/shaders/combined.vert.spv"@,
    }
}

/// Where the fragment stage of the pipeline of `variant` is kept.
pub open spec fn fragment_shader_path(variant: MaterialVariant) -> Seq<char> {
    match variant {
        MaterialVariant::FixedAlbedo => "res/shaders/fixed_albedo.frag.spv"@,
        MaterialVariant::Specular => "res/shaders/specular.frag.spv"@,
        MaterialVariant::Diffuse => "res/shaders/diffuse.frag.spv"@,
        MaterialVariant::Combined => "res/shaders/combined.frag.spv"@,
    }
}

/// `shader` describes the pipeline of `variant`: the global layout before the
/// material layout, the vertices of the variant, and the frame's targets.
pub open spec fn is_variant_shader(
    shader: RenderShader,
    variant: MaterialVariant,
    global_layout: u64,
    material_layout: u64,
) -> bool {
    &&& shader.layouts@ == seq![global_layout, material_layout]
    &&& shader.vertex_module_path@ == vertex_shader_path(variant)
    &&& shader.fragment_module_path.is_some()
    &&& shader.fragment_module_path.unwrap()@ == fragment_shader_path(variant)
    &&& is_vertex_state(shader.vertex_state, variant)
    &&& shader.color_states@ == seq![frame_color_state()]
    &&& shader.depth_stencil == Some(frame_depth_state())
}

/// `pipeline` is the pipeline of `variant`, made of the stages `vertex` and
/// `fragment`: the global layout before the material layout, the vertices of
/// the variant, the frame's targets, and the rasterization that is fixed for
/// all pipelines.
pub open spec fn is_variant_pipeline(
    pipeline: RenderPipeline,
    variant: MaterialVariant,
    global_layout: u64,
    material_layout: u64,
    vertex: Seq<u32>,
    fragment: Seq<u32>,
) -> bool {
    let d = pipeline.spec_descriptor();
    &&& d.bind_group_layouts@ == seq![global_layout, material_layout]
    &&& d.vertex_module@ == vertex
    &&& module_view(d.fragment_module) == Some(fragment)
    &&& d.rasterization_state == fixed_rasterization()
    &&& d.primitive_topology == PrimitiveTopology::TriangleList
    &&& d.color_states@ == seq![frame_color_state()]
    &&& d.depth_stencil_state == Some(frame_depth_state())
    &&& is_vertex_state(d.vertex_state, variant)
    &&& d.sample_count == 1
    &&& d.sample_mask == u32::MAX
    &&& !d.alpha_to_coverage_enabled
}

/// Describes the pipeline of `variant`.
pub fn variant_shader(variant: MaterialVariant, global_layout: u64, material_layout: u64) -> (shader:
    RenderShader)
    ensures
        is_variant_shader(shader, variant, global_layout, material_layout),
{
    let mut layouts: Vec<u64> = Vec::new();
    layouts.push(global_layout);
    layouts.push(material_layout);
    assert(layouts@ =~= seq![global_layout, material_layout]);
    let (vertex_path, fragment_path) = match variant {
        MaterialVariant::FixedAlbedo => (
            "res/shaders/fixed_albedo.vert.spv",
            "res/shaders/fixed_albedo.frag.spv",
        ),
        MaterialVariant::Specular => ("res/shaders/specular.vert.spv", "res/shaders/specular.frag.spv"),
        MaterialVariant::Diffuse => ("res/shaders/diffuse.vert.spv", "res/shaders/diffuse.frag.spv"),
        MaterialVariant::Combined => ("res/shaders/combined.vert.spv", "res/shaders/combined.frag.spv"),
    };
    let mut color_states: Vec<ColorStateDescriptor> = Vec::new();
    color_states.push(
        ColorStateDescriptor {
            format: TextureFormat::Bgra8UnormSrgb,
            alpha_blend: BlendDescriptor::replace(),
            color_blend: BlendDescriptor::replace(),
            write_mask: COLOR_WRITE_ALL,
        },
    );
    assert(color_states@ =~= seq![frame_color_state()]);
    RenderShader {
        layouts,
        vertex_module_path: vertex_path.to_owned(),
        fragment_module_path: Some(fragment_path.to_owned()),
        vertex_state: vertex_state(variant),
        color_states,
        depth_stencil: Some(
            DepthStencilStateDescriptor {
                format: TextureFormat::Depth32Float,
                depth_write_enabled: true,
                depth_compare: CompareFunction::LessEqual,
                stencil_front: StencilStateFaceDescriptor::ignore(),
                stencil_back: StencilStateFaceDescriptor::ignore(),
                stencil_read_mask: u32::MAX,
                stencil_write_mask: u32::MAX,
            },
        ),
    }
}

/// The resources of the global bind group of `variant`, in slot order: the
/// transforms, the sampler where the variant has maps, and the light.
pub open spec fn global_resources(
    variant: MaterialVariant,
    transforms: ManagedBuffer,
    sampler: Sampler,
    lights: ManagedBuffer,
) -> Seq<BindingResource> {
    match variant {
        MaterialVariant::FixedAlbedo => seq![
            BindingResource::whole_buffer(transforms),
            BindingResource::whole_buffer(lights),
        ],
        _ => seq![
            BindingResource::whole_buffer(transforms),
            BindingResource::Sampler(sampler),
            BindingResource::whole_buffer(lights),
        ],
    }
}

/// The commands that draw one mesh with the material at position `material`.
pub open spec fn mesh_commands(mesh: Mesh, material: int) -> Seq<DrawCommand> {
    seq![
        DrawCommand::SetVertexBuffer {
            slot: 0,
            buffer: mesh.spec_vertex_buffer().spec_handle(),
            offset: 0,
            size: mesh.spec_vertex_buffer().spec_size_bytes() as u64,
        },
        DrawCommand::SetIndexBuffer {
            buffer: mesh.spec_indices_buffer().spec_handle(),
            offset: 0,
            size: mesh.spec_indices_buffer().spec_size_bytes() as u64,
        },
        DrawCommand::SetBindGroup { index: 1, group: BindGroupRef::Material(material as usize) },
        DrawCommand::DrawIndexed { index_count: mesh.spec_indices_count() },
    ]
}

/// The commands that draw the first `count` of `meshes`, in order.
pub open spec fn draws(meshes: Seq<Mesh>, material_names: Seq<Seq<char>>, count: nat) -> Seq<
    DrawCommand,
>
    decreases count,
{
    if count == 0 {
        Seq::empty()
    } else {
        let mesh = meshes[count - 1];
        draws(meshes, material_names, (count - 1) as nat) + mesh_commands(
            mesh,
            spec_find(material_names, mesh.spec_mat_name()).unwrap(),
        )
    }
}

/// The commands that draw one bucket: nothing for an empty bucket; else the
/// pipeline, its global bind group, and the meshes in order.
pub open spec fn bucket_commands(
    variant: MaterialVariant,
    meshes: Seq<Mesh>,
    material_names: Seq<Seq<char>>,
) -> Seq<DrawCommand> {
    if meshes.len() == 0 {
        Seq::empty()
    } else {
        seq![
            DrawCommand::SetPipeline(variant),
            DrawCommand::SetBindGroup { index: 0, group: BindGroupRef::Global(variant) },
        ] + draws(meshes, material_names, meshes.len())
    }
}

/// Those of the first `count` of `meshes` whose material is of `variant`, in order.
pub open spec fn select(
    meshes: Seq<Mesh>,
    manager: &MaterialManager,
    variant: MaterialVariant,
    count: nat,
) -> Seq<Mesh>
    decreases count,
{
    if count == 0 {
        Seq::empty()
    } else {
        let before = select(meshes, manager, variant, (count - 1) as nat);
        if manager.spec_variant(meshes[count - 1].spec_mat_name()) == Some(variant) {
            before.push(meshes[count - 1])
        } else {
            before
        }
    }
}

/// Every one of `meshes` has a material that `manager` knows.
pub open spec fn materials_known(meshes: Seq<Mesh>, manager: &MaterialManager) -> bool {
    forall|i: int|
        0 <= i < meshes.len() ==> manager.spec_material(
            (#[trigger] meshes[i]).spec_mat_name(),
        ).is_some()
}

/// Whether every one of `meshes` has a material that `mat_man` knows.
pub fn meshes_known(meshes: &Vec<Mesh>, mat_man: &MaterialManager) -> (yes: bool)
    ensures
        yes == materials_known(meshes@, mat_man),
{
    let mut i: usize = 0;
    while i < meshes.len()
        invariant
            i <= meshes@.len(),
            forall|k: int|
                0 <= k < i ==> mat_man.spec_material((#[trigger] meshes@[k]).spec_mat_name()).is_some(),
        decreases meshes@.len() - i,
    {
        if mat_man.get_material(meshes[i].get_mat_name()).is_none() {
            return false;
        }
        i = i + 1;
    }
    true
}

/// One pipeline of the renderer with the meshes that it draws.
#[derive(Debug)]
pub struct Pipeline {
    variant: MaterialVariant,
    pipeline: RenderPipeline,
    global_bg: BindGroup,
    meshes: Vec<Mesh>,
}

impl Pipeline {
    pub closed spec fn spec_variant(&self) -> MaterialVariant {
        self.variant
    }

    pub closed spec fn spec_pipeline(&self) -> RenderPipeline {
        self.pipeline
    }

    pub closed spec fn spec_global_bg(&self) -> BindGroup {
        self.global_bg
    }

    /// The meshes of the bucket, in the order in which they were added.
    pub closed spec fn spec_meshes(&self) -> Seq<Mesh> {
        self.meshes@
    }

    /// Makes the pipeline of `variant` from its two shader stages, `None`
    /// for a stage that could not be read, and its global bind group from
    /// the transforms, the sampler and the light.
    ///
    /// Fails with `ErrorOpeningShaderSPV` exactly when a stage could not be
    /// read or is not a SPIR-V module.
    pub fn new(
        variant: MaterialVariant,
        vertex_module: Option<&[u8]>,
        fragment_module: Option<&[u8]>,
        global_layout_handle: u64,
        material_layout: u64,
        transforms: &ManagedBuffer,
        sampler: &Sampler,
        lights: &ManagedBuffer,
    ) -> (made: Result<Self, APURRendererError>)
        ensures
            match (spec_stage(bytes_view(vertex_module)), spec_stage(bytes_view(fragment_module))) {
                (Some(vertex), Some(fragment)) => {
                    &&& made.is_ok()
                    &&& made.unwrap().spec_variant() == variant
                    &&& made.unwrap().spec_meshes().len() == 0
                    &&& is_variant_pipeline(
                        made.unwrap().spec_pipeline(),
                        variant,
                        global_layout_handle,
                        material_layout,
                        vertex,
                        fragment,
                    )
                    &&& made.unwrap().spec_global_bg().spec_layout() == global_layout_handle
                    &&& made.unwrap().spec_global_bg().bound() == entries_from(
                        0,
                        global_resources(variant, *transforms, *sampler, *lights),
                    )
                    &&& made.unwrap().spec_global_bg().fills(global_slots(variant))
                },
                _ => made.is_err() && made.unwrap_err() == APURRendererError::ErrorOpeningShaderSPV,
            },
    {
        let shader = variant_shader(variant, global_layout_handle, material_layout);
        let pipeline = match RenderPipeline::new(shader, vertex_module, fragment_module) {
            Ok(pipeline) => pipeline,
            Err(e) => { return Err(e); },
        };
        let layout = global_layout(variant).build(global_layout_handle);
        let builder = layout.to_bind_group_builder().with_buffer(transforms).unwrap();
        let builder = match variant {
            MaterialVariant::FixedAlbedo => builder,
            _ => builder.with_sampler(sampler).unwrap(),
        };
        let global_bg = builder.with_buffer(lights).unwrap().build().unwrap();
        assert(global_bg.bound() =~= entries_from(
            0,
            global_resources(variant, *transforms, *sampler, *lights),
        ));
        Ok(Pipeline { variant, pipeline, global_bg, meshes: Vec::new() })
    }

    /// Adds `mesh` at the end of the bucket.
    pub fn add_mesh(&mut self, mesh: Mesh)
        ensures
            final(self).spec_meshes() == old(self).spec_meshes().push(mesh),
            final(self).spec_variant() == old(self).spec_variant(),
            final(self).spec_pipeline() == old(self).spec_pipeline(),
            final(self).spec_global_bg() == old(self).spec_global_bg(),
    {
        self.meshes.push(mesh);
    }

    /// Appends the commands that draw the bucket to `commands`.
    pub fn draw_meshes(&self, commands: &mut Vec<DrawCommand>, mat_man: &MaterialManager)
        requires
            materials_known(self.spec_meshes(), mat_man),
        ensures
            final(commands)@ == old(commands)@ + bucket_commands(
                self.spec_variant(),
                self.spec_meshes(),
                mat_man.material_names(),
            ),
    {
        let ghost before = commands@;
        let ghost names = mat_man.material_names();
        if self.meshes.len() == 0 {
            assert(before + Seq::<DrawCommand>::empty() =~= before);
            return ;
        }
        commands.push(DrawCommand::SetPipeline(self.variant));
        commands.push(
            DrawCommand::SetBindGroup { index: 0, group: BindGroupRef::Global(self.variant) },
        );
        let ghost head = seq![
            DrawCommand::SetPipeline(self.variant),
            DrawCommand::SetBindGroup { index: 0, group: BindGroupRef::Global(self.variant) },
        ];
        assert(commands@ =~= before + head + draws(self.meshes@, names, 0));
        let mut i: usize = 0;
        while i < self.meshes.len()
            invariant
                i <= self.meshes@.len(),
                names == mat_man.material_names(),
                materials_known(self.spec_meshes(), mat_man),
                self.spec_meshes() == self.meshes@,
                commands@ == before + head + draws(self.meshes@, names, i as nat),
            decreases self.meshes@.len() - i,
        {
            let m = &self.meshes[i];
            assert(mat_man.spec_material(self.spec_meshes()[i as int].spec_mat_name()).is_some());
            let vbuf = m.get_vertex_buffer();
            let ibuf = m.get_indices_buffer();
            let material: usize = mat_man.material_index(m.get_mat_name()).unwrap();
            let ghost so_far = commands@;
            commands.push(
                DrawCommand::SetVertexBuffer {
                    slot: 0,
                    buffer: vbuf.handle(),
                    offset: 0,
                    size: vbuf.size_bytes() as u64,
                },
            );
            commands.push(
                DrawCommand::SetIndexBuffer {
                    buffer: ibuf.handle(),
                    offset: 0,
                    size: ibuf.size_bytes() as u64,
                },
            );
            commands.push(
                DrawCommand::SetBindGroup { index: 1, group: BindGroupRef::Material(material) },
            );
            commands.push(DrawCommand::DrawIndexed { index_count: m.get_indices_count() });
            assert(commands@ =~= so_far + mesh_commands(*m, material as int));
            assert(commands@ =~= before + head + draws(self.meshes@, names, (i + 1) as nat));
            i = i + 1;
        }
        assert(commands@ =~= before + (head + draws(self.meshes@, names, self.meshes@.len())));
    }

    /// The number of meshes in the bucket.
    pub fn mesh_count(&self) -> (n: usize)
        ensures
            n == self.spec_meshes().len(),
    {
        self.meshes.len()
    }

    pub fn variant(&self) -> (variant: MaterialVariant)
        ensures
            variant == self.spec_variant(),
    {
        self.variant
    }

    pub fn pipeline(&self) -> (pipeline: &RenderPipeline)
        ensures
            *pipeline == self.spec_pipeline(),
    {
        &self.pipeline
    }

    pub fn global_bg(&self) -> (group: &BindGroup)
        ensures
            *group == self.spec_global_bg(),
    {
        &self.global_bg
    }

    /// Whether every mesh of the bucket has a material that `mat_man` knows.
    pub fn materials_loaded(&self, mat_man: &MaterialManager) -> (yes: bool)
        ensures
            yes == materials_known(self.spec_meshes(), mat_man),
    {
        meshes_known(&self.meshes, mat_man)
    }
}

/// The two stages of one pipeline as their files gave them, `None` for a
/// file that could not be read.
#[derive(Debug, Clone, Copy)]
pub struct ShaderSource<'a> {
    pub vertex: Option<&'a [u8]>,
    pub fragment: Option<&'a [u8]>,
}

impl<'a> ShaderSource<'a> {
    /// Both stages were read and are SPIR-V modules.
    pub open spec fn usable(&self) -> bool {
        spec_stage(bytes_view(self.vertex)).is_some() && spec_stage(
            bytes_view(self.fragment),
        ).is_some()
    }
}

/// What a frame asks of the graphics backend: first the update of the view
/// matrix, if the camera moved since the last frame, then the draw commands.
#[derive(Debug)]
pub struct Frame {
    /// The write of the view matrix, or why it was refused; `None` if the
    /// camera did not move.
    pub transform_update: Option<Result<BufferWrite, APURRendererError>>,
    pub commands: Vec<DrawCommand>,
}

/// The number of times that `commands` bind a pipeline.
pub open spec fn pipeline_binds(commands: Seq<DrawCommand>) -> nat
    decreases commands.len(),
{
    if commands.len() == 0 {
        0
    } else {
        pipeline_binds(commands.drop_last()) + if commands.last() is SetPipeline {
            1nat
        } else {
            0nat
        }
    }
}

/// The place of the bucket of `variant` in the fixed order of drawing.
pub open spec fn bucket_index(variant: MaterialVariant) -> int {
    match variant {
        MaterialVariant::FixedAlbedo => 0,
        MaterialVariant::Specular => 1,
        MaterialVariant::Diffuse => 2,
        MaterialVariant::Combined => 3,
    }
}

/// One for a bucket that has meshes, none for an empty one.
pub open spec fn occupied(meshes: Seq<Mesh>) -> nat {
    if meshes.len() > 0 {
        1
    } else {
        0
    }
}

/// Owns the four pipelines and draws the meshes bucket by bucket.
#[derive(Debug)]
pub struct Renderer {
    ds_texture: TextureDescriptor,
    ds_view: TextureView,
    update_transforms: bool,
    transforms: ManagedBuffer,
    lights_buf: ManagedBuffer,
    sampler: Sampler,
    fa_pipe: Pipeline,
    sp_pipe: Pipeline,
    df_pipe: Pipeline,
    comb_pipe: Pipeline,
}

impl Renderer {
    #[verifier::type_invariant]
    spec fn well_formed(self) -> bool {
        &&& self.fa_pipe.spec_variant() == MaterialVariant::FixedAlbedo
        &&& self.sp_pipe.spec_variant() == MaterialVariant::Specular
        &&& self.df_pipe.spec_variant() == MaterialVariant::Diffuse
        &&& self.comb_pipe.spec_variant() == MaterialVariant::Combined
    }

    /// The pipeline of `variant`.
    pub closed spec fn pipe(&self, variant: MaterialVariant) -> Pipeline {
        match variant {
            MaterialVariant::FixedAlbedo => self.fa_pipe,
            MaterialVariant::Specular => self.sp_pipe,
            MaterialVariant::Diffuse => self.df_pipe,
            MaterialVariant::Combined => self.comb_pipe,
        }
    }

    /// The meshes in the bucket of `variant`, in the order in which they were added.
    pub open spec fn bucket(&self, variant: MaterialVariant) -> Seq<Mesh> {
        self.pipe(variant).spec_meshes()
    }

    /// Whether the camera moved since the last frame.
    pub closed spec fn dirty(&self) -> bool {
        self.update_transforms
    }

    /// The buffer that holds the view and projection matrices.
    pub closed spec fn spec_transforms(&self) -> ManagedBuffer {
        self.transforms
    }

    /// The buffer that holds the light.
    pub closed spec fn spec_lights(&self) -> ManagedBuffer {
        self.lights_buf
    }

    /// The sampler of the texture maps.
    pub closed spec fn spec_sampler(&self) -> Sampler {
        self.sampler
    }

    /// The depth target of the frame.
    pub closed spec fn spec_depth_texture(&self) -> TextureDescriptor {
        self.ds_texture
    }

    /// The view of the depth target.
    pub closed spec fn spec_depth_view(&self) -> TextureView {
        self.ds_view
    }

    /// Every mesh of every bucket has a material that `manager` knows.
    pub open spec fn all_materials_known(&self, manager: &MaterialManager) -> bool {
        forall|v: MaterialVariant| materials_known(#[trigger] self.bucket(v), manager)
    }

    /// The draw commands of a frame: the four buckets in the order fixed
    /// albedo, specular, diffuse, combined.
    pub open spec fn frame_commands(&self, material_names: Seq<Seq<char>>) -> Seq<DrawCommand> {
        bucket_commands(
            MaterialVariant::FixedAlbedo,
            self.bucket(MaterialVariant::FixedAlbedo),
            material_names,
        ) + bucket_commands(
            MaterialVariant::Specular,
            self.bucket(MaterialVariant::Specular),
            material_names,
        ) + bucket_commands(
            MaterialVariant::Diffuse,
            self.bucket(MaterialVariant::Diffuse),
            material_names,
        ) + bucket_commands(
            MaterialVariant::Combined,
            self.bucket(MaterialVariant::Combined),
            material_names,
        )
    }

    /// Makes the renderer for a frame of `width` by `height`: the depth
    /// target, and the four pipelines with their global bind groups over
    /// the transforms, the sampler and the light. `global_layouts` and
    /// `sources` are in the order fixed albedo, specular, diffuse, combined.
    ///
    /// Fails with `ErrorOpeningShaderSPV` exactly when a stage of one of the
    /// pipelines could not be read or is not a SPIR-V module.
    pub fn new(
        width: u32,
        height: u32,
        depth_view: TextureView,
        transforms: ManagedBuffer,
        lights_buf: ManagedBuffer,
        sampler: Sampler,
        mat_man: &MaterialManager,
        global_layouts: [u64; 4],
        sources: [ShaderSource<'_>; 4],
    ) -> (made: Result<Self, APURRendererError>)
        ensures
            made.is_ok() <==> (forall|i: int| 0 <= i < 4 ==> (#[trigger] sources[i]).usable()),
            made.is_err() ==> made.unwrap_err() == APURRendererError::ErrorOpeningShaderSPV,
            made.is_ok() ==> {
                let r = made.unwrap();
                &&& !r.dirty()
                &&& r.spec_transforms() == transforms
                &&& r.spec_lights() == lights_buf
                &&& r.spec_sampler() == sampler
                &&& r.spec_depth_view() == depth_view
                &&& r.spec_depth_texture().label@ == "Depth-Stencil texture"@
                &&& r.spec_depth_texture().is_plain_2d(
                    width,
                    height,
                    TextureFormat::Depth32Float,
                    TEXTURE_OUTPUT_ATTACHMENT,
                )
                &&& forall|v: MaterialVariant|
                    {
                        &&& (#[trigger] r.pipe(v)).spec_variant() == v
                        &&& r.bucket(v).len() == 0
                        &&& is_variant_pipeline(
                            r.pipe(v).spec_pipeline(),
                            v,
                            global_layouts[bucket_index(v)],
                            mat_man.layout_of(v).spec_handle(),
                            spec_stage(bytes_view(sources[bucket_index(v)].vertex)).unwrap(),
                            spec_stage(bytes_view(sources[bucket_index(v)].fragment)).unwrap(),
                        )
                        &&& r.pipe(v).spec_global_bg().spec_layout() == global_layouts[bucket_index(
                            v,
                        )]
                        &&& r.pipe(v).spec_global_bg().bound() == entries_from(
                            0,
                            global_resources(v, transforms, sampler, lights_buf),
                        )
                        &&& r.pipe(v).spec_global_bg().fills(global_slots(v))
                    }
            },
    {
        let ds_texture = TextureDescriptor::plain_2d(
            "Depth-Stencil texture",
            width,
            height,
            TextureFormat::Depth32Float,
            TEXTURE_OUTPUT_ATTACHMENT,
        );
        let fa_pipe = match Pipeline::new(
            MaterialVariant::FixedAlbedo,
            sources[0].vertex,
            sources[0].fragment,
            global_layouts[0],
            mat_man.fa_mat_bg_layout().handle(),
            &transforms,
            &sampler,
            &lights_buf,
        ) {
            Ok(p) => p,
            Err(e) => { return Err(e); },
        };
        let sp_pipe = match Pipeline::new(
            MaterialVariant::Specular,
            sources[1].vertex,
            sources[1].fragment,
            global_layouts[1],
            mat_man.sp_mat_bg_layout().handle(),
            &transforms,
            &sampler,
            &lights_buf,
        ) {
            Ok(p) => p,
            Err(e) => { return Err(e); },
        };
        let df_pipe = match Pipeline::new(
            MaterialVariant::Diffuse,
            sources[2].vertex,
            sources[2].fragment,
            global_layouts[2],
            mat_man.df_mat_bg_layout().handle(),
            &transforms,
            &sampler,
            &lights_buf,
        ) {
            Ok(p) => p,
            Err(e) => { return Err(e); },
        };
        let comb_pipe = match Pipeline::new(
            MaterialVariant::Combined,
            sources[3].vertex,
            sources[3].fragment,
            global_layouts[3],
            mat_man.comb_mat_bg_layout().handle(),
            &transforms,
            &sampler,
            &lights_buf,
        ) {
            Ok(p) => p,
            Err(e) => { return Err(e); },
        };
        let renderer = Renderer {
            ds_texture,
            ds_view: depth_view,
            update_transforms: false,
            transforms,
            lights_buf,
            sampler,
            fa_pipe,
            sp_pipe,
            df_pipe,
            comb_pipe,
        };
        assert forall|i: int| 0 <= i < 4 implies (#[trigger] sources[i]).usable() by {
            assert(sources[0].usable() && sources[1].usable() && sources[2].usable()
                && sources[3].usable());
        }
        Ok(renderer)
    }

    /// Puts each of `meshes` at the end of the bucket of the pipeline that
    /// matches its material.
    pub fn add_meshes(&mut self, meshes: Vec<Mesh>, mat_manager: &MaterialManager)
        requires
            materials_known(meshes@, mat_manager),
        ensures
            forall|v: MaterialVariant|
                {
                    &&& (#[trigger] final(self).bucket(v)) == old(self).bucket(v) + select(
                        meshes@,
                        mat_manager,
                        v,
                        meshes@.len(),
                    )
                    &&& final(self).pipe(v).spec_variant() == v
                    &&& final(self).pipe(v).spec_pipeline() == old(self).pipe(v).spec_pipeline()
                    &&& final(self).pipe(v).spec_global_bg() == old(self).pipe(v).spec_global_bg()
                },
            final(self).dirty() == old(self).dirty(),
            final(self).spec_transforms() == old(self).spec_transforms(),
            final(self).spec_lights() == old(self).spec_lights(),
            final(self).spec_sampler() == old(self).spec_sampler(),
            final(self).spec_depth_texture() == old(self).spec_depth_texture(),
            final(self).spec_depth_view() == old(self).spec_depth_view(),
    {
        proof {
            use_type_invariant(&*self);
        }
        let ghost start = *self;
        let mut fa: Vec<Mesh> = Vec::new();
        let mut sp: Vec<Mesh> = Vec::new();
        let mut df: Vec<Mesh> = Vec::new();
        let mut comb: Vec<Mesh> = Vec::new();
        for m in it: meshes.into_iter()
            invariant
                it.seq() == meshes@,
                materials_known(meshes@, mat_manager),
                fa@ == select(meshes@, mat_manager, MaterialVariant::FixedAlbedo, it.index() as nat),
                sp@ == select(meshes@, mat_manager, MaterialVariant::Specular, it.index() as nat),
                df@ == select(meshes@, mat_manager, MaterialVariant::Diffuse, it.index() as nat),
                comb@ == select(meshes@, mat_manager, MaterialVariant::Combined, it.index() as nat),
        {
            assert(mat_manager.spec_material(meshes@[it.index() as int].spec_mat_name()).is_some());
            let variant = mat_manager.get_material(m.get_mat_name()).unwrap().get_variant();
            match variant {
                MaterialVariant::FixedAlbedo => {
                    fa.push(m);
                },
                MaterialVariant::Specular => {
                    sp.push(m);
                },
                MaterialVariant::Diffuse => {
                    df.push(m);
                },
                MaterialVariant::Combined => {
                    comb.push(m);
                },
            }
        }
        let mut fa_pipe_meshes: Vec<Mesh> = Vec::new();
        core::mem::swap(&mut fa_pipe_meshes, &mut self.fa_pipe.meshes);
        fa_pipe_meshes.append(&mut fa);
        self.fa_pipe.meshes = fa_pipe_meshes;
        let mut sp_pipe_meshes: Vec<Mesh> = Vec::new();
        core::mem::swap(&mut sp_pipe_meshes, &mut self.sp_pipe.meshes);
        sp_pipe_meshes.append(&mut sp);
        self.sp_pipe.meshes = sp_pipe_meshes;
        let mut df_pipe_meshes: Vec<Mesh> = Vec::new();
        core::mem::swap(&mut df_pipe_meshes, &mut self.df_pipe.meshes);
        df_pipe_meshes.append(&mut df);
        self.df_pipe.meshes = df_pipe_meshes;
        let mut comb_pipe_meshes: Vec<Mesh> = Vec::new();
        core::mem::swap(&mut comb_pipe_meshes, &mut self.comb_pipe.meshes);
        comb_pipe_meshes.append(&mut comb);
        self.comb_pipe.meshes = comb_pipe_meshes;
        assert forall|v: MaterialVariant|
            {
                &&& (#[trigger] self.bucket(v)) == start.bucket(v) + select(
                    meshes@,
                    mat_manager,
                    v,
                    meshes@.len(),
                )
                &&& self.pipe(v).spec_variant() == v
                &&& self.pipe(v).spec_pipeline() == start.pipe(v).spec_pipeline()
                &&& self.pipe(v).spec_global_bg() == start.pipe(v).spec_global_bg()
            } by {
            match v {
                MaterialVariant::FixedAlbedo => {},
                MaterialVariant::Specular => {},
                MaterialVariant::Diffuse => {},
                MaterialVariant::Combined => {},
            }
        }
    }

    /// Whether every mesh of every bucket has a material that `mat_man` knows.
    pub fn materials_loaded(&self, mat_man: &MaterialManager) -> (yes: bool)
        ensures
            yes == self.all_materials_known(mat_man),
    {
        let yes = self.fa_pipe.materials_loaded(mat_man) && self.sp_pipe.materials_loaded(mat_man)
            && self.df_pipe.materials_loaded(mat_man) && self.comb_pipe.materials_loaded(mat_man);
        proof {
            if yes {
                assert forall|v: MaterialVariant|
                    materials_known(#[trigger] self.bucket(v), mat_man) by {
                    match v {
                        MaterialVariant::FixedAlbedo => {},
                        MaterialVariant::Specular => {},
                        MaterialVariant::Diffuse => {},
                        MaterialVariant::Combined => {},
                    }
                }
            } else {
                if !materials_known(self.bucket(MaterialVariant::FixedAlbedo), mat_man) {
                } else if !materials_known(self.bucket(MaterialVariant::Specular), mat_man) {
                } else if !materials_known(self.bucket(MaterialVariant::Diffuse), mat_man) {
                } else {
                    assert(!materials_known(self.bucket(MaterialVariant::Combined), mat_man));
                }
            }
        }
        yes
    }

    /// Describes one frame. The view matrix is written first, if the camera
    /// moved since the last frame; then each pipeline that has meshes is
    /// bound once, and its meshes are drawn in the order in which they were added.
    pub fn render(&mut self, mat_man: &MaterialManager) -> (frame: Frame)
        requires
            old(self).all_materials_known(mat_man),
        ensures
            frame.commands@ == old(self).frame_commands(mat_man.material_names()),
            frame.transform_update == if old(self).dirty() {
                Some(old(self).spec_transforms().spec_write(0, VIEW_MATRIX_BYTES as nat))
            } else {
                None
            },
            !final(self).dirty(),
            forall|v: MaterialVariant| #[trigger] final(self).pipe(v) == old(self).pipe(v),
            final(self).spec_transforms() == old(self).spec_transforms(),
            final(self).spec_lights() == old(self).spec_lights(),
            final(self).spec_sampler() == old(self).spec_sampler(),
            final(self).spec_depth_texture() == old(self).spec_depth_texture(),
            final(self).spec_depth_view() == old(self).spec_depth_view(),
    {
        proof {
            use_type_invariant(&*self);
        }
        let transform_update = if self.update_transforms {
            Some(self.transforms.write_bytes(0, VIEW_MATRIX_BYTES))
        } else {
            None
        };
        assert(materials_known(old(self).bucket(MaterialVariant::FixedAlbedo), mat_man));
        assert(materials_known(old(self).bucket(MaterialVariant::Specular), mat_man));
        assert(materials_known(old(self).bucket(MaterialVariant::Diffuse), mat_man));
        assert(materials_known(old(self).bucket(MaterialVariant::Combined), mat_man));
        self.update_transforms = false;
        let mut commands: Vec<DrawCommand> = Vec::new();
        self.fa_pipe.draw_meshes(&mut commands, mat_man);
        self.sp_pipe.draw_meshes(&mut commands, mat_man);
        self.df_pipe.draw_meshes(&mut commands, mat_man);
        self.comb_pipe.draw_meshes(&mut commands, mat_man);
        assert(commands@ =~= self.frame_commands(mat_man.material_names()));
        Frame { transform_update, commands }
    }

    /// Notes that the camera turned: the next frame updates the view matrix.
    pub fn rotate_camera(&mut self)
        ensures
            final(self).dirty(),
            forall|v: MaterialVariant| #[trigger] final(self).pipe(v) == old(self).pipe(v),
            final(self).spec_transforms() == old(self).spec_transforms(),
            final(self).spec_lights() == old(self).spec_lights(),
            final(self).spec_sampler() == old(self).spec_sampler(),
            final(self).spec_depth_texture() == old(self).spec_depth_texture(),
            final(self).spec_depth_view() == old(self).spec_depth_view(),
    {
        proof {
            use_type_invariant(&*self);
        }
        self.update_transforms = true;
    }

    /// Notes that the camera moved: the next frame updates the view matrix.
    pub fn move_camera(&mut self)
        ensures
            final(self).dirty(),
            forall|v: MaterialVariant| #[trigger] final(self).pipe(v) == old(self).pipe(v),
            final(self).spec_transforms() == old(self).spec_transforms(),
            final(self).spec_lights() == old(self).spec_lights(),
            final(self).spec_sampler() == old(self).spec_sampler(),
            final(self).spec_depth_texture() == old(self).spec_depth_texture(),
            final(self).spec_depth_view() == old(self).spec_depth_view(),
    {
        proof {
            use_type_invariant(&*self);
        }
        self.update_transforms = true;
    }

    /// The pipeline of `variant` with its bucket.
    pub fn pipeline(&self, variant: MaterialVariant) -> (pipe: &Pipeline)
        ensures
            *pipe == self.pipe(variant),
            pipe.spec_variant() == variant,
    {
        proof {
            use_type_invariant(self);
        }
        match variant {
            MaterialVariant::FixedAlbedo => &self.fa_pipe,
            MaterialVariant::Specular => &self.sp_pipe,
            MaterialVariant::Diffuse => &self.df_pipe,
            MaterialVariant::Combined => &self.comb_pipe,
        }
    }

    pub fn depth_texture(&self) -> (desc: &TextureDescriptor)
        ensures
            *desc == self.spec_depth_texture(),
    {
        &self.ds_texture
    }

    pub fn depth_view(&self) -> (view: TextureView)
        ensures
            view == self.spec_depth_view(),
    {
        self.ds_view
    }

    pub fn sampler(&self) -> (sampler: Sampler)
        ensures
            sampler == self.spec_sampler(),
    {
        self.sampler
    }

    pub fn transforms(&self) -> (buffer: &ManagedBuffer)
        ensures
            *buffer == self.spec_transforms(),
    {
        &self.transforms
    }

    pub fn lights(&self) -> (buffer: &ManagedBuffer)
        ensures
            *buffer == self.spec_lights(),
    {
        &self.lights_buf
    }
}

/// Commands put one after the other bind a pipeline as often as both do together.
pub proof fn lemma_pipeline_binds_concat(a: Seq<DrawCommand>, b: Seq<DrawCommand>)
    ensures
        pipeline_binds(a + b) == pipeline_binds(a) + pipeline_binds(b),
    decreases b.len(),
{
    if b.len() == 0 {
        assert(a + b =~= a);
    } else {
        lemma_pipeline_binds_concat(a, b.drop_last());
        assert((a + b).drop_last() =~= a + b.drop_last());
        assert((a + b).last() == b.last());
    }
}

/// Meshes are drawn in their order, four commands each: the commands of
/// mesh `i` stand at `4 * i`.
pub proof fn lemma_draws_in_order(meshes: Seq<Mesh>, material_names: Seq<Seq<char>>, count: nat)
    ensures
        draws(meshes, material_names, count).len() == 4 * count,
        forall|i: int|
            0 <= i < count ==> #[trigger] draws(meshes, material_names, count).subrange(
                4 * i,
                4 * i + 4,
            ) == mesh_commands(
                meshes[i],
                spec_find(material_names, meshes[i].spec_mat_name()).unwrap(),
            ),
    decreases count,
{
    if count > 0 {
        lemma_draws_in_order(meshes, material_names, (count - 1) as nat);
        let before = draws(meshes, material_names, (count - 1) as nat);
        let all = draws(meshes, material_names, count);
        assert forall|i: int| 0 <= i < count implies #[trigger] all.subrange(4 * i, 4 * i + 4)
            == mesh_commands(
            meshes[i],
            spec_find(material_names, meshes[i].spec_mat_name()).unwrap(),
        ) by {
            if i < count - 1 {
                assert(all.subrange(4 * i, 4 * i + 4) =~= before.subrange(4 * i, 4 * i + 4));
            } else {
                assert(all.subrange(4 * i, 4 * i + 4) =~= mesh_commands(
                    meshes[i],
                    spec_find(material_names, meshes[i].spec_mat_name()).unwrap(),
                ));
            }
        }
    }
}

/// Drawing meshes binds no pipeline.
pub proof fn lemma_draws_bind_nothing(meshes: Seq<Mesh>, material_names: Seq<Seq<char>>, count: nat)
    ensures
        pipeline_binds(draws(meshes, material_names, count)) == 0,
    decreases count,
{
    if count > 0 {
        let mesh = meshes[count - 1];
        let one = mesh_commands(mesh, spec_find(material_names, mesh.spec_mat_name()).unwrap());
        lemma_draws_bind_nothing(meshes, material_names, (count - 1) as nat);
        lemma_pipeline_binds_concat(draws(meshes, material_names, (count - 1) as nat), one);
        reveal_with_fuel(pipeline_binds, 5);
        assert(one.drop_last().drop_last().drop_last().drop_last() =~= Seq::<DrawCommand>::empty());
        assert(pipeline_binds(one) == 0);
    }
}

/// A bucket binds its pipeline once if it has meshes and not at all if it has none.
pub proof fn lemma_bucket_binds_once(
    variant: MaterialVariant,
    meshes: Seq<Mesh>,
    material_names: Seq<Seq<char>>,
)
    ensures
        pipeline_binds(bucket_commands(variant, meshes, material_names)) == occupied(meshes),
{
    if meshes.len() > 0 {
        let head = seq![
            DrawCommand::SetPipeline(variant),
            DrawCommand::SetBindGroup { index: 0, group: BindGroupRef::Global(variant) },
        ];
        lemma_draws_bind_nothing(meshes, material_names, meshes.len());
        lemma_pipeline_binds_concat(head, draws(meshes, material_names, meshes.len()));
        reveal_with_fuel(pipeline_binds, 3);
        assert(head.drop_last().drop_last() =~= Seq::<DrawCommand>::empty());
        assert(head.drop_last().last() == DrawCommand::SetPipeline(variant));
        assert(pipeline_binds(head) == 1);
    }
}

/// A frame binds exactly as many pipelines as there are buckets with meshes.
pub proof fn lemma_frame_binds(renderer: Renderer, material_names: Seq<Seq<char>>)
    ensures
        pipeline_binds(renderer.frame_commands(material_names)) == occupied(
            renderer.bucket(MaterialVariant::FixedAlbedo),
        ) + occupied(renderer.bucket(MaterialVariant::Specular)) + occupied(
            renderer.bucket(MaterialVariant::Diffuse),
        ) + occupied(renderer.bucket(MaterialVariant::Combined)),
{
    let fa = bucket_commands(
        MaterialVariant::FixedAlbedo,
        renderer.bucket(MaterialVariant::FixedAlbedo),
        material_names,
    );
    let sp = bucket_commands(
        MaterialVariant::Specular,
        renderer.bucket(MaterialVariant::Specular),
        material_names,
    );
    let df = bucket_commands(
        MaterialVariant::Diffuse,
        renderer.bucket(MaterialVariant::Diffuse),
        material_names,
    );
    let comb = bucket_commands(
        MaterialVariant::Combined,
        renderer.bucket(MaterialVariant::Combined),
        material_names,
    );
    lemma_bucket_binds_once(
        MaterialVariant::FixedAlbedo,
        renderer.bucket(MaterialVariant::FixedAlbedo),
        material_names,
    );
    lemma_bucket_binds_once(
        MaterialVariant::Specular,
        renderer.bucket(MaterialVariant::Specular),
        material_names,
    );
    lemma_bucket_binds_once(
        MaterialVariant::Diffuse,
        renderer.bucket(MaterialVariant::Diffuse),
        material_names,
    );
    lemma_bucket_binds_once(
        MaterialVariant::Combined,
        renderer.bucket(MaterialVariant::Combined),
        material_names,
    );
    lemma_pipeline_binds_concat(fa, sp);
    lemma_pipeline_binds_concat(fa + sp, df);
    lemma_pipeline_binds_concat(fa + sp + df, comb);
}

/// Every mesh in the selection of `variant` has a material of that variant.
pub proof fn lemma_select_matches(
    meshes: Seq<Mesh>,
    manager: &MaterialManager,
    variant: MaterialVariant,
    count: nat,
)
    ensures
        forall|k: int|
            0 <= k < select(meshes, manager, variant, count).len() ==> manager.spec_variant(
                (#[trigger] select(meshes, manager, variant, count)[k]).spec_mat_name(),
            ) == Some(variant),
    decreases count,
{
    if count > 0 {
        lemma_select_matches(meshes, manager, variant, (count - 1) as nat);
    }
}

/// Every mesh whose material is known goes into exactly one bucket: the four
/// selections together have as many meshes as came.
pub proof fn lemma_select_partitions(meshes: Seq<Mesh>, manager: &MaterialManager, count: nat)
    requires
        count <= meshes.len(),
        materials_known(meshes, manager),
    ensures
        select(meshes, manager, MaterialVariant::FixedAlbedo, count).len() + select(
            meshes,
            manager,
            MaterialVariant::Specular,
            count,
        ).len() + select(meshes, manager, MaterialVariant::Diffuse, count).len() + select(
            meshes,
            manager,
            MaterialVariant::Combined,
            count,
        ).len() == count,
    decreases count,
{
    if count > 0 {
        lemma_select_partitions(meshes, manager, (count - 1) as nat);
        assert(manager.spec_material(meshes[count - 1].spec_mat_name()).is_some());
    }
}

/// The place that mesh `i` takes among the selected meshes of `variant`: the
/// number of meshes of the variant before it.
pub open spec fn place(meshes: Seq<Mesh>, manager: &MaterialManager, variant: MaterialVariant, i: nat) -> nat {
    select(meshes, manager, variant, i).len()
}

/// A later mesh takes no earlier place, and a place after that of an earlier
/// mesh of the variant.
pub proof fn lemma_place_grows(
    meshes: Seq<Mesh>,
    manager: &MaterialManager,
    variant: MaterialVariant,
    i: nat,
    j: nat,
)
    requires
        i <= j,
    ensures
        place(meshes, manager, variant, i) <= place(meshes, manager, variant, j),
        i < j && manager.spec_variant(meshes[i as int].spec_mat_name()) == Some(variant) ==> place(
            meshes,
            manager,
            variant,
            i,
        ) < place(meshes, manager, variant, j),
    decreases j,
{
    if i < j {
        lemma_place_grows(meshes, manager, variant, i, (j - 1) as nat);
    }
}

/// A mesh of `variant` stands at its place among the selected meshes.
pub proof fn lemma_select_places(
    meshes: Seq<Mesh>,
    manager: &MaterialManager,
    variant: MaterialVariant,
    i: nat,
    count: nat,
)
    requires
        i < count,
        manager.spec_variant(meshes[i as int].spec_mat_name()) == Some(variant),
    ensures
        place(meshes, manager, variant, i) < select(meshes, manager, variant, count).len(),
        select(meshes, manager, variant, count)[place(meshes, manager, variant, i) as int]
            == meshes[i as int],
    decreases count,
{
    if i + 1 < count {
        lemma_select_places(meshes, manager, variant, i, (count - 1) as nat);
    }
}

/// Meshes that go into the same bucket keep the order in which they came:
/// of two meshes of `variant`, the one that came first stands first.
pub proof fn lemma_select_keeps_order(
    meshes: Seq<Mesh>,
    manager: &MaterialManager,
    variant: MaterialVariant,
    i: nat,
    j: nat,
)
    requires
        i < j < meshes.len(),
        manager.spec_variant(meshes[i as int].spec_mat_name()) == Some(variant),
        manager.spec_variant(meshes[j as int].spec_mat_name()) == Some(variant),
    ensures
        ({
            let selected = select(meshes, manager, variant, meshes.len());
            let first = place(meshes, manager, variant, i) as int;
            let second = place(meshes, manager, variant, j) as int;
            &&& first < second < selected.len()
            &&& selected[first] == meshes[i as int]
            &&& selected[second] == meshes[j as int]
        }),
{
    lemma_place_grows(meshes, manager, variant, i, j);
    lemma_select_places(meshes, manager, variant, i, meshes.len());
    lemma_select_places(meshes, manager, variant, j, meshes.len());
}

} // verus!
