//! Meshes and what an importer's arrays are turned into.
//!
//! An importer hands over flat arrays: three position components per vertex,
//! three normal components, two texture coordinates, and indices. The vertex
//! buffer of a mesh holds them interleaved, vertex by vertex.

use vstd::prelude::*;
use crate::buffer::ManagedBuffer;
use crate::material::{MaterialManager, MaterialVariant};

verus! {

/// A drawable mesh: its vertices, its indices, and the material it is drawn with.
#[derive(Debug)]
pub struct Mesh {
    vertex_buffer: ManagedBuffer,
    indices_buffer: ManagedBuffer,
    indices_count: u32,
    mat_name: String,
}

impl Mesh {
    pub closed spec fn spec_vertex_buffer(&self) -> ManagedBuffer {
        self.vertex_buffer
    }

    pub closed spec fn spec_indices_buffer(&self) -> ManagedBuffer {
        self.indices_buffer
    }

    pub closed spec fn spec_indices_count(&self) -> u32 {
        self.indices_count
    }

    pub closed spec fn spec_mat_name(&self) -> Seq<char> {
        self.mat_name@
    }

    pub fn new(
        vertex_buffer: ManagedBuffer,
        indices_buffer: ManagedBuffer,
        indices_count: u32,
        mat_name: String,
    ) -> (mesh: Self)
        ensures
            mesh.spec_vertex_buffer() == vertex_buffer,
            mesh.spec_indices_buffer() == indices_buffer,
            mesh.spec_indices_count() == indices_count,
            mesh.spec_mat_name() == mat_name@,
    {
        Mesh { vertex_buffer, indices_buffer, indices_count, mat_name }
    }

    pub fn get_mat_name(&self) -> (name: &str)
        ensures
            name@ == self.spec_mat_name(),
    {
        self.mat_name.as_str()
    }

    pub fn get_indices_count(&self) -> (count: u32)
        ensures
            count == self.spec_indices_count(),
    {
        self.indices_count
    }

    pub fn get_indices_buffer(&self) -> (buffer: &ManagedBuffer)
        ensures
            *buffer == self.spec_indices_buffer(),
    {
        &self.indices_buffer
    }

    pub fn get_vertex_buffer(&self) -> (buffer: &ManagedBuffer)
        ensures
            *buffer == self.spec_vertex_buffer(),
    {
        &self.vertex_buffer
    }
}

/// Whether every index of `indices` is below `vertex_len`.
pub open spec fn spec_indices_in_range(vertex_len: nat, indices: Seq<u32>) -> bool {
    forall|i: int| 0 <= i < indices.len() ==> (#[trigger] indices[i]) < vertex_len
}

/// Whether every index of `indices` names an element of an array of
/// `vertex_len` elements.
pub fn indices_in_range(vertex_len: usize, indices: &[u32]) -> (yes: bool)
    ensures
        yes == spec_indices_in_range(vertex_len as nat, indices@),
{
    let mut i: usize = 0;
    while i < indices.len()
        invariant
            i <= indices@.len(),
            forall|k: int| 0 <= k < i ==> (#[trigger] indices@[k]) < vertex_len,
        decreases indices@.len() - i,
    {
        if indices[i] as usize >= vertex_len {
            return false;
        }
        i = i + 1;
    }
    true
}

/// The number of chunks of `size` elements that `len` elements make, a
/// shorter last chunk counted.
pub open spec fn chunk_count(len: nat, size: nat) -> nat
    recommends
        size > 0,
{
    (len / size + if len % size != 0 {
        1nat
    } else {
        0nat
    }) as nat
}

/// Chunk `i` of `data` cut into chunks of `size` elements; the last chunk
/// may be shorter.
pub open spec fn chunk<T>(data: Seq<T>, size: nat, i: int) -> Seq<T>
    recommends
        size > 0,
{
    let start = size * i;
    let end = if start + size <= data.len() {
        start + size
    } else {
        data.len() as int
    };
    data.subrange(start, end)
}

/// The number of vertices that the arrays make together: as many as the
/// shortest of them has chunks.
pub open spec fn vertex_count(
    positions: nat,
    texcoords: nat,
    normals: nat,
    with_texcoords: bool,
) -> nat {
    let p = chunk_count(positions, 3);
    let n = chunk_count(normals, 3);
    let t = chunk_count(texcoords, 2);
    let pn = if p <= n {
        p
    } else {
        n
    };
    if with_texcoords && t < pn {
        t
    } else {
        pn
    }
}

/// The first `count` vertices, interleaved: for each vertex its position,
/// its texture coordinates where they are asked for, and its normal.
pub open spec fn spec_interleave<T>(
    positions: Seq<T>,
    texcoords: Seq<T>,
    normals: Seq<T>,
    with_texcoords: bool,
    count: nat,
) -> Seq<T>
    decreases count,
{
    if count == 0 {
        Seq::empty()
    } else {
        let i = count - 1;
        spec_interleave(positions, texcoords, normals, with_texcoords, i as nat) + chunk(
            positions,
            3,
            i,
        ) + (if with_texcoords {
            chunk(texcoords, 2, i)
        } else {
            Seq::empty()
        }) + chunk(normals, 3, i)
    }
}

fn count_chunks(len: usize, size: usize) -> (count: usize)
    requires
        size > 1,
    ensures
        count == chunk_count(len as nat, size as nat),
        count > 0 ==> size * (count - 1) < len,
        count <= len,
{
    let whole: usize = len / size;
    assert(size * whole <= len) by (nonlinear_arith)
        requires
            whole == len as int / size as int,
            size > 0,
    ;
    assert(whole <= size * whole) by (nonlinear_arith)
        requires
            size > 1,
            whole >= 0,
    ;
    if len % size != 0 {
        assert(size * whole < len) by (nonlinear_arith)
            requires
                whole == len as int / size as int,
                len as int % size as int != 0,
                size > 0,
        ;
        whole + 1
    } else {
        assert(whole > 0 ==> size * (whole - 1) < len) by (nonlinear_arith)
            requires
                size * whole <= len,
                size > 0,
        ;
        whole
    }
}

fn push_chunk<T: Copy>(out: &mut Vec<T>, data: &[T], size: usize, i: usize)
    requires
        size > 0,
        size * i < data@.len(),
    ensures
        final(out)@ == old(out)@ + chunk(data@, size as nat, i as int),
{
    let len: usize = data.len();
    let start: usize = size * i;
    let end: usize = if len - start >= size {
        start + size
    } else {
        len
    };
    let ghost before = out@;
    let mut k: usize = start;
    while k < end
        invariant
            start <= k <= end <= data@.len(),
            out@ == before + data@.subrange(start as int, k as int),
        decreases end - k,
    {
        out.push(data[k]);
        assert(out@ =~= before + data@.subrange(start as int, k as int + 1));
        k = k + 1;
    }
}

/// Interleaves the arrays of an importer into the content of a vertex buffer.
///
/// The arrays must agree on the number of whole vertices that they describe.
pub fn interleave<T: Copy>(
    positions: &[T],
    texcoords: &[T],
    normals: &[T],
    with_texcoords: bool,
) -> (vertices: Vec<T>)
    requires
        positions@.len() / 3 == normals@.len() / 3,
        with_texcoords ==> positions@.len() / 3 == texcoords@.len() / 2,
    ensures
        vertices@ == spec_interleave(
            positions@,
            texcoords@,
            normals@,
            with_texcoords,
            vertex_count(positions@.len(), texcoords@.len(), normals@.len(), with_texcoords),
        ),
{
    let p: usize = count_chunks(positions.len(), 3);
    let n: usize = count_chunks(normals.len(), 3);
    let t: usize = count_chunks(texcoords.len(), 2);
    let pn: usize = if p <= n {
        p
    } else {
        n
    };
    let count: usize = if with_texcoords && t < pn {
        t
    } else {
        pn
    };
    let mut vertices: Vec<T> = Vec::new();
    let mut i: usize = 0;
    while i < count
        invariant
            i <= count,
            count <= p,
            count <= n,
            with_texcoords ==> count <= t,
            p > 0 ==> 3 * (p - 1) < positions@.len(),
            n > 0 ==> 3 * (n - 1) < normals@.len(),
            t > 0 ==> 2 * (t - 1) < texcoords@.len(),
            vertices@ == spec_interleave(
                positions@,
                texcoords@,
                normals@,
                with_texcoords,
                i as nat,
            ),
        decreases count - i,
    {
        push_chunk(&mut vertices, positions, 3, i);
        if with_texcoords {
            push_chunk(&mut vertices, texcoords, 2, i);
        }
        push_chunk(&mut vertices, normals, 3, i);
        assert(vertices@ =~= spec_interleave(
            positions@,
            texcoords@,
            normals@,
            with_texcoords,
            (i + 1) as nat,
        ));
        i = i + 1;
    }
    vertices
}

/// Arrays that hold whole vertices only interleave to six elements per
/// vertex without texture coordinates, and to eight with them.
pub proof fn lemma_interleave_len<T>(
    positions: Seq<T>,
    texcoords: Seq<T>,
    normals: Seq<T>,
    with_texcoords: bool,
    count: nat,
)
    requires
        3 * count <= positions.len(),
        3 * count <= normals.len(),
        with_texcoords ==> 2 * count <= texcoords.len(),
    ensures
        spec_interleave(positions, texcoords, normals, with_texcoords, count).len() == if with_texcoords {
            8 * count
        } else {
            6 * count
        },
    decreases count,
{
    if count > 0 {
        lemma_interleave_len(positions, texcoords, normals, with_texcoords, (count - 1) as nat);
    }
}

/// The positions that the indices name, one vertex of up to three components
/// for each index, in the order of the indices.
pub open spec fn spec_expand_positions<T>(positions: Seq<T>, indices: Seq<u32>) -> Seq<T>
    decreases indices.len(),
{
    if indices.len() == 0 {
        Seq::empty()
    } else {
        let start = 3 * indices.last();
        spec_expand_positions(positions, indices.drop_last()) + (if start < positions.len() {
            chunk(positions, 3, indices.last() as int)
        } else {
            Seq::empty()
        })
    }
}

/// Writes out the position of every index of `indices`: a flat array of
/// vertices that can be drawn without indices. An index past the end of
/// `positions` contributes nothing.
pub fn expand_positions<T: Copy>(positions: &[T], indices: &[u32]) -> (vertices: Vec<T>)
    ensures
        vertices@ == spec_expand_positions(positions@, indices@),
{
    let mut vertices: Vec<T> = Vec::new();
    let mut i: usize = 0;
    while i < indices.len()
        invariant
            i <= indices@.len(),
            vertices@ == spec_expand_positions(positions@, indices@.take(i as int)),
        decreases indices@.len() - i,
    {
        let index: u64 = indices[i] as u64;
        proof {
            let next = indices@.take(i as int + 1);
            assert(next.drop_last() =~= indices@.take(i as int));
            assert(next.last() == indices@[i as int]);
        }
        if 3 * index < positions.len() as u64 {
            push_chunk(&mut vertices, positions, 3, index as usize);
        } else {
            assert(vertices@ + Seq::<T>::empty() =~= vertices@);
        }
        i = i + 1;
    }
    assert(indices@.take(i as int) =~= indices@);
    vertices
}

/// What an importer hands over for one model.
#[derive(Debug)]
pub struct SourceModel<T> {
    pub positions: Vec<T>,
    pub normals: Vec<T>,
    pub texcoords: Vec<T>,
    pub indices: Vec<u32>,
    /// The position of the model's material among the imported materials.
    pub material_id: Option<usize>,
}

/// What a mesh is made from: the content of its vertex buffer, the model
/// whose indices it is drawn with, and the name of its material.
#[derive(Debug)]
pub struct MeshData<T> {
    pub vertices: Vec<T>,
    pub model: usize,
    pub indices_count: u32,
    pub mat_name: String,
}

/// What a [`MeshData`] holds, as mathematical values.
pub struct MeshDataView<T> {
    pub vertices: Seq<T>,
    pub model: usize,
    pub indices_count: u32,
    pub mat_name: Seq<char>,
}

impl<T> View for MeshData<T> {
    type V = MeshDataView<T>;

    open spec fn view(&self) -> MeshDataView<T> {
        MeshDataView {
            vertices: self.vertices@,
            model: self.model,
            indices_count: self.indices_count,
            mat_name: self.mat_name@,
        }
    }
}

/// What each of `meshes` holds.
pub open spec fn mesh_views<T>(meshes: Seq<MeshData<T>>) -> Seq<MeshDataView<T>> {
    Seq::new(meshes.len(), |k: int| meshes[k]@)
}

/// Whether the vertices of `model` carry texture coordinates: they do unless
/// the material is of one fixed colour.
pub open spec fn spec_needs_texcoords(manager: &MaterialManager, name: Seq<char>) -> bool {
    manager.spec_variant(name) != Some(MaterialVariant::FixedAlbedo)
}

/// `model` can be turned into a mesh: its material, if it names one, was
/// imported, its arrays agree on the number of vertices, and its indices can
/// be counted in 32 bits.
pub open spec fn spec_can_load<T>(
    model: &SourceModel<T>,
    material_names: Seq<String>,
    manager: &MaterialManager,
) -> bool {
    match model.material_id {
        None => true,
        Some(id) => {
            &&& id < material_names.len()
            &&& manager.spec_material(material_names[id as int]@).is_some()
            &&& model.positions@.len() / 3 == model.normals@.len() / 3
            &&& spec_needs_texcoords(manager, material_names[id as int]@)
                ==> model.positions@.len() / 3 == model.texcoords@.len() / 2
            &&& model.indices@.len() <= u32::MAX
        },
    }
}

/// The data of the mesh that model `i` makes.
pub open spec fn spec_mesh_of<T>(
    model: &SourceModel<T>,
    i: usize,
    material_names: Seq<String>,
    manager: &MaterialManager,
) -> MeshDataView<T>
    recommends
        model.material_id.is_some(),
{
    let id = model.material_id.unwrap();
    let with_texcoords = spec_needs_texcoords(manager, material_names[id as int]@);
    MeshDataView {
        vertices: spec_interleave(
            model.positions@,
            model.texcoords@,
            model.normals@,
            with_texcoords,
            vertex_count(
                model.positions@.len(),
                model.texcoords@.len(),
                model.normals@.len(),
                with_texcoords,
            ),
        ),
        model: i,
        indices_count: model.indices@.len() as u32,
        mat_name: material_names[id as int]@,
    }
}

/// The meshes that the first `count` models make, in the order of the
/// models; a model without a material makes none.
pub open spec fn spec_load<T>(
    models: Seq<SourceModel<T>>,
    material_names: Seq<String>,
    manager: &MaterialManager,
    count: nat,
) -> Seq<MeshDataView<T>>
    decreases count,
{
    if count == 0 {
        Seq::empty()
    } else {
        let i = (count - 1) as usize;
        let before = spec_load(models, material_names, manager, (count - 1) as nat);
        match models[i as int].material_id {
            Some(_) => before.push(spec_mesh_of(&models[i as int], i, material_names, manager)),
            None => before,
        }
    }
}

/// The scene that a model file is loaded into.
#[derive(Debug, Clone, Copy, PartialEq, Eq, Structural)]
pub struct Scene;

impl Scene {
    /// Whether `model` can be turned into a mesh.
    pub fn can_load<T>(
        model: &SourceModel<T>,
        material_names: &Vec<String>,
        manager: &MaterialManager,
    ) -> (yes: bool)
        ensures
            yes == spec_can_load(model, material_names@, manager),
    {
        match model.material_id {
            None => true,
            Some(id) => {
                if id >= material_names.len() {
                    return false;
                }
                let needs = match manager.get_material(material_names[id].as_str()) {
                    Some(material) => match material.get_variant() {
                        MaterialVariant::FixedAlbedo => false,
                        _ => true,
                    },
                    None => { return false; },
                };
                model.positions.len() / 3 == model.normals.len() / 3 && (!needs
                    || model.positions.len() / 3 == model.texcoords.len() / 2)
                    && model.indices.len() <= 0xffff_ffff
            },
        }
    }

    /// Turns model `i` into the data of a mesh. A model without a material is
    /// skipped.
    pub fn load_model<T: Copy>(
        model: &SourceModel<T>,
        i: usize,
        material_names: &Vec<String>,
        manager: &MaterialManager,
    ) -> (data: Option<MeshData<T>>)
        requires
            spec_can_load(model, material_names@, manager),
        ensures
            match model.material_id {
                None => data.is_none(),
                Some(_) => data.is_some() && data.unwrap()@ == spec_mesh_of(
                    model,
                    i,
                    material_names@,
                    manager,
                ),
            },
    {
        let id: usize = match model.material_id {
            Some(id) => id,
            None => { return None; },
        };
        let mat_name = material_names[id].clone();
        let needs_tcoords = match manager.get_material(mat_name.as_str()) {
            Some(material) => match material.get_variant() {
                MaterialVariant::FixedAlbedo => false,
                _ => true,
            },
            None => true,
        };
        let vertices = interleave(
            model.positions.as_slice(),
            model.texcoords.as_slice(),
            model.normals.as_slice(),
            needs_tcoords,
        );
        Some(MeshData { vertices, model: i, indices_count: model.indices.len() as u32, mat_name })
    }

    /// Turns the models of a file into the data of the meshes to draw, in the
    /// order of the models; models without a material are skipped.
    pub fn load_from_obj<T: Copy>(
        &mut self,
        models: &Vec<SourceModel<T>>,
        material_names: &Vec<String>,
        manager: &MaterialManager,
    ) -> (meshes: Vec<MeshData<T>>)
        requires
            forall|i: int|
                0 <= i < models@.len() ==> spec_can_load(
                    #[trigger] &models@[i],
                    material_names@,
                    manager,
                ),
        ensures
            mesh_views(meshes@) == spec_load(models@, material_names@, manager, models@.len()),
    {
        let mut meshes: Vec<MeshData<T>> = Vec::new();
        let mut i: usize = 0;
        while i < models.len()
            invariant
                i <= models@.len(),
                forall|k: int|
                    0 <= k < models@.len() ==> spec_can_load(
                        #[trigger] &models@[k],
                        material_names@,
                        manager,
                    ),
                mesh_views(meshes@) == spec_load(models@, material_names@, manager, i as nat),
            decreases models@.len() - i,
        {
            match Scene::load_model(&models[i], i, material_names, manager) {
                Some(data) => {
                    let ghost before = mesh_views(meshes@);
                    meshes.push(data);
                    assert(mesh_views(meshes@) =~= before.push(data@));
                },
                None => {},
            }
            i = i + 1;
        }
        meshes
    }
}

impl Default for Scene {
    fn default() -> (scene: Self)
        ensures
            scene == Scene,
    {
        Scene
    }
}

/// Turns the models of a file into vertex buffer contents of position and normal.
#[derive(Debug)]
pub struct ModelImporter;

impl ModelImporter {
    /// The positions and normals of `model`, interleaved.
    pub open spec fn spec_vertices<T>(model: &SourceModel<T>) -> Seq<T> {
        spec_interleave(
            model.positions@,
            model.texcoords@,
            model.normals@,
            false,
            vertex_count(
                model.positions@.len(),
                model.texcoords@.len(),
                model.normals@.len(),
                false,
            ),
        )
    }

    /// `model` can be turned into a mesh: positions and normals agree on the
    /// number of vertices, and every index names an element of the vertex array.
    pub open spec fn spec_importable<T>(model: &SourceModel<T>) -> bool {
        &&& model.positions@.len() / 3 == model.normals@.len() / 3
        &&& spec_indices_in_range(Self::spec_vertices(model).len(), model.indices@)
    }

    /// The interleaved vertices of `model`, or nothing where the model
    /// cannot be turned into a mesh.
    pub fn interleave_model<T: Copy>(model: &SourceModel<T>) -> (vertices: Option<Vec<T>>)
        ensures
            match vertices {
                Some(v) => Self::spec_importable(model) && v@ == Self::spec_vertices(model),
                None => !Self::spec_importable(model),
            },
    {
        if model.positions.len() / 3 != model.normals.len() / 3 {
            return None;
        }
        let vertices = interleave(
            model.positions.as_slice(),
            model.texcoords.as_slice(),
            model.normals.as_slice(),
            false,
        );
        if !indices_in_range(vertices.len(), model.indices.as_slice()) {
            return None;
        }
        Some(vertices)
    }

    /// The vertex buffer contents of `models`, one for each model, in order.
    pub fn load_meshes_obj<T: Copy>(models: &Vec<SourceModel<T>>) -> (meshes: Vec<Vec<T>>)
        requires
            forall|i: int| 0 <= i < models@.len() ==> Self::spec_importable(#[trigger] &models@[i]),
        ensures
            meshes@.len() == models@.len(),
            forall|i: int|
                0 <= i < models@.len() ==> (#[trigger] meshes@[i])@ == Self::spec_vertices(
                    &models@[i],
                ),
    {
        let mut meshes: Vec<Vec<T>> = Vec::new();
        let mut i: usize = 0;
        while i < models.len()
            invariant
                i <= models@.len(),
                meshes@.len() == i,
                forall|k: int|
                    0 <= k < models@.len() ==> Self::spec_importable(#[trigger] &models@[k]),
                forall|k: int|
                    0 <= k < i ==> (#[trigger] meshes@[k])@ == Self::spec_vertices(&models@[k]),
            decreases models@.len() - i,
        {
            let model = &models[i];
            assert(Self::spec_importable(&models@[i as int]));
            let vertices = interleave(
                model.positions.as_slice(),
                model.texcoords.as_slice(),
                model.normals.as_slice(),
                false,
            );
            meshes.push(vertices);
            i = i + 1;
        }
        meshes
    }
}

} // verus!
