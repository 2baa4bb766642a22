//! Meshes that keep each vertex component in a buffer of its own.

use vstd::prelude::*;
use vstd::layout::size_of;
use crate::buffer::{BufferUsage, ManagedBuffer, INDEX, VERTEX};
use crate::model::SourceModel;

verus! {

/// The handles of the buffers that a mesh may need, one for each component.
#[derive(Debug, Clone, Copy, PartialEq, Eq, Structural)]
pub struct MeshHandles {
    pub positions: u64,
    pub normals: u64,
    pub texcoords: u64,
    pub indices: u64,
}

/// The buffers of one mesh: positions and indices, and normals and texture
/// coordinates where the model has them.
#[derive(Debug)]
pub struct Mesh {
    positions: ManagedBuffer,
    normals: Option<ManagedBuffer>,
    texcoords: Option<ManagedBuffer>,
    indices: ManagedBuffer,
}

/// `buffer` holds `len` elements of `elem` bytes each under `handle`, for
/// the use `usage`.
pub open spec fn holds(buffer: ManagedBuffer, handle: u64, usage: u32, elem: nat, len: nat) -> bool {
    &&& buffer.spec_handle() == handle
    &&& buffer.spec_usage() == BufferUsage { bits: usage }
    &&& buffer.spec_size_bytes() == elem * len
}

/// `buffer` is there exactly if the component has elements, and then holds them.
pub open spec fn holds_if_any(
    buffer: Option<ManagedBuffer>,
    handle: u64,
    usage: u32,
    elem: nat,
    len: nat,
) -> bool {
    match buffer {
        Some(b) => len > 0 && holds(b, handle, usage, elem, len),
        None => len == 0,
    }
}

impl Mesh {
    pub closed spec fn spec_positions(&self) -> ManagedBuffer {
        self.positions
    }

    pub closed spec fn spec_normals(&self) -> Option<ManagedBuffer> {
        self.normals
    }

    pub closed spec fn spec_texcoords(&self) -> Option<ManagedBuffer> {
        self.texcoords
    }

    pub closed spec fn spec_indices(&self) -> ManagedBuffer {
        self.indices
    }

    /// The buffers of `model`: one for the positions and one for the indices,
    /// and one each for normals and texture coordinates if the model has any.
    pub fn load<T>(handles: MeshHandles, model: &SourceModel<T>) -> (mesh: Self)
        requires
            size_of::<T>() * model.positions@.len() <= usize::MAX,
            size_of::<T>() * model.normals@.len() <= usize::MAX,
            size_of::<T>() * model.texcoords@.len() <= usize::MAX,
            4 * model.indices@.len() <= usize::MAX,
        ensures
            holds(
                mesh.spec_positions(),
                handles.positions,
                VERTEX,
                size_of::<T>(),
                model.positions@.len(),
            ),
            holds(mesh.spec_indices(), handles.indices, INDEX, 4, model.indices@.len()),
            holds_if_any(
                mesh.spec_normals(),
                handles.normals,
                VERTEX,
                size_of::<T>(),
                model.normals@.len(),
            ),
            holds_if_any(
                mesh.spec_texcoords(),
                handles.texcoords,
                VERTEX,
                size_of::<T>(),
                model.texcoords@.len(),
            ),
    {
        broadcast use vstd::layout::layout_of_primitives;

        let vertex = BufferUsage { bits: VERTEX };
        let positions = ManagedBuffer::from_data(handles.positions, vertex, model.positions.as_slice());
        let indices = ManagedBuffer::from_data(
            handles.indices,
            BufferUsage { bits: INDEX },
            model.indices.as_slice(),
        );
        let normals = if model.normals.len() > 0 {
            Some(ManagedBuffer::from_data(handles.normals, vertex, model.normals.as_slice()))
        } else {
            None
        };
        let texcoords = if model.texcoords.len() > 0 {
            Some(ManagedBuffer::from_data(handles.texcoords, vertex, model.texcoords.as_slice()))
        } else {
            None
        };
        Mesh { positions, normals, texcoords, indices }
    }

    pub fn positions_buffer(&self) -> (buffer: &ManagedBuffer)
        ensures
            *buffer == self.spec_positions(),
    {
        &self.positions
    }

    pub fn normals_buffer(&self) -> (buffer: Option<&ManagedBuffer>)
        ensures
            match buffer {
                Some(b) => self.spec_normals() == Some(*b),
                None => self.spec_normals().is_none(),
            },
    {
        self.normals.as_ref()
    }

    pub fn texcoords_buffer(&self) -> (buffer: Option<&ManagedBuffer>)
        ensures
            match buffer {
                Some(b) => self.spec_texcoords() == Some(*b),
                None => self.spec_texcoords().is_none(),
            },
    {
        self.texcoords.as_ref()
    }

    pub fn indices_buffer(&self) -> (buffer: &ManagedBuffer)
        ensures
            *buffer == self.spec_indices(),
    {
        &self.indices
    }
}

} // verus!
