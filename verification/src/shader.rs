//! The shader that draws solid objects of one colour.

use vstd::prelude::*;
use crate::bind_group::BindGroupLayoutBuilder;
use crate::material::{global_layout, global_slots, material_layout, material_slots, MaterialVariant};
use crate::pipeline::VertexStateDescriptor;
use crate::renderer::{is_vertex_state, vertex_state};

verus! {

/// Draws objects of one colour, lit by one light: vertices of position and
/// normal, the transforms and the light shared, the colour per object.
#[derive(Debug, Clone, Copy, PartialEq, Eq, Structural)]
pub struct SolidShader;

impl SolidShader {
    /// The slots that all objects share: the transforms, then the light.
    pub fn global_layout() -> (builder: BindGroupLayoutBuilder)
        ensures
            builder.slots() == global_slots(MaterialVariant::FixedAlbedo),
            builder.tag() == Some("SolidShader GLOBAL_LAYOUT_DESC"@),
    {
        global_layout(MaterialVariant::FixedAlbedo).with_tag("SolidShader GLOBAL_LAYOUT_DESC")
    }

    /// The slot that each object fills: its colour.
    pub fn element_layout() -> (builder: BindGroupLayoutBuilder)
        ensures
            builder.slots() == material_slots(MaterialVariant::FixedAlbedo),
            builder.tag() == Some("SolidShader ELEMENT_LAYOUT_DESC"@),
    {
        material_layout(MaterialVariant::FixedAlbedo).with_tag("SolidShader ELEMENT_LAYOUT_DESC")
    }

    /// The vertex input: position and normal, 24 bytes per vertex.
    pub fn vertex_state() -> (state: VertexStateDescriptor)
        ensures
            is_vertex_state(state, MaterialVariant::FixedAlbedo),
            state.vertex_buffers@[0].stride == 24,
    {
        vertex_state(MaterialVariant::FixedAlbedo)
    }
}

} // verus!
