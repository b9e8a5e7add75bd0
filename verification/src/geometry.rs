//! The fixed triangle geometry and the vertex layout the pipeline consumes.
//!
//! Vertex positions are clip-space coordinates held in tenths, as plain
//! integers; the shell scales them to the 32-bit float pairs the GPU buffer
//! holds. The triangle is built once and never mutated.

use vstd::prelude::*;

verus! {

/// A 2D clip-space position, in tenths of a unit.
#[derive(Clone, Copy, Debug, PartialEq, Eq, Structural)]
pub struct VertexPos {
    pub x_tenths: i32,
    pub y_tenths: i32,
}

/// The one triangle this client ever draws: (0.0, 0.6), (-0.6, -0.6), (0.6, -0.6).
pub open spec fn triangle_spec() -> Seq<VertexPos> {
    seq![
        (VertexPos { x_tenths: 0i32, y_tenths: 6i32 }),
        (VertexPos { x_tenths: -6i32, y_tenths: -6i32 }),
        (VertexPos { x_tenths: 6i32, y_tenths: -6i32 }),
    ]
}

/// Build the fixed triangle's vertices.
pub fn triangle() -> (v: Vec<VertexPos>)
    ensures
        v@ == triangle_spec(),
        v@.len() == 3,
{
    let mut v: Vec<VertexPos> = Vec::new();
    v.push(VertexPos { x_tenths: 0, y_tenths: 6 });
    v.push(VertexPos { x_tenths: -6, y_tenths: -6 });
    v.push(VertexPos { x_tenths: 6, y_tenths: -6 });
    proof {
        assert(v@ =~= triangle_spec());
    }
    v
}

/// How the vertex buffer is walked by the vertex stage: one attribute, a
/// two-component 32-bit float position at shader location 0, at a stride of
/// one vertex record, advancing once per vertex (not per instance).
#[derive(Clone, Copy, Debug, PartialEq, Eq, Structural)]
pub struct VertexLayout {
    /// Bytes from one vertex record to the next.
    pub array_stride: u64,
    /// True would mean the attribute advances per instance; this layout
    /// advances per vertex.
    pub per_instance: bool,
    /// Shader location of the single position attribute.
    pub attr_shader_location: u32,
    /// Number of components of the attribute.
    pub attr_components: u32,
    /// Width of each component in bits.
    pub attr_component_bits: u32,
}

/// The layout of the fixed vertex format: two 32-bit floats, tightly packed.
pub open spec fn vertex_layout_spec() -> VertexLayout {
    VertexLayout {
        array_stride: 8,
        per_instance: false,
        attr_shader_location: 0,
        attr_components: 2,
        attr_component_bits: 32,
    }
}

/// Describe the vertex layout the pipeline is built against.
pub fn vertex_layout() -> (l: VertexLayout)
    ensures
        l == vertex_layout_spec(),
{
    VertexLayout {
        array_stride: 8,
        per_instance: false,
        attr_shader_location: 0,
        attr_components: 2,
        attr_component_bits: 32,
    }
}

} // verus!
