//! The vertex and light records that the renderer uploads to the GPU.
//!
//! Both are kept here with integer fields: vertex positions in half units
//! (twice the world coordinate, so that the faces of unit blocks, half a unit
//! from their centres, stay on the grid) and light quantities in hundredths.
//! The renderer turns them into `f32` values when it fills its buffers, and
//! appends the homogeneous coordinate `w = 1` to positions and normals.
use vstd::prelude::*;
use crate::geometry::{Coord3, coords_of, uv_of};

verus! {

/// One vertex of a mesh.
#[derive(Clone, Copy, Debug)]
pub struct Vertex {
    /// Position in half units: each coordinate is twice the world coordinate.
    pub position: [i64; 3],
    /// Normal of the face that the vertex belongs to.
    pub normal: [i8; 3],
    /// Texture coordinates.
    pub tex_coords: [u8; 2],
    /// Index of the vertex's material in the renderer's material table.
    pub material_id: u32,
}

/// What a vertex holds, as mathematical integers.
pub struct VertexModel {
    pub position: Coord3,
    pub normal: Coord3,
    pub tex_coords: (int, int),
    pub material_id: int,
}

pub open spec fn position_of(a: [i64; 3]) -> Coord3 {
    (a[0] as int, a[1] as int, a[2] as int)
}

impl View for Vertex {
    type V = VertexModel;

    open spec fn view(&self) -> VertexModel {
        VertexModel {
            position: position_of(self.position),
            normal: coords_of(self.normal),
            tex_coords: uv_of(self.tex_coords),
            material_id: self.material_id as int,
        }
    }
}

/// The views of a sequence of vertices.
pub open spec fn vertex_models(s: Seq<Vertex>) -> Seq<VertexModel> {
    s.map_values(|v: Vertex| v@)
}

/// Builds a vertex from its position (in half units), normal, texture
/// coordinates and material.
pub fn vertex(p: [i64; 3], n: [i8; 3], uv: [u8; 2], material_id: u32) -> (r: Vertex)
    ensures
        r@ == (VertexModel {
            position: position_of(p),
            normal: coords_of(n),
            tex_coords: uv_of(uv),
            material_id: material_id as int,
        }),
{
    Vertex { position: p, normal: n, tex_coords: uv, material_id }
}

/// The light of the scene; every quantity is in hundredths (100 stands for 1.0).
#[derive(Clone, Copy, Debug)]
pub struct Light {
    /// Diffuse colour, red, green, blue and alpha.
    pub color: [u32; 4],
    /// Specular colour, red, green, blue and alpha.
    pub specular_color: [u32; 4],
    pub ambient_intensity: u32,
    pub diffuse_intensity: u32,
    pub specular_intensity: u32,
    pub specular_shininess: u32,
}

/// Builds a light from its colours and intensities, all in hundredths; both
/// colours get an opaque alpha (100).
pub fn light(c: [u32; 3], sc: [u32; 3], ai: u32, di: u32, si: u32, ss: u32) -> (r: Light)
    ensures
        r.color@ == seq![c[0], c[1], c[2], 100u32],
        r.specular_color@ == seq![sc[0], sc[1], sc[2], 100u32],
        r.ambient_intensity == ai,
        r.diffuse_intensity == di,
        r.specular_intensity == si,
        r.specular_shininess == ss,
{
    let r = Light {
        color: [c[0], c[1], c[2], 100],
        specular_color: [sc[0], sc[1], sc[2], 100],
        ambient_intensity: ai,
        diffuse_intensity: di,
        specular_intensity: si,
        specular_shininess: ss,
    };
    assert(r.color@ =~= seq![c[0], c[1], c[2], 100u32]);
    assert(r.specular_color@ =~= seq![sc[0], sc[1], sc[2], 100u32]);
    r
}

} // verus!
