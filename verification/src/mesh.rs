//! Meshes given as parallel tables of positions, normals and texture
//! coordinates, as mesh data modules hand them out.
use vstd::prelude::*;
use crate::common::{Vertex, VertexModel, position_of};
use crate::geometry::{coords_of, uv_of};

verus! {

/// The vertex that the tables give at whole-unit position `p`, with normal
/// `n`, texture coordinates `uv` and material 0; its position is stored in
/// half units.
pub open spec fn table_vertex(p: [i8; 3], n: [i8; 3], uv: [u8; 2]) -> VertexModel {
    VertexModel {
        position: (2 * p[0], 2 * p[1], 2 * p[2]),
        normal: coords_of(n),
        tex_coords: uv_of(uv),
        material_id: 0,
    }
}

fn vertex(p: [i8; 3], n: [i8; 3], uv: [u8; 2], material_id: u32) -> (r: Vertex)
    ensures
        position_of(r.position) == (2 * p[0], 2 * p[1], 2 * p[2]),
        r.normal == n,
        r.tex_coords == uv,
        r.material_id == material_id,
{
    Vertex {
        position: [2 * (p[0] as i64), 2 * (p[1] as i64), 2 * (p[2] as i64)],
        normal: n,
        tex_coords: uv,
        material_id,
    }
}

/// One vertex per entry of `pos`, taking the normal and texture coordinates
/// at the same index and material 0.
pub fn create_vertices(pos: &Vec<[i8; 3]>, normal: &Vec<[i8; 3]>, tex_coords: &Vec<[u8; 2]>) -> (r: Vec<Vertex>)
    requires
        normal@.len() >= pos@.len(),
        tex_coords@.len() >= pos@.len(),
    ensures
        r@.len() == pos@.len(),
        forall|i: int|
            0 <= i < pos@.len() ==> (#[trigger] r@[i])@ == table_vertex(pos@[i], normal@[i], tex_coords@[i]),
{
    let mut data: Vec<Vertex> = Vec::with_capacity(pos.len());
    for i in 0..pos.len()
        invariant
            normal@.len() >= pos@.len(),
            tex_coords@.len() >= pos@.len(),
            data@.len() == i,
            forall|k: int|
                0 <= k < i ==> (#[trigger] data@[k])@ == table_vertex(pos@[k], normal@[k], tex_coords@[k]),
    {
        data.push(vertex(pos[i], normal[i], tex_coords[i], 0));
    }
    data
}

/// A table vertex keeps its table's entries: its position, in half units, is
/// twice the whole-unit table position on every axis, its normal and texture
/// coordinates are the table's, and its material is the default one (0).
pub proof fn lemma_table_vertex(p: [i8; 3], n: [i8; 3], uv: [u8; 2])
    ensures
        table_vertex(p, n, uv).position == (2 * p[0], 2 * p[1], 2 * p[2]),
        table_vertex(p, n, uv).normal == (n[0] as int, n[1] as int, n[2] as int),
        table_vertex(p, n, uv).tex_coords == (uv[0] as int, uv[1] as int),
        table_vertex(p, n, uv).material_id == 0,
{
}

} // verus!
