//! The skybox: a large cube around the scene, seen from inside.
use vstd::prelude::*;
use crate::common::{Vertex, VertexModel, vertex, vertex_models};
use crate::geometry::{
    Coord3, corner_offset, corner_uv, cross3, cube_corner, dot3, face_normal, face_uv_pattern,
    lemma_corner_on_face, lemma_corner_texture, neg3, on_unit_cube, scale3,
    sub3, texture_point,
};
use crate::diorama::{blocks_vertices, island_layout, stone_base, grass_layer,
    water_source, greenhouse, diamond_column, tree, glass_cell};

verus! {

/// Half the skybox's edge (its distance from the centre to each face), in
/// half units: 200 world units.
pub open spec fn skybox_half_extent() -> int {
    400
}

/// The material of the skybox in the renderer's material table.
pub open spec fn skybox_material_id() -> int {
    5
}

/// Vertex `i` (0 <= i < 36) of the skybox: the corner of the cube of half
/// extent 200 around the origin, with the normal of its face turned inward.
pub open spec fn skybox_vertex(i: int) -> VertexModel {
    VertexModel {
        position: scale3(skybox_half_extent(), corner_offset(i)),
        normal: neg3(face_normal(i / 6)),
        tex_coords: corner_uv(i % 6),
        material_id: skybox_material_id(),
    }
}

pub open spec fn skybox_vertices() -> Seq<VertexModel> {
    Seq::new(36, |i: int| skybox_vertex(i))
}

/// The 36 vertices of the skybox.
pub fn create_skybox_vertices() -> (r: Vec<Vertex>)
    ensures
        vertex_models(r@) == skybox_vertices(),
        r@.len() == 36,
{
    let mut vertices: Vec<Vertex> = Vec::new();
    let size: i64 = 400;
    for i in 0..36usize
        invariant
            size == skybox_half_extent(),
            vertices@.len() == i,
            forall|k: int| 0 <= k < i ==> (#[trigger] vertices@[k])@ == skybox_vertex(k),
    {
        let (offset, normal, uv) = cube_corner(i);
        let p: [i64; 3] = [
            size * offset[0] as i64,
            size * offset[1] as i64,
            size * offset[2] as i64,
        ];
        let inward: [i8; 3] = [-normal[0], -normal[1], -normal[2]];
        vertices.push(vertex(p, inward, uv, 5));
    }
    assert(vertex_models(vertices@) =~= skybox_vertices());
    vertices
}

/// The skybox's normals point inward: every vertex lies on its face, 200
/// units (400 half units) from the centre, and its normal points back toward
/// the centre.
pub proof fn lemma_skybox_normals_inward(i: int)
    requires
        0 <= i < 36,
    ensures
        dot3(skybox_vertex(i).position, skybox_vertex(i).normal) == -400,
{
    lemma_corner_on_face(i);
    let o = corner_offset(i);
    let n = face_normal(i / 6);
    assert(dot3(scale3(400, o), neg3(n)) == -400 * dot3(o, n)) by (nonlinear_arith);
}

/// `p` (half units) lies strictly inside the skybox's cube, 200 units out on
/// every axis.
pub open spec fn strictly_inside_skybox(p: Coord3) -> bool {
    &&& -400 < p.0 < 400
    &&& -400 < p.1 < 400
    &&& -400 < p.2 < 400
}

pub open spec fn near_origin(c: Coord3) -> bool {
    &&& -10 <= c.0 <= 10
    &&& -10 <= c.1 <= 10
    &&& -10 <= c.2 <= 10
}

proof fn lemma_island_near_origin()
    ensures
        forall|b: int| 0 <= b < island_layout().len() ==> near_origin(#[trigger] island_layout()[b].0),
{
    let l = island_layout();
    assert forall|b: int| 0 <= b < l.len() implies near_origin(#[trigger] l[b].0) by {
        if b < 25 {
            assert(l[b] == stone_base()[b]);
        } else if b < 34 {
            assert(l[b] == grass_layer()[b - 25]);
        } else if b < 35 {
            assert(l[b] == water_source()[b - 34]);
        } else if b < 51 {
            assert(l[b] == greenhouse()[b - 35]);
            let c = glass_cell((b - 35) / 2);
            assert(0 <= c < 9);
        } else if b < 54 {
            assert(l[b] == diamond_column()[b - 51]);
        } else {
            assert(l[b] == tree()[b - 54]);
        }
    }
}

/// The skybox encloses the island: every vertex drawn for the island's
/// blocks lies strictly inside the skybox's cube.
pub proof fn lemma_skybox_encloses_island(j: int)
    requires
        0 <= j < blocks_vertices(island_layout()).len(),
    ensures
        strictly_inside_skybox(blocks_vertices(island_layout())[j].position),
{
    lemma_island_near_origin();
    let b = j / 36;
    assert(0 <= b < island_layout().len());
    assert(near_origin(island_layout()[b].0));
    lemma_corner_on_face(j % 36);
}

/// The sky texture covers every face of the skybox whole, upright and
/// unmirrored as seen from outside: vertex `i` has the texture coordinates
/// of corner `i % 6` of the face pattern (0,0) (1,0) (0,1) (0,1) (1,0) (1,1),
/// lies at the corner that these coordinates name on the face whose outward
/// normal is the opposite of its own (inward) normal, 200 units out on every
/// axis, and carries the skybox's material.
pub proof fn lemma_skybox_texture(i: int)
    requires
        0 <= i < 36,
    ensures
        ({
            let v = skybox_vertex(i);
            &&& v.tex_coords == face_uv_pattern()[i % 6]
            &&& v.position == scale3(400, texture_point(neg3(v.normal), v.tex_coords))
            &&& on_unit_cube(texture_point(neg3(v.normal), v.tex_coords))
            &&& v.material_id == 5
        }),
{
    lemma_corner_texture(i);
    lemma_corner_on_face(i);
    let n = face_normal(i / 6);
    assert(neg3(neg3(n)) == n);
}

/// Every skybox triangle is wound counter-clockwise as seen from outside
/// the skybox (the cross product of its edges is 640000, that is 4 x 400 x
/// 400, times the outward direction, the opposite of its normal), and its
/// three vertices share their inward normal.
pub proof fn lemma_skybox_winding(t: int) by (nonlinear_arith)
    requires
        0 <= t < 12,
    ensures
        ({
            let a = skybox_vertex(3 * t);
            let b = skybox_vertex(3 * t + 1);
            let c = skybox_vertex(3 * t + 2);
            &&& a.normal == b.normal && a.normal == c.normal
            &&& cross3(sub3(b.position, a.position), sub3(c.position, a.position)) == scale3(640000, neg3(a.normal))
        }),
{
    let f = t / 2;
    let tt = t % 2;
    let i = 3 * t;
    assert(i / 6 == f && (i + 1) / 6 == f && (i + 2) / 6 == f);
    assert(i % 6 == 3 * tt && (i + 1) % 6 == 3 * tt + 1 && (i + 2) % 6 == 3 * tt + 2);
    if f == 0 {
    } else if f == 1 {
    } else if f == 2 {
    } else if f == 3 {
    } else if f == 4 {
    } else {
    }
}

/// The skybox's faces come in the order front, right, back, left, top,
/// bottom, six vertices each, with their normals turned inward: toward -z,
/// -x, +z, +x, -y and +y.
pub proof fn lemma_skybox_face_order(i: int)
    requires
        0 <= i < 36,
    ensures
        skybox_vertex(i).normal == seq![(0int, 0int, -1int), (-1int, 0int, 0int), (0int, 0int, 1int), (1int, 0int, 0int), (0int, -1int, 0int), (0int, 1int, 0int)][i / 6],
{
}

} // verus!
