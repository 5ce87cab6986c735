//! Integer geometry of the axis-aligned unit cube that every block and the
//! skybox are built from.
//!
//! A cube is drawn as six faces of two triangles each, 36 vertices in all.
//! Face `f` (front, right, back, left, top, bottom) has an outward normal and
//! two tangents `u` and `v`; corner `k` of a face takes the texture
//! coordinates `corner_uv(k)`, and its offset from the cube's centre is the
//! normal plus or minus each tangent. Offsets are measured in half units, so
//! the unit cube's corners have offsets of exactly -1 or +1 on every axis.
use vstd::prelude::*;

verus! {

/// A point or a direction with integer coordinates.
pub type Coord3 = (int, int, int);

pub open spec fn add3(a: Coord3, b: Coord3) -> Coord3 {
    (a.0 + b.0, a.1 + b.1, a.2 + b.2)
}

pub open spec fn sub3(a: Coord3, b: Coord3) -> Coord3 {
    (a.0 - b.0, a.1 - b.1, a.2 - b.2)
}

pub open spec fn neg3(a: Coord3) -> Coord3 {
    (-a.0, -a.1, -a.2)
}

pub open spec fn scale3(k: int, a: Coord3) -> Coord3 {
    (k * a.0, k * a.1, k * a.2)
}

pub open spec fn dot3(a: Coord3, b: Coord3) -> int {
    a.0 * b.0 + a.1 * b.1 + a.2 * b.2
}

pub open spec fn cross3(a: Coord3, b: Coord3) -> Coord3 {
    (a.1 * b.2 - a.2 * b.1, a.2 * b.0 - a.0 * b.2, a.0 * b.1 - a.1 * b.0)
}

/// `t` when `positive`, `-t` otherwise.
pub open spec fn signed3(positive: bool, t: Coord3) -> Coord3 {
    if positive {
        t
    } else {
        neg3(t)
    }
}

/// Outward normal of face `f`: front, right, back, left, top, bottom.
pub open spec fn face_normal(f: int) -> Coord3 {
    if f == 0 {
        (0, 0, 1)
    } else if f == 1 {
        (1, 0, 0)
    } else if f == 2 {
        (0, 0, -1)
    } else if f == 3 {
        (-1, 0, 0)
    } else if f == 4 {
        (0, 1, 0)
    } else {
        (0, -1, 0)
    }
}

/// Direction in which the texture coordinate `u` grows on face `f`.
pub open spec fn face_tangent_u(f: int) -> Coord3 {
    if f == 0 {
        (1, 0, 0)
    } else if f == 1 {
        (0, 0, -1)
    } else if f == 2 {
        (-1, 0, 0)
    } else if f == 3 {
        (0, 0, 1)
    } else {
        (1, 0, 0)
    }
}

/// Direction in which the texture coordinate `v` grows on face `f`.
pub open spec fn face_tangent_v(f: int) -> Coord3 {
    if f == 4 {
        (0, 0, -1)
    } else if f == 5 {
        (0, 0, 1)
    } else {
        (0, 1, 0)
    }
}

/// Texture coordinates of corner `k` of a face: the triangles
/// (0,0) (1,0) (0,1) and (0,1) (1,0) (1,1).
pub open spec fn corner_uv(k: int) -> (int, int) {
    if k == 0 {
        (0, 0)
    } else if k == 1 {
        (1, 0)
    } else if k == 2 {
        (0, 1)
    } else if k == 3 {
        (0, 1)
    } else if k == 4 {
        (1, 0)
    } else {
        (1, 1)
    }
}

/// Offset, in half units, of corner `k` of face `f` from the cube's centre.
pub open spec fn face_corner_offset(f: int, k: int) -> Coord3 {
    let uv = corner_uv(k);
    add3(
        face_normal(f),
        add3(signed3(uv.0 == 1, face_tangent_u(f)), signed3(uv.1 == 1, face_tangent_v(f))),
    )
}

/// Offset, in half units, of the cube's vertex `i` (0 <= i < 36) from its centre.
pub open spec fn corner_offset(i: int) -> Coord3 {
    face_corner_offset(i / 6, i % 6)
}

pub open spec fn unit_coord(x: int) -> bool {
    x == 1 || x == -1
}

pub open spec fn on_unit_cube(a: Coord3) -> bool {
    unit_coord(a.0) && unit_coord(a.1) && unit_coord(a.2)
}

/// The coordinates of a normal, a tangent or an offset, as read from an array.
pub open spec fn coords_of(a: [i8; 3]) -> Coord3 {
    (a[0] as int, a[1] as int, a[2] as int)
}

pub open spec fn uv_of(a: [u8; 2]) -> (int, int) {
    (a[0] as int, a[1] as int)
}

/// The frame of face `f`: its outward normal and its two tangents.
fn face_frame(f: usize) -> (r: ([i8; 3], [i8; 3], [i8; 3]))
    requires
        f < 6,
    ensures
        coords_of(r.0) == face_normal(f as int),
        coords_of(r.1) == face_tangent_u(f as int),
        coords_of(r.2) == face_tangent_v(f as int),
{
    if f == 0 {
        ([0, 0, 1], [1, 0, 0], [0, 1, 0])
    } else if f == 1 {
        ([1, 0, 0], [0, 0, -1], [0, 1, 0])
    } else if f == 2 {
        ([0, 0, -1], [-1, 0, 0], [0, 1, 0])
    } else if f == 3 {
        ([-1, 0, 0], [0, 0, 1], [0, 1, 0])
    } else if f == 4 {
        ([0, 1, 0], [1, 0, 0], [0, 0, -1])
    } else {
        ([0, -1, 0], [1, 0, 0], [0, 0, 1])
    }
}

fn corner_tex_coords(k: usize) -> (r: [u8; 2])
    requires
        k < 6,
    ensures
        uv_of(r) == corner_uv(k as int),
{
    if k == 0 {
        [0, 0]
    } else if k == 1 {
        [1, 0]
    } else if k == 2 {
        [0, 1]
    } else if k == 3 {
        [0, 1]
    } else if k == 4 {
        [1, 0]
    } else {
        [1, 1]
    }
}

fn signed_unit(positive: bool, x: i8) -> (r: i8)
    requires
        -1 <= x <= 1,
    ensures
        r == (if positive {
            x as int
        } else {
            -x
        }),
{
    if positive {
        x
    } else {
        -x
    }
}

/// The cube's vertex `i`: its offset from the centre in half units, its
/// outward normal and its texture coordinates.
pub fn cube_corner(i: usize) -> (r: ([i8; 3], [i8; 3], [u8; 2]))
    requires
        i < 36,
    ensures
        coords_of(r.0) == corner_offset(i as int),
        coords_of(r.1) == face_normal(i as int / 6),
        uv_of(r.2) == corner_uv(i as int % 6),
{
    let f = i / 6;
    let k = i % 6;
    let (n, tu, tv) = face_frame(f);
    let uv = corner_tex_coords(k);
    let pu = uv[0] == 1;
    let pv = uv[1] == 1;
    let offset: [i8; 3] = [
        n[0] + signed_unit(pu, tu[0]) + signed_unit(pv, tv[0]),
        n[1] + signed_unit(pu, tu[1]) + signed_unit(pv, tv[1]),
        n[2] + signed_unit(pu, tu[2]) + signed_unit(pv, tv[2]),
    ];
    (offset, n, uv)
}

/// Facts about one face: its tangents are perpendicular unit vectors whose
/// cross product is the outward normal, and all three are perpendicular.
pub proof fn lemma_face_frame(f: int) by (nonlinear_arith)
    requires
        0 <= f < 6,
    ensures
        cross3(face_tangent_u(f), face_tangent_v(f)) == face_normal(f),
        dot3(face_normal(f), face_tangent_u(f)) == 0,
        dot3(face_normal(f), face_tangent_v(f)) == 0,
        dot3(face_tangent_u(f), face_tangent_v(f)) == 0,
        dot3(face_normal(f), face_normal(f)) == 1,
{
    if f == 0 {
    } else if f == 1 {
    } else if f == 2 {
    } else if f == 3 {
    } else if f == 4 {
    } else {
    }
}

proof fn lemma_face_corner(f: int, k: int) by (nonlinear_arith)
    requires
        0 <= f < 6,
        0 <= k < 6,
    ensures
        on_unit_cube(face_corner_offset(f, k)),
        dot3(face_corner_offset(f, k), face_normal(f)) == 1,
{
    lemma_face_frame(f);
    if f == 0 {
    } else if f == 1 {
    } else if f == 2 {
    } else if f == 3 {
    } else if f == 4 {
    } else {
    }
}

/// Every vertex of the unit cube is one of its corners: its offset from the
/// centre is -1 or +1 half unit on each axis, and it lies on the plane of its
/// own face, one half unit from the centre along the face's outward normal.
pub proof fn lemma_corner_on_face(i: int)
    requires
        0 <= i < 36,
    ensures
        on_unit_cube(corner_offset(i)),
        dot3(corner_offset(i), face_normal(i / 6)) == 1,
{
    lemma_face_corner(i / 6, i % 6);
}

/// Both triangles of every face are wound counter-clockwise when seen from
/// outside the cube: for the triangle that starts at vertex `6 * f + 3 * t`,
/// the cross product of its two edges is four times the face's outward
/// normal (the edges are two half units long).
pub proof fn lemma_cube_winding(f: int, t: int) by (nonlinear_arith)
    requires
        0 <= f < 6,
        0 <= t < 2,
    ensures
        ({
            let i = 6 * f + 3 * t;
            let a = corner_offset(i);
            let b = corner_offset(i + 1);
            let c = corner_offset(i + 2);
            cross3(sub3(b, a), sub3(c, a)) == scale3(4, face_normal(f))
        }),
{
    let i = 6 * f + 3 * t;
    assert(i / 6 == f && i % 6 == 3 * t);
    assert((i + 1) / 6 == f && (i + 1) % 6 == 3 * t + 1);
    assert((i + 2) / 6 == f && (i + 2) % 6 == 3 * t + 2);
    if f == 0 {
    } else if f == 1 {
    } else if f == 2 {
    } else if f == 3 {
    } else if f == 4 {
    } else {
    }
}

/// The direction in which a texture's `v` coordinate grows on a face with
/// outward normal `n`: upward on the four side faces, toward -z on the top
/// face and toward +z on the bottom face.
pub open spec fn texture_up(n: Coord3) -> Coord3 {
    if n.1 == 0 {
        (0, 1, 0)
    } else if n.1 > 0 {
        (0, 0, -1)
    } else {
        (0, 0, 1)
    }
}

/// The direction in which a texture's `u` coordinate grows on a face with
/// outward normal `n`: to the right as seen from outside, so that the texture
/// is not mirrored (`right x up` is the outward normal).
pub open spec fn texture_right(n: Coord3) -> Coord3 {
    cross3(texture_up(n), n)
}

/// Where a face's texture coordinates `uv` fall on the unit cube: the face's
/// centre (the normal, in half units) moved half a unit left or right and
/// half a unit down or up, for `u` and `v` at 0 or 1.
pub open spec fn texture_point(n: Coord3, uv: (int, int)) -> Coord3 {
    add3(n, add3(scale3(2 * uv.0 - 1, texture_right(n)), scale3(2 * uv.1 - 1, texture_up(n))))
}

/// The six texture corners of a face, in the order its two triangles take
/// them: (0,0) (1,0) (0,1), then (0,1) (1,0) (1,1).
pub open spec fn face_uv_pattern() -> Seq<(int, int)> {
    seq![(0, 0), (1, 0), (0, 1), (0, 1), (1, 0), (1, 1)]
}

proof fn lemma_face_corner_texture(f: int, k: int) by (nonlinear_arith)
    requires
        0 <= f < 6,
        0 <= k < 6,
    ensures
        face_corner_offset(f, k) == texture_point(face_normal(f), corner_uv(k)),
        cross3(texture_right(face_normal(f)), texture_up(face_normal(f))) == face_normal(f),
{
    if f == 0 {
    } else if f == 1 {
    } else if f == 2 {
    } else if f == 3 {
    } else if f == 4 {
    } else {
    }
}

/// Textures are laid on every face of the cube upright and unmirrored:
/// vertex `i` has texture coordinates 0 or 1, follows the face pattern
/// (0,0) (1,0) (0,1) (0,1) (1,0) (1,1), and its offset from the centre is
/// the face's outward normal plus `2u - 1` times the face's right direction
/// plus `2v - 1` times its up direction.
pub proof fn lemma_corner_texture(i: int)
    requires
        0 <= i < 36,
    ensures
        corner_uv(i % 6) == face_uv_pattern()[i % 6],
        corner_offset(i) == texture_point(face_normal(i / 6), corner_uv(i % 6)),
        cross3(texture_right(face_normal(i / 6)), texture_up(face_normal(i / 6))) == face_normal(i / 6),
{
    lemma_face_corner_texture(i / 6, i % 6);
    let k = i % 6;
    if k == 0 {
    } else if k == 1 {
    } else if k == 2 {
    } else if k == 3 {
    } else if k == 4 {
    } else {
    }
}

} // verus!
