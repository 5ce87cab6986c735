use diorama::common::{light, vertex, Vertex};
use diorama::diorama::Diorama;
use diorama::geometry::cube_corner;
use diorama::materials::{block_materials, material_table, Block, Material};
use diorama::mesh::create_vertices;
use diorama::scene::{scene_light, scene_vertices};
use diorama::skybox::create_skybox_vertices;
use diorama::textures::{fallback_color, texture_path, TEXTURE_LAYERS};

fn sub(a: [i64; 3], b: [i64; 3]) -> [i64; 3] {
    [a[0] - b[0], a[1] - b[1], a[2] - b[2]]
}

fn cross(a: [i64; 3], b: [i64; 3]) -> [i64; 3] {
    [a[1] * b[2] - a[2] * b[1], a[2] * b[0] - a[0] * b[2], a[0] * b[1] - a[1] * b[0]]
}

fn dot(a: [i64; 3], b: [i64; 3]) -> i64 {
    a[0] * b[0] + a[1] * b[1] + a[2] * b[2]
}

fn widen(n: [i8; 3]) -> [i64; 3] {
    [n[0] as i64, n[1] as i64, n[2] as i64]
}

#[test]
fn vertex_keeps_its_parts() {
    let v = vertex([3, -5, 7], [0, 1, 0], [1, 0], 4);
    assert_eq!(v.position, [3, -5, 7]);
    assert_eq!(v.normal, [0, 1, 0]);
    assert_eq!(v.tex_coords, [1, 0]);
    assert_eq!(v.material_id, 4);
}

#[test]
fn light_appends_opaque_alpha() {
    let l = light([10, 20, 30], [40, 50, 60], 1, 2, 3, 4);
    assert_eq!(l.color, [10, 20, 30, 100]);
    assert_eq!(l.specular_color, [40, 50, 60, 100]);
    assert_eq!(
        (l.ambient_intensity, l.diffuse_intensity, l.specular_intensity, l.specular_shininess),
        (1, 2, 3, 4)
    );
}

#[test]
fn scene_light_is_white() {
    let l = scene_light();
    assert_eq!(l.color, [100, 100, 100, 100]);
    assert_eq!(l.specular_color, [100, 100, 100, 100]);
    assert_eq!(l.ambient_intensity, 20);
    assert_eq!(l.diffuse_intensity, 70);
    assert_eq!(l.specular_intensity, 30);
    assert_eq!(l.specular_shininess, 1600);
}

fn quantities(m: &Material) -> ([u32; 3], u32, u32, u32, u32, u32) {
    (m.albedo, m.specular, m.transparency, m.reflectivity, m.refractive_index, m.texture_id)
}

#[test]
fn block_material_values() {
    assert_eq!(quantities(&Material::grass_block()), ([20, 80, 20], 10, 0, 0, 100, 0));
    assert_eq!(quantities(&Material::stone()), ([50, 50, 50], 30, 0, 0, 100, 1));
    assert_eq!(quantities(&Material::water()), ([10, 30, 80], 60, 60, 30, 133, 2));
    assert_eq!(quantities(&Material::glass()), ([90, 90, 90], 90, 80, 20, 150, 3));
    assert_eq!(quantities(&Material::diamond_block()), ([20, 60, 100], 95, 0, 80, 100, 4));
}

#[test]
fn material_table_ends_with_skybox() {
    let t = material_table();
    assert_eq!(t.len(), 6);
    assert_eq!(quantities(&t[5]), ([100, 100, 100], 0, 0, 0, 100, 5));
    let b = block_materials();
    assert_eq!(b.len(), 5);
    for i in 0..5 {
        assert_eq!(quantities(&t[i]), quantities(&b[i]));
    }
}

#[test]
fn materials_are_physical_and_sample_their_own_layer() {
    let t = material_table();
    for (i, m) in t.iter().enumerate() {
        assert_eq!(m.texture_id as usize, i);
        assert!((m.texture_id as usize) < TEXTURE_LAYERS);
        assert!(m.albedo.iter().all(|&c| c <= 100));
        assert!(m.specular <= 100 && m.transparency <= 100 && m.reflectivity <= 100);
        assert!(m.refractive_index >= 100);
    }
}

#[test]
fn block_new_keeps_position_and_material() {
    let b = Block::new(-1, 3, 0, 2);
    assert_eq!(b.position, [-1, 3, 0]);
    assert_eq!(b.material_id, 2);
}

fn cells(d: &Diorama) -> Vec<([i32; 3], u32)> {
    d.blocks.iter().map(|b| (b.position, b.material_id)).collect()
}

#[test]
fn island_has_sixty_one_blocks_and_five_materials() {
    let d = Diorama::new();
    assert_eq!(d.blocks.len(), 61);
    assert_eq!(d.materials.len(), 5);
    for (i, m) in d.materials.iter().enumerate() {
        assert_eq!(m.texture_id as usize, i);
    }
}

#[test]
fn island_layout_segments() {
    let c = cells(&Diorama::new());
    // Stone base, row by row along x.
    assert_eq!(c[0], ([0, 0, 0], 1));
    assert_eq!(c[1], ([0, 0, 1], 1));
    assert_eq!(c[24], ([4, 0, 4], 1));
    // Grass layer.
    assert_eq!(c[25], ([1, 1, 1], 0));
    assert_eq!(c[33], ([3, 1, 3], 0));
    // Water source.
    assert_eq!(c[34], ([2, 2, 2], 2));
    // Greenhouse: two blocks per cell.
    assert_eq!(c[35], ([6, 1, 0], 3));
    assert_eq!(c[36], ([6, 2, 0], 3));
    assert_eq!(c[41], ([7, 1, 0], 3));
    assert_eq!(c[43], ([7, 1, 2], 3));
    assert_eq!(c[50], ([8, 2, 2], 3));
    // Diamonds.
    assert_eq!(c[51], ([8, 1, 8], 4));
    assert_eq!(c[53], ([8, 3, 8], 4));
    // Tree.
    assert_eq!(c[54], ([0, 2, 0], 1));
    assert_eq!(c[60], ([0, 4, 0], 0));
}

#[test]
fn greenhouse_leaves_its_middle_cell_empty() {
    let c = cells(&Diorama::new());
    assert!(!c.iter().any(|(p, _)| p[0] == 7 && p[2] == 1));
    assert_eq!(c.iter().filter(|(_, m)| *m == 3).count(), 16);
}

#[test]
fn island_blocks_never_share_a_cell() {
    let c = cells(&Diorama::new());
    for a in 0..c.len() {
        for b in (a + 1)..c.len() {
            assert_ne!(c[a].0, c[b].0, "blocks {} and {}", a, b);
        }
    }
}

#[test]
fn island_materials_exist() {
    let d = Diorama::new();
    for b in &d.blocks {
        assert!((b.material_id as usize) < d.materials.len());
    }
}

#[test]
fn vertex_data_has_one_cube_per_block() {
    let d = Diorama::new();
    let v = d.get_vertex_data();
    assert_eq!(v.len(), 36 * 61);
    assert_eq!(v.len(), 2196);
}

#[test]
fn first_vertices_of_the_island() {
    let v = Diorama::new().get_vertex_data();
    // Front face of the stone block at the origin: corner (-0.5, -0.5, 0.5).
    assert_eq!(v[0].position, [-1, -1, 1]);
    assert_eq!(v[0].normal, [0, 0, 1]);
    assert_eq!(v[0].tex_coords, [0, 0]);
    assert_eq!(v[0].material_id, 1);
    assert_eq!(v[5].position, [1, 1, 1]);
    assert_eq!(v[5].tex_coords, [1, 1]);
    // Top face of the water block at (2, 2, 2): corner (1.5, 2.5, 2.5).
    let w = &v[36 * 34 + 24];
    assert_eq!(w.position, [3, 5, 5]);
    assert_eq!(w.normal, [0, 1, 0]);
    assert_eq!(w.material_id, 2);
}

#[test]
fn cube_corners_match_the_face_tables() {
    // Right face: (+,-,+) (+,-,-) (+,+,+) (+,+,+) (+,-,-) (+,+,-).
    let expected: [[i8; 3]; 6] =
        [[1, -1, 1], [1, -1, -1], [1, 1, 1], [1, 1, 1], [1, -1, -1], [1, 1, -1]];
    for k in 0..6 {
        let (o, n, _) = cube_corner(6 + k);
        assert_eq!(o, expected[k]);
        assert_eq!(n, [1, 0, 0]);
    }
    // Bottom face.
    let (o, n, uv) = cube_corner(35);
    assert_eq!((o, n, uv), ([1, -1, 1], [0, -1, 0], [1, 1]));
}

fn centre_of(b: &Block) -> [i64; 3] {
    [2 * b.position[0] as i64, 2 * b.position[1] as i64, 2 * b.position[2] as i64]
}

#[test]
fn island_vertices_lie_on_their_faces() {
    let d = Diorama::new();
    let v = d.get_vertex_data();
    for (j, vx) in v.iter().enumerate() {
        let off = sub(vx.position, centre_of(&d.blocks[j / 36]));
        assert!(off.iter().all(|&c| c == 1 || c == -1));
        assert_eq!(dot(off, widen(vx.normal)), 1);
    }
}

#[test]
fn island_triangles_face_outward() {
    let v = Diorama::new().get_vertex_data();
    for t in 0..v.len() / 3 {
        let (a, b, c) = (&v[3 * t], &v[3 * t + 1], &v[3 * t + 2]);
        assert_eq!(a.normal, b.normal);
        assert_eq!(a.normal, c.normal);
        let n = widen(a.normal);
        let x = cross(sub(b.position, a.position), sub(c.position, a.position));
        assert_eq!(x, [4 * n[0], 4 * n[1], 4 * n[2]]);
    }
}

#[test]
fn skybox_is_a_cube_of_half_extent_two_hundred() {
    let s = create_skybox_vertices();
    assert_eq!(s.len(), 36);
    assert_eq!(s[0].position, [-400, -400, 400]);
    assert_eq!(s[0].normal, [0, 0, -1]);
    for vx in &s {
        assert!(vx.position.iter().all(|&c| c == 400 || c == -400));
        assert_eq!(vx.material_id, 5);
    }
}

#[test]
fn skybox_normals_point_inward() {
    for vx in &create_skybox_vertices() {
        assert_eq!(dot(vx.position, widen(vx.normal)), -400);
    }
}

#[test]
fn skybox_encloses_the_island() {
    for vx in &Diorama::new().get_vertex_data() {
        assert!(vx.position.iter().all(|&c| -400 < c && c < 400));
    }
}

#[test]
fn scene_is_island_then_skybox() {
    let s = scene_vertices();
    assert_eq!(s.len(), 2232);
    let island = Diorama::new().get_vertex_data();
    let sky = create_skybox_vertices();
    for j in 0..island.len() {
        assert_eq!(s[j].position, island[j].position);
        assert_eq!(s[j].material_id, island[j].material_id);
    }
    for j in 0..36 {
        assert_eq!(s[2196 + j].position, sky[j].position);
        assert_eq!(s[2196 + j].normal, sky[j].normal);
    }
    assert!(s.iter().all(|v| v.material_id < 6));
}

#[test]
fn tables_become_vertices() {
    let pos = vec![[1i8, -1, 1], [0, 2, -3]];
    let normal = vec![[0i8, 0, 1], [1, 0, 0], [0, 1, 0]];
    let uv = vec![[0u8, 1], [1, 1]];
    let v: Vec<Vertex> = create_vertices(&pos, &normal, &uv);
    assert_eq!(v.len(), 2);
    assert_eq!(v[0].position, [2, -2, 2]);
    assert_eq!(v[1].position, [0, 4, -6]);
    assert_eq!(v[1].normal, [1, 0, 0]);
    assert_eq!(v[1].tex_coords, [1, 1]);
    assert!(v.iter().all(|x| x.material_id == 0));
}

#[test]
fn empty_tables_give_no_vertices() {
    let v = create_vertices(&Vec::new(), &Vec::new(), &Vec::new());
    assert!(v.is_empty());
}

#[test]
fn texture_files_and_fallbacks() {
    assert_eq!(texture_path(0), "src/images/grass_block.jpg");
    assert_eq!(texture_path(5), "src/images/skybox.jpg");
    assert_eq!(fallback_color(0), [0, 255, 0, 255]);
    assert_eq!(fallback_color(1), [128, 128, 128, 255]);
    assert_eq!(fallback_color(2), [0, 100, 255, 255]);
    assert_eq!(fallback_color(3), [200, 200, 255, 128]);
    assert_eq!(fallback_color(4), [100, 200, 255, 255]);
    assert_eq!(fallback_color(5), [135, 206, 235, 255]);
    assert_eq!(fallback_color(6), [255, 255, 255, 255]);
}
