//! The Skyblock island: where its blocks stand, what they are made of, and the
//! cube meshes drawn for them.
use vstd::prelude::*;
use vstd::arithmetic::div_mod::lemma_fundamental_div_mod_converse;
use crate::common::{Vertex, VertexModel, vertex, vertex_models};
use crate::geometry::{
    Coord3, add3, corner_offset, corner_uv, cross3, cube_corner, dot3, face_normal,
    lemma_corner_on_face, lemma_corner_texture, lemma_cube_winding, on_unit_cube, scale3, sub3,
    face_uv_pattern, texture_point,
};
use crate::materials::{Block, Material, block_materials, is_block_materials};
use crate::textures::{lemma_layers_follow_materials, texture_file};

verus! {

/// A block as seen by the specification: its centre and its material.
pub type BlockModel = (Coord3, int);

/// The views of a sequence of blocks.
pub open spec fn block_models(s: Seq<Block>) -> Seq<BlockModel> {
    s.map_values(|b: Block| b@)
}

/// Vertex `i` (0 <= i < 36) of the cube centred at `center` (whole units):
/// its position in half units, its face's outward normal, its texture
/// coordinates and the given material.
pub open spec fn cube_vertex(center: Coord3, material_id: int, i: int) -> VertexModel {
    VertexModel {
        position: add3(scale3(2, center), corner_offset(i)),
        normal: face_normal(i / 6),
        tex_coords: corner_uv(i % 6),
        material_id,
    }
}

/// The 36 vertices of the cube centred at `center`.
pub open spec fn cube_vertices(center: Coord3, material_id: int) -> Seq<VertexModel> {
    Seq::new(36, |i: int| cube_vertex(center, material_id, i))
}

/// The vertices of a list of blocks: the cubes of the blocks one after the
/// other, so that vertex `j` is vertex `j % 36` of block `j / 36`.
pub open spec fn blocks_vertices(blocks: Seq<BlockModel>) -> Seq<VertexModel> {
    Seq::new(
        36 * blocks.len(),
        |j: int| cube_vertex(blocks[j / 36].0, blocks[j / 36].1, j % 36),
    )
}

/// Material ids of the island's blocks.
pub open spec fn grass_id() -> int {
    0
}

pub open spec fn stone_id() -> int {
    1
}

pub open spec fn water_id() -> int {
    2
}

pub open spec fn glass_id() -> int {
    3
}

pub open spec fn diamond_id() -> int {
    4
}

/// The island's base: a 5 x 5 slab of stone at height 0, row by row along x.
pub open spec fn stone_base() -> Seq<BlockModel> {
    Seq::new(25, |i: int| ((i / 5, 0, i % 5), stone_id()))
}

/// A 3 x 3 layer of grass on the base's middle, at height 1.
pub open spec fn grass_layer() -> Seq<BlockModel> {
    Seq::new(9, |i: int| ((1 + i / 3, 1, 1 + i % 3), grass_id()))
}

/// The water source in the island's centre, on the grass.
pub open spec fn water_source() -> Seq<BlockModel> {
    seq![((2, 2, 2), water_id())]
}

/// The cells of the 3 x 3 greenhouse floor that carry glass: all but the
/// middle one (cell 4).
pub open spec fn glass_cell(c: int) -> int {
    if c < 4 {
        c
    } else {
        c + 1
    }
}

/// The glass greenhouse: on each of its eight cells, one glass block at
/// height 1 and one above it at height 2; cell `c` stands at
/// `x = 6 + c / 3`, `z = c % 3`.
pub open spec fn greenhouse() -> Seq<BlockModel> {
    Seq::new(
        16,
        |j: int| ((6 + glass_cell(j / 2) / 3, 1 + j % 2, glass_cell(j / 2) % 3), glass_id()),
    )
}

/// A column of three diamond blocks.
pub open spec fn diamond_column() -> Seq<BlockModel> {
    seq![((8, 1, 8), diamond_id()), ((8, 2, 8), diamond_id()), ((8, 3, 8), diamond_id())]
}

/// A tree: a two-block stone trunk with grass leaves around and above its top.
pub open spec fn tree() -> Seq<BlockModel> {
    seq![
        ((0, 2, 0), stone_id()),
        ((0, 3, 0), stone_id()),
        ((-1, 3, 0), grass_id()),
        ((1, 3, 0), grass_id()),
        ((0, 3, -1), grass_id()),
        ((0, 3, 1), grass_id()),
        ((0, 4, 0), grass_id()),
    ]
}

/// All the blocks of the island, in the order in which they are laid.
pub open spec fn island_layout() -> Seq<BlockModel> {
    stone_base() + grass_layer() + water_source() + greenhouse() + diamond_column() + tree()
}

/// The scene: its blocks and the materials that their ids refer to.
pub struct Diorama {
    pub blocks: Vec<Block>,
    pub materials: Vec<Material>,
}

proof fn lemma_push_model(blocks: Seq<Block>, b: Block, base: Seq<BlockModel>, layout: Seq<BlockModel>, n: int)
    requires
        block_models(blocks) == base + layout.take(n),
        0 <= n < layout.len(),
        b@ == layout[n],
    ensures
        block_models(blocks.push(b)) == base + layout.take(n + 1),
{
    let pushed = block_models(blocks.push(b));
    let expected = base + layout.take(n + 1);
    assert(block_models(blocks).len() == blocks.len());
    assert forall|i: int| 0 <= i < pushed.len() implies pushed[i] == expected[i] by {
        if i < blocks.len() {
            assert(pushed[i] == block_models(blocks)[i]);
        }
    }
    assert(pushed =~= expected);
}

proof fn lemma_segment_done(base: Seq<BlockModel>, layout: Seq<BlockModel>)
    ensures
        base + layout.take(layout.len() as int) == base + layout,
        base + layout.take(0) == base,
{
    assert(layout.take(layout.len() as int) =~= layout);
    assert(base + layout.take(0) =~= base);
}

proof fn lemma_grid_index(i: int, d: int, q: int, r: int)
    requires
        0 < d,
        0 <= r < d,
        i == d * q + r,
    ensures
        i / d == q,
        i % d == r,
{
    assert(d * q == q * d) by (nonlinear_arith);
    lemma_fundamental_div_mod_converse(i, d, q, r);
}

/// Number of glass blocks laid before greenhouse cell `c` (the middle cell
/// carries none).
spec fn glass_before(c: int) -> int {
    if c <= 4 {
        2 * c
    } else {
        2 * c - 2
    }
}

impl Diorama {
    /// The island with its five block materials.
    pub fn new() -> (r: Self)
        ensures
            block_models(r.blocks@) == island_layout(),
            r.blocks@.len() == 61,
            is_block_materials(r.materials@),
    {
        let mut blocks: Vec<Block> = Vec::new();
        let materials = block_materials();
        Self::create_skyblock_island(&mut blocks);
        assert(block_models(Seq::<Block>::empty()) =~= Seq::<BlockModel>::empty());
        assert(Seq::<BlockModel>::empty() + island_layout() =~= island_layout());
        assert(block_models(blocks@).len() == blocks@.len());
        Diorama { blocks, materials }
    }

    /// Appends the island's blocks to `blocks`.
    fn create_skyblock_island(blocks: &mut Vec<Block>)
        ensures
            block_models(final(blocks)@) == block_models(old(blocks)@) + island_layout(),
    {
        let ghost start = block_models(blocks@);
        // The stone base.
        proof {
            lemma_segment_done(start, stone_base());
        }
        for x in 0..5i32
            invariant
                block_models(blocks@) == start + stone_base().take(5 * x),
        {
            for z in 0..5i32
                invariant
                    0 <= x < 5,
                    block_models(blocks@) == start + stone_base().take(5 * x + z),
            {
                proof {
                    lemma_grid_index(5 * x + z, 5, x as int, z as int);
                }
                let ghost before = blocks@;
                blocks.push(Block::new(x, 0, z, 1));
                proof {
                    lemma_push_model(before, blocks@.last(), start, stone_base(), 5 * x + z);
                    assert(before.push(blocks@.last()) == blocks@);
                }
            }
        }
        let ghost base = start + stone_base();
        proof {
            lemma_segment_done(start, stone_base());
            lemma_segment_done(base, grass_layer());
        }
        // The grass layer.
        for x in 1..4i32
            invariant
                block_models(blocks@) == base + grass_layer().take(3 * (x - 1)),
        {
            for z in 1..4i32
                invariant
                    1 <= x < 4,
                    block_models(blocks@) == base + grass_layer().take(3 * (x - 1) + z - 1),
            {
                proof {
                    lemma_grid_index(3 * (x - 1) + z - 1, 3, x - 1, z - 1);
                }
                let ghost before = blocks@;
                blocks.push(Block::new(x, 1, z, 0));
                proof {
                    lemma_push_model(before, blocks@.last(), base, grass_layer(), 3 * (x - 1) + z - 1);
                    assert(before.push(blocks@.last()) == blocks@);
                }
            }
        }
        let ghost base2 = base + grass_layer();
        proof {
            lemma_segment_done(base, grass_layer());
        }
        // The water source.
        blocks.push(Block::new(2, 2, 2, 2));
        assert(block_models(blocks@) =~= base2 + water_source());
        let ghost base3 = base2 + water_source();
        proof {
            lemma_segment_done(base3, greenhouse());
        }
        // The glass greenhouse.
        for x in 0..3i32
            invariant
                block_models(blocks@) == base3 + greenhouse().take(glass_before(3 * x)),
        {
            for z in 0..3i32
                invariant
                    0 <= x < 3,
                    block_models(blocks@) == base3 + greenhouse().take(glass_before(3 * x + z)),
            {
                if !(x == 1 && z == 1) {
                    let ghost c = 3 * x + z;
                    let ghost j = glass_before(c);
                    proof {
                        lemma_grid_index(c, 3, x as int, z as int);
                        lemma_grid_index(j, 2, glass_before(c) / 2, 0);
                        lemma_grid_index(j + 1, 2, glass_before(c) / 2, 1);
                        assert(glass_cell(j / 2) == c);
                    }
                    let ghost before = blocks@;
                    blocks.push(Block::new(x + 6, 1, z, 3));
                    proof {
                        lemma_push_model(before, blocks@.last(), base3, greenhouse(), j);
                        assert(before.push(blocks@.last()) == blocks@);
                    }
                    let ghost before = blocks@;
                    blocks.push(Block::new(x + 6, 2, z, 3));
                    proof {
                        lemma_push_model(before, blocks@.last(), base3, greenhouse(), j + 1);
                        assert(before.push(blocks@.last()) == blocks@);
                    }
                }
            }
        }
        let ghost base4 = base3 + greenhouse();
        proof {
            lemma_segment_done(base3, greenhouse());
        }
        // The diamond treasure.
        blocks.push(Block::new(8, 1, 8, 4));
        blocks.push(Block::new(8, 2, 8, 4));
        blocks.push(Block::new(8, 3, 8, 4));
        assert(block_models(blocks@) =~= base4 + diamond_column());
        let ghost base5 = base4 + diamond_column();
        // The tree: a stone trunk and grass leaves.
        blocks.push(Block::new(0, 2, 0, 1));
        blocks.push(Block::new(0, 3, 0, 1));
        blocks.push(Block::new(-1, 3, 0, 0));
        blocks.push(Block::new(1, 3, 0, 0));
        blocks.push(Block::new(0, 3, -1, 0));
        blocks.push(Block::new(0, 3, 1, 0));
        blocks.push(Block::new(0, 4, 0, 0));
        assert(block_models(blocks@) =~= base5 + tree());
        assert(base5 + tree() =~= start + island_layout());
    }

    /// The vertices of all the blocks, block after block: 36 per block, as
    /// `create_cube_vertices` builds them.
    pub fn get_vertex_data(&self) -> (r: Vec<Vertex>)
        ensures
            vertex_models(r@) == blocks_vertices(block_models(self.blocks@)),
            r@.len() == 36 * self.blocks@.len(),
    {
        let mut vertices: Vec<Vertex> = Vec::new();
        let n = self.blocks.len();
        for b in 0..n
            invariant
                n == self.blocks@.len(),
                vertices@.len() == 36 * b,
                forall|j: int|
                    0 <= j < 36 * b ==> (#[trigger] vertices@[j])@ == cube_vertex(
                        self.blocks@[j / 36]@.0,
                        self.blocks@[j / 36]@.1,
                        j % 36,
                    ),
        {
            let block = &self.blocks[b];
            let mut block_vertices = self.create_cube_vertices(block.position, block.material_id);
            let ghost before = vertices@;
            let ghost added = block_vertices@;
            vertices.append(&mut block_vertices);
            assert forall|j: int| 0 <= j < 36 * (b + 1) implies (#[trigger] vertices@[j])@ == cube_vertex(
                self.blocks@[j / 36]@.0,
                self.blocks@[j / 36]@.1,
                j % 36,
            ) by {
                if j >= 36 * b {
                    lemma_grid_index(j, 36, b as int, j - 36 * b);
                    assert(vertices@[j] == added[j - 36 * b]);
                } else {
                    assert(vertices@[j] == before[j]);
                }
            }
        }
        assert(vertex_models(vertices@) =~= blocks_vertices(block_models(self.blocks@)));
        vertices
    }

    /// The 36 vertices of the cube of the block centred at `position` (whole
    /// units), with the block's material.
    fn create_cube_vertices(&self, position: [i32; 3], material_id: u32) -> (r: Vec<Vertex>)
        ensures
            r@.len() == 36,
            forall|i: int|
                0 <= i < 36 ==> (#[trigger] r@[i])@ == cube_vertex(
                    (position[0] as int, position[1] as int, position[2] as int),
                    material_id as int,
                    i,
                ),
    {
        let mut vertices: Vec<Vertex> = Vec::new();
        let ghost center = (position[0] as int, position[1] as int, position[2] as int);
        for i in 0..36usize
            invariant
                center == (position[0] as int, position[1] as int, position[2] as int),
                vertices@.len() == i,
                forall|k: int|
                    0 <= k < i ==> (#[trigger] vertices@[k])@ == cube_vertex(center, material_id as int, k),
        {
            let (offset, normal, uv) = cube_corner(i);
            let p: [i64; 3] = [
                2 * (position[0] as i64) + offset[0] as i64,
                2 * (position[1] as i64) + offset[1] as i64,
                2 * (position[2] as i64) + offset[2] as i64,
            ];
            vertices.push(vertex(p, normal, uv, material_id));
        }
        vertices
    }
}

/// Every vertex drawn for a block is a corner of the block's cube, on the
/// face whose normal it carries: its offset from the doubled centre is -1 or
/// +1 half unit on each axis, and one half unit along the outward normal.
pub proof fn lemma_block_vertex_on_its_face(blocks: Seq<BlockModel>, j: int)
    requires
        0 <= j < blocks_vertices(blocks).len(),
    ensures
        ({
            let v = blocks_vertices(blocks)[j];
            let center = blocks[j / 36].0;
            &&& on_unit_cube(sub3(v.position, scale3(2, center)))
            &&& dot3(sub3(v.position, scale3(2, center)), v.normal) == 1
        }),
{
    assert(0 <= j / 36 < blocks.len()) by (nonlinear_arith)
        requires
            0 <= j < 36 * blocks.len(),
    ;
    lemma_corner_on_face(j % 36);
    let v = blocks_vertices(blocks)[j];
    let center = blocks[j / 36].0;
    assert(sub3(v.position, scale3(2, center)) == corner_offset(j % 36));
}

/// Every triangle drawn for the blocks is wound counter-clockwise when seen
/// from outside its cube: for triangle `t` (vertices `3 t`, `3 t + 1` and
/// `3 t + 2`), the cross product of its edges is four times the outward
/// normal that its vertices carry.
pub proof fn lemma_block_triangles_face_outward(blocks: Seq<BlockModel>, t: int)
    requires
        0 <= t < 12 * blocks.len(),
    ensures
        ({
            let vs = blocks_vertices(blocks);
            let a = vs[3 * t].position;
            let b = vs[3 * t + 1].position;
            let c = vs[3 * t + 2].position;
            &&& vs[3 * t].normal == vs[3 * t + 1].normal
            &&& vs[3 * t].normal == vs[3 * t + 2].normal
            &&& cross3(sub3(b, a), sub3(c, a)) == scale3(4, vs[3 * t].normal)
        }),
{
    let blk = t / 12;
    let r = t % 12;
    lemma_grid_index(t, 12, blk, r);
    let f = r / 2;
    let tt = r % 2;
    lemma_grid_index(r, 2, f, tt);
    let i = 6 * f + 3 * tt;
    let j = 3 * t;
    assert(j == 36 * blk + i);
    assert(0 <= blk < blocks.len());
    lemma_grid_index(j, 36, blk, i);
    lemma_grid_index(j + 1, 36, blk, i + 1);
    lemma_grid_index(j + 2, 36, blk, i + 2);
    lemma_grid_index(i, 6, f, 3 * tt);
    lemma_grid_index(i + 1, 6, f, 3 * tt + 1);
    lemma_grid_index(i + 2, 6, f, 3 * tt + 2);
    lemma_cube_winding(f, tt);
    let vs = blocks_vertices(blocks);
    let center = blocks[blk].0;
    assert(sub3(vs[j + 1].position, vs[j].position) == sub3(corner_offset(i + 1), corner_offset(i)));
    assert(sub3(vs[j + 2].position, vs[j].position) == sub3(corner_offset(i + 2), corner_offset(i)));
}

/// Every block of the island uses one of the diorama's five materials, and
/// every vertex drawn for the island or the skybox names an entry of the
/// renderer's material table.
pub proof fn lemma_island_materials_exist()
    ensures
        forall|b: int| 0 <= b < island_layout().len() ==> 0 <= #[trigger] island_layout()[b].1 < 5,
        forall|j: int|
            0 <= j < blocks_vertices(island_layout()).len() ==> 0 <= #[trigger] blocks_vertices(island_layout())[j].material_id < 6,
{
    let l = island_layout();
    assert forall|b: int| 0 <= b < l.len() implies 0 <= #[trigger] l[b].1 < 5 by {
        if b < 25 {
            assert(l[b] == stone_base()[b]);
        } else if b < 34 {
            assert(l[b] == grass_layer()[b - 25]);
        } else if b < 35 {
            assert(l[b] == water_source()[b - 34]);
        } else if b < 51 {
            assert(l[b] == greenhouse()[b - 35]);
        } else if b < 54 {
            assert(l[b] == diamond_column()[b - 51]);
        } else {
            assert(l[b] == tree()[b - 54]);
        }
    }
    assert forall|j: int| 0 <= j < blocks_vertices(l).len() implies 0 <= #[trigger] blocks_vertices(l)[j].material_id < 6 by {
        assert(0 <= j / 36 < l.len()) by (nonlinear_arith)
            requires
                0 <= j < 36 * l.len(),
        ;
    }
}

/// The index in the island's layout of the block whose centre is `p`: the
/// layout, read backwards.
pub open spec fn layout_index(p: Coord3) -> int {
    if p.1 == 0 {
        5 * p.0 + p.2
    } else if p.0 == 8 && p.2 == 8 {
        51 + p.1 - 1
    } else if p.0 >= 6 {
        let c = 3 * (p.0 - 6) + p.2;
        35 + 2 * (if c < 4 {
            c
        } else {
            c - 1
        }) + p.1 - 1
    } else if p == (2int, 2int, 2int) {
        34
    } else if p.1 == 1 {
        25 + 3 * (p.0 - 1) + p.2 - 1
    } else if p == (0int, 2int, 0int) {
        54
    } else if p == (0int, 3int, 0int) {
        55
    } else if p == (-1int, 3int, 0int) {
        56
    } else if p == (1int, 3int, 0int) {
        57
    } else if p == (0int, 3int, -1int) {
        58
    } else if p == (0int, 3int, 1int) {
        59
    } else {
        60
    }
}

/// No two blocks of the island stand in the same cell: the centre of each
/// block determines its place in the layout.
pub proof fn lemma_island_cells_distinct()
    ensures
        forall|b: int| 0 <= b < island_layout().len() ==> layout_index(#[trigger] island_layout()[b].0) == b,
        forall|a: int, b: int|
            0 <= a < b < island_layout().len() ==> island_layout()[a].0 != island_layout()[b].0,
{
    let l = island_layout();
    assert forall|b: int| 0 <= b < l.len() implies layout_index(#[trigger] l[b].0) == b by {
        if b < 25 {
            assert(l[b] == stone_base()[b]);
            lemma_grid_index(b, 5, b / 5, b % 5);
        } else if b < 34 {
            assert(l[b] == grass_layer()[b - 25]);
            lemma_grid_index(b - 25, 3, (b - 25) / 3, (b - 25) % 3);
        } else if b < 35 {
            assert(l[b] == water_source()[b - 34]);
        } else if b < 51 {
            assert(l[b] == greenhouse()[b - 35]);
            let j = b - 35;
            lemma_grid_index(j, 2, j / 2, j % 2);
            let c = glass_cell(j / 2);
            lemma_grid_index(c, 3, c / 3, c % 3);
        } else if b < 54 {
            assert(l[b] == diamond_column()[b - 51]);
        } else {
            assert(l[b] == tree()[b - 54]);
        }
    }
    assert forall|a: int, b: int| 0 <= a < b < l.len() implies l[a].0 != l[b].0 by {
        assert(layout_index(l[a].0) == a);
        assert(layout_index(l[b].0) == b);
    }
}

/// Every vertex drawn for a block carries the block's material, and the
/// block's texture is laid on each face upright and unmirrored: the vertex's
/// texture coordinates follow the face pattern (0,0) (1,0) (0,1) (0,1) (1,0)
/// (1,1), and its offset from the block's doubled centre is its normal plus
/// `2u - 1` times the face's right direction plus `2v - 1` times its up
/// direction.
pub proof fn lemma_block_vertex_texture(blocks: Seq<BlockModel>, j: int)
    requires
        0 <= j < blocks_vertices(blocks).len(),
    ensures
        ({
            let v = blocks_vertices(blocks)[j];
            let center = blocks[j / 36].0;
            &&& v.material_id == blocks[j / 36].1
            &&& v.tex_coords == face_uv_pattern()[j % 6]
            &&& sub3(v.position, scale3(2, center)) == texture_point(v.normal, v.tex_coords)
        }),
{
    let b = j / 36;
    let i = j % 36;
    lemma_grid_index(j, 36, b, i);
    let f = i / 6;
    let k = i % 6;
    lemma_grid_index(i, 6, f, k);
    lemma_grid_index(j, 6, 6 * b + f, k);
    lemma_corner_texture(i);
    let v = blocks_vertices(blocks)[j];
    assert(sub3(v.position, scale3(2, blocks[b].0)) == corner_offset(i));
}

/// The cells of the island: a 5 x 5 stone base at height 0, a 3 x 3 grass
/// layer on its middle, the water source on the grass, the greenhouse's
/// eight two-block columns around its empty middle cell, the diamond column
/// and the tree's trunk and five leaves.
pub open spec fn island_cell(p: Coord3) -> bool {
    ||| p.1 == 0 && 0 <= p.0 <= 4 && 0 <= p.2 <= 4
    ||| p.1 == 1 && 1 <= p.0 <= 3 && 1 <= p.2 <= 3
    ||| p == (2int, 2int, 2int)
    ||| 6 <= p.0 <= 8 && 1 <= p.1 <= 2 && 0 <= p.2 <= 2 && !(p.0 == 7 && p.2 == 1)
    ||| p.0 == 8 && p.2 == 8 && 1 <= p.1 <= 3
    ||| is_trunk(p)
    ||| is_leaf(p)
}

/// The tree's trunk: two blocks above the grass at the base's corner.
pub open spec fn is_trunk(p: Coord3) -> bool {
    p == (0int, 2int, 0int) || p == (0int, 3int, 0int)
}

/// The tree's leaves: four around the trunk's top and one above it.
pub open spec fn is_leaf(p: Coord3) -> bool {
    ||| p == (-1int, 3int, 0int)
    ||| p == (1int, 3int, 0int)
    ||| p == (0int, 3int, -1int)
    ||| p == (0int, 3int, 1int)
    ||| p == (0int, 4int, 0int)
}

/// The material that the block in island cell `p` is made of: stone (1) for
/// the base and the trunk, water (2) for the source, glass (3) for the
/// greenhouse, diamond (4) for the column, grass (0) for the grass layer and
/// the leaves.
pub open spec fn material_at(p: Coord3) -> int {
    if p.1 == 0 || is_trunk(p) {
        1
    } else if p == (2int, 2int, 2int) {
        2
    } else if p.0 == 8 && p.2 == 8 {
        4
    } else if p.0 >= 6 {
        3
    } else {
        0
    }
}

/// Every block of the island stands in an island cell and is made of that
/// cell's material; in particular every leaf of the tree is grass (0) and
/// only its two trunk blocks are stone (1). With the 61 distinct cells of
/// `lemma_island_cells_distinct` this is the whole island, cell for cell.
pub proof fn lemma_island_by_cell()
    ensures
        forall|b: int|
            0 <= b < island_layout().len() ==> {
                let (p, m) = #[trigger] island_layout()[b];
                &&& island_cell(p)
                &&& m == material_at(p)
            },
        forall|b: int| 0 <= b < island_layout().len() && is_leaf(#[trigger] island_layout()[b].0) ==> island_layout()[b].1 == 0,
        forall|b: int| 0 <= b < island_layout().len() && is_trunk(#[trigger] island_layout()[b].0) ==> island_layout()[b].1 == 1,
        island_layout().len() == 61,
{
    let l = island_layout();
    assert forall|b: int| 0 <= b < l.len() implies island_cell((#[trigger] l[b]).0) && l[b].1 == material_at(l[b].0) by {
        if b < 25 {
            assert(l[b] == stone_base()[b]);
        } else if b < 34 {
            assert(l[b] == grass_layer()[b - 25]);
        } else if b < 35 {
            assert(l[b] == water_source()[b - 34]);
        } else if b < 51 {
            assert(l[b] == greenhouse()[b - 35]);
            let j = b - 35;
            lemma_grid_index(j, 2, j / 2, j % 2);
            let c = glass_cell(j / 2);
            lemma_grid_index(c, 3, c / 3, c % 3);
        } else if b < 54 {
            assert(l[b] == diamond_column()[b - 51]);
        } else {
            assert(l[b] == tree()[b - 54]);
        }
    }
}

/// Each block's cube lists its faces in the order front, right, back, left,
/// top, bottom, six vertices each, with outward normals +z, +x, -z, -x, +y
/// and -y.
pub proof fn lemma_block_face_order(blocks: Seq<BlockModel>, j: int)
    requires
        0 <= j < blocks_vertices(blocks).len(),
    ensures
        blocks_vertices(blocks)[j].normal == seq![(0int, 0int, 1int), (1int, 0int, 0int), (0int, 0int, -1int), (-1int, 0int, 0int), (0int, 1int, 0int), (0int, -1int, 0int)][(j % 36) / 6],
{
    assert(0 <= j / 36 < blocks.len()) by (nonlinear_arith)
        requires
            0 <= j < 36 * blocks.len(),
    ;
}

/// Every block of the island is drawn with the material, and so the texture
/// file, that its cell calls for, given the diorama's materials (whose
/// material `i` samples layer `i`): the base and the trunk with stone, the
/// grass layer and the leaves with grass, the source with water, the
/// greenhouse with glass and the column with diamond.
pub proof fn lemma_island_textures(s: Seq<Material>)
    requires
        is_block_materials(s),
    ensures
        forall|b: int|
            0 <= b < island_layout().len() ==> {
                let (p, m) = #[trigger] island_layout()[b];
                let file = texture_file(s[m].texture_id as int);
                &&& 0 <= m < s.len()
                &&& s[m].texture_id == m
                &&& (p.1 == 0 || is_trunk(p)) ==> file == "src/images/stone.jpg"
                &&& (p.1 == 1 && p.0 <= 3 || is_leaf(p)) ==> file == "src/images/grass_block.jpg"
                &&& p == (2int, 2int, 2int) ==> file == "src/images/water.jpg"
                &&& p.0 >= 6 && p.2 <= 2 ==> file == "src/images/glass.jpg"
                &&& p.0 == 8 && p.2 == 8 ==> file == "src/images/diamond_block.jpg"
            },
{
    lemma_island_by_cell();
    let l = island_layout();
    assert forall|b: int| 0 <= b < l.len() implies ({
        let (p, m) = #[trigger] l[b];
        let file = texture_file(s[m].texture_id as int);
        &&& 0 <= m < s.len()
        &&& s[m].texture_id == m
        &&& (p.1 == 0 || is_trunk(p)) ==> file == "src/images/stone.jpg"
        &&& (p.1 == 1 && p.0 <= 3 || is_leaf(p)) ==> file == "src/images/grass_block.jpg"
        &&& p == (2int, 2int, 2int) ==> file == "src/images/water.jpg"
        &&& p.0 >= 6 && p.2 <= 2 ==> file == "src/images/glass.jpg"
        &&& p.0 == 8 && p.2 == 8 ==> file == "src/images/diamond_block.jpg"
    }) by {
        let (p, m) = l[b];
        assert(island_cell(p) && m == material_at(p));
        lemma_layers_follow_materials(s[m]);
    }
}

} // verus!
