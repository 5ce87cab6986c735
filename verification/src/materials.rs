//! The materials of the scene and the blocks that use them.
//!
//! Material quantities are kept in hundredths: 100 stands for 1.0. The
//! renderer divides them by 100 when it fills its material buffer.
use vstd::prelude::*;
use crate::geometry::Coord3;

verus! {

/// How a surface reflects and lets through light; quantities in hundredths.
#[derive(Clone, Copy, Debug)]
pub struct Material {
    /// Base colour: red, green, blue.
    pub albedo: [u32; 3],
    /// Specular intensity.
    pub specular: u32,
    /// Transparency: 0 is opaque, 100 fully transparent.
    pub transparency: u32,
    /// Reflectivity: 0 reflects nothing, 100 is a mirror.
    pub reflectivity: u32,
    /// Refractive index.
    pub refractive_index: u32,
    /// Layer of the texture array that the material samples.
    pub texture_id: u32,
}

/// `m` has exactly the given quantities.
pub open spec fn material_is(
    m: Material,
    albedo: (int, int, int),
    specular: int,
    transparency: int,
    reflectivity: int,
    refractive_index: int,
    texture_id: int,
) -> bool {
    &&& m.albedo[0] == albedo.0
    &&& m.albedo[1] == albedo.1
    &&& m.albedo[2] == albedo.2
    &&& m.specular == specular
    &&& m.transparency == transparency
    &&& m.reflectivity == reflectivity
    &&& m.refractive_index == refractive_index
    &&& m.texture_id == texture_id
}

pub open spec fn is_grass_block(m: Material) -> bool {
    material_is(m, (20, 80, 20), 10, 0, 0, 100, 0)
}

pub open spec fn is_stone(m: Material) -> bool {
    material_is(m, (50, 50, 50), 30, 0, 0, 100, 1)
}

pub open spec fn is_water(m: Material) -> bool {
    material_is(m, (10, 30, 80), 60, 60, 30, 133, 2)
}

pub open spec fn is_glass(m: Material) -> bool {
    material_is(m, (90, 90, 90), 90, 80, 20, 150, 3)
}

pub open spec fn is_diamond_block(m: Material) -> bool {
    material_is(m, (20, 60, 100), 95, 0, 80, 100, 4)
}

/// The material of the skybox: white, matte, opaque, sampling texture layer 5.
pub open spec fn is_skybox_material(m: Material) -> bool {
    material_is(m, (100, 100, 100), 0, 0, 0, 100, 5)
}

/// The quantities lie where they have a physical meaning: colour components,
/// specular intensity, transparency and reflectivity between 0 and 1, and a
/// refractive index of at least 1 (that of vacuum).
pub open spec fn physically_valid(m: Material) -> bool {
    &&& m.albedo[0] <= 100
    &&& m.albedo[1] <= 100
    &&& m.albedo[2] <= 100
    &&& m.specular <= 100
    &&& m.transparency <= 100
    &&& m.reflectivity <= 100
    &&& m.refractive_index >= 100
}

impl Material {
    /// Green grass, texture layer 0.
    pub fn grass_block() -> (r: Self)
        ensures
            is_grass_block(r),
    {
        Material {
            albedo: [20, 80, 20],
            specular: 10,
            transparency: 0,
            reflectivity: 0,
            refractive_index: 100,
            texture_id: 0,
        }
    }

    /// Grey stone, texture layer 1.
    pub fn stone() -> (r: Self)
        ensures
            is_stone(r),
    {
        Material {
            albedo: [50, 50, 50],
            specular: 30,
            transparency: 0,
            reflectivity: 0,
            refractive_index: 100,
            texture_id: 1,
        }
    }

    /// Blue, partly transparent water with the refractive index of water,
    /// texture layer 2.
    pub fn water() -> (r: Self)
        ensures
            is_water(r),
    {
        Material {
            albedo: [10, 30, 80],
            specular: 60,
            transparency: 60,
            reflectivity: 30,
            refractive_index: 133,
            texture_id: 2,
        }
    }

    /// Nearly white, mostly transparent glass with the refractive index of
    /// glass, texture layer 3.
    pub fn glass() -> (r: Self)
        ensures
            is_glass(r),
    {
        Material {
            albedo: [90, 90, 90],
            specular: 90,
            transparency: 80,
            reflectivity: 20,
            refractive_index: 150,
            texture_id: 3,
        }
    }

    /// Bright blue, highly reflective diamond, texture layer 4.
    pub fn diamond_block() -> (r: Self)
        ensures
            is_diamond_block(r),
    {
        Material {
            albedo: [20, 60, 100],
            specular: 95,
            transparency: 0,
            reflectivity: 80,
            refractive_index: 100,
            texture_id: 4,
        }
    }
}

/// The materials of the diorama's blocks, indexed by a block's `material_id`:
/// grass, stone, water, glass, diamond.
pub open spec fn is_block_materials(s: Seq<Material>) -> bool {
    &&& s.len() == 5
    &&& is_grass_block(s[0])
    &&& is_stone(s[1])
    &&& is_water(s[2])
    &&& is_glass(s[3])
    &&& is_diamond_block(s[4])
}

/// The renderer's material table: the block materials followed by that of the
/// skybox, indexed by a vertex's `material_id`.
pub open spec fn is_material_table(s: Seq<Material>) -> bool {
    &&& s.len() == 6
    &&& is_block_materials(s.take(5))
    &&& is_skybox_material(s[5])
}

/// The materials that the diorama's blocks use, in the order of their ids.
pub fn block_materials() -> (r: Vec<Material>)
    ensures
        is_block_materials(r@),
{
    vec![
        Material::grass_block(),
        Material::stone(),
        Material::water(),
        Material::glass(),
        Material::diamond_block(),
    ]
}

/// The material table that the renderer uploads: the block materials and,
/// last, the skybox's.
pub fn material_table() -> (r: Vec<Material>)
    ensures
        is_material_table(r@),
{
    let mut r = block_materials();
    r.push(
        Material {
            albedo: [100, 100, 100],
            specular: 0,
            transparency: 0,
            reflectivity: 0,
            refractive_index: 100,
            texture_id: 5,
        },
    );
    assert(r@.take(5) =~= r@.take(6).take(5));
    r
}

/// Every material of the renderer's table is physically valid, and the
/// material with index `i` samples texture layer `i`.
pub proof fn lemma_material_table(s: Seq<Material>)
    requires
        is_material_table(s),
    ensures
        forall|i: int| 0 <= i < 6 ==> physically_valid(#[trigger] s[i]),
        forall|i: int| 0 <= i < 6 ==> (#[trigger] s[i]).texture_id == i,
{
    assert(s.take(5)[0] == s[0] && s.take(5)[1] == s[1] && s.take(5)[2] == s[2]);
    assert(s.take(5)[3] == s[3] && s.take(5)[4] == s[4]);
}

/// One block of the diorama: a unit cube with its centre on the integer grid.
#[derive(Clone, Copy, Debug)]
pub struct Block {
    pub position: [i32; 3],
    /// Index of the block's material in the diorama's materials.
    pub material_id: u32,
}

impl View for Block {
    /// The block's centre and its material.
    type V = (Coord3, int);

    open spec fn view(&self) -> (Coord3, int) {
        (
            (self.position[0] as int, self.position[1] as int, self.position[2] as int),
            self.material_id as int,
        )
    }
}

impl Block {
    /// The block centred at `(x, y, z)` with the given material.
    pub fn new(x: i32, y: i32, z: i32, material_id: u32) -> (r: Self)
        ensures
            r@ == ((x as int, y as int, z as int), material_id as int),
    {
        Block { position: [x, y, z], material_id }
    }
}

/// What each material looks like: grass is green and stone grey, both opaque
/// and matte; water is blue and partly transparent, with the refractive
/// index of water (1.33); glass is nearly white and more transparent than
/// water, with the refractive index of glass (1.5); diamond is bright blue,
/// opaque and the most reflective; the opaque materials do not refract
/// (index 1).
pub proof fn lemma_material_character(m: Material)
    ensures
        is_grass_block(m) ==> m.albedo[1] > m.albedo[0] && m.albedo[1] > m.albedo[2]
            && m.transparency == 0 && m.reflectivity == 0 && m.refractive_index == 100,
        is_stone(m) ==> m.albedo[0] == m.albedo[1] && m.albedo[1] == m.albedo[2]
            && m.transparency == 0 && m.reflectivity == 0 && m.refractive_index == 100,
        is_water(m) ==> m.albedo[2] > m.albedo[0] && m.albedo[2] > m.albedo[1]
            && 0 < m.transparency < 100 && m.refractive_index == 133,
        is_glass(m) ==> m.albedo[0] == m.albedo[1] && m.albedo[1] == m.albedo[2] && m.albedo[0] >= 90
            && m.transparency > 60 && m.refractive_index == 150,
        is_diamond_block(m) ==> m.albedo[2] == 100 && m.albedo[2] > m.albedo[1] && m.albedo[1] > m.albedo[0]
            && m.transparency == 0 && m.reflectivity > 30 && m.refractive_index == 100,
        is_skybox_material(m) ==> m.albedo[0] == 100 && m.albedo[1] == 100 && m.albedo[2] == 100
            && m.transparency == 0 && m.reflectivity == 0 && m.specular == 0,
{
}

} // verus!
