//! The layers of the texture array and what stands in for a texture file
//! that cannot be loaded.
use vstd::prelude::*;
use crate::materials::{
    Material, is_diamond_block, is_glass, is_grass_block, is_material_table, is_skybox_material,
    is_stone, is_water,
};

verus! {

/// Number of layers in the texture array: one per material.
pub const TEXTURE_LAYERS: usize = 6;

/// Width and height, in texels, that every layer is resized to.
pub const TEXTURE_SIZE: u32 = 512;

/// Bytes in one row of a layer: four bytes (RGBA) per texel.
pub const TEXTURE_BYTES_PER_ROW: u32 = 2048;

/// The file that layer `layer` is loaded from.
pub open spec fn texture_file(layer: int) -> &'static str {
    if layer == 0 {
        "src/images/grass_block.jpg"
    } else if layer == 1 {
        "src/images/stone.jpg"
    } else if layer == 2 {
        "src/images/water.jpg"
    } else if layer == 3 {
        "src/images/glass.jpg"
    } else if layer == 4 {
        "src/images/diamond_block.jpg"
    } else {
        "src/images/skybox.jpg"
    }
}

/// The solid RGBA colour that fills layer `layer` when its file cannot be
/// loaded: green grass, grey stone, blue water, light blue translucent glass,
/// bright blue diamond, sky blue; white for any other layer.
pub open spec fn fallback_rgba(layer: int) -> (int, int, int, int) {
    if layer == 0 {
        (0, 255, 0, 255)
    } else if layer == 1 {
        (128, 128, 128, 255)
    } else if layer == 2 {
        (0, 100, 255, 255)
    } else if layer == 3 {
        (200, 200, 255, 128)
    } else if layer == 4 {
        (100, 200, 255, 255)
    } else if layer == 5 {
        (135, 206, 235, 255)
    } else {
        (255, 255, 255, 255)
    }
}

/// The file that layer `layer` is loaded from.
pub fn texture_path(layer: usize) -> (r: &'static str)
    requires
        layer < TEXTURE_LAYERS,
    ensures
        r == texture_file(layer as int),
{
    if layer == 0 {
        "src/images/grass_block.jpg"
    } else if layer == 1 {
        "src/images/stone.jpg"
    } else if layer == 2 {
        "src/images/water.jpg"
    } else if layer == 3 {
        "src/images/glass.jpg"
    } else if layer == 4 {
        "src/images/diamond_block.jpg"
    } else {
        "src/images/skybox.jpg"
    }
}

/// The colour that fills layer `layer` when its file cannot be loaded.
pub fn fallback_color(layer: usize) -> (r: [u8; 4])
    ensures
        (r[0] as int, r[1] as int, r[2] as int, r[3] as int) == fallback_rgba(layer as int),
{
    if layer == 0 {
        [0, 255, 0, 255]
    } else if layer == 1 {
        [128, 128, 128, 255]
    } else if layer == 2 {
        [0, 100, 255, 255]
    } else if layer == 3 {
        [200, 200, 255, 128]
    } else if layer == 4 {
        [100, 200, 255, 255]
    } else if layer == 5 {
        [135, 206, 235, 255]
    } else {
        [255, 255, 255, 255]
    }
}

/// Every material of the renderer's table samples a layer that the texture
/// array has.
pub proof fn lemma_materials_sample_existing_layers(s: Seq<Material>)
    requires
        is_material_table(s),
    ensures
        forall|i: int| 0 <= i < s.len() ==> (#[trigger] s[i]).texture_id < TEXTURE_LAYERS,
{
    crate::materials::lemma_material_table(s);
}

/// Each texture layer is loaded from the file named after the material that
/// samples it, and filled, when that file cannot be loaded, with a solid
/// colour of that material: the grass block's layer from grass_block.jpg or
/// green, the stone's from stone.jpg or grey, the water's from water.jpg or
/// blue, the glass's from glass.jpg or a translucent light blue, the
/// diamond's from diamond_block.jpg or bright blue, the skybox's from
/// skybox.jpg or sky blue.
pub proof fn lemma_layers_follow_materials(m: Material)
    ensures
        is_grass_block(m) ==> texture_file(m.texture_id as int) == "src/images/grass_block.jpg"
            && fallback_rgba(m.texture_id as int) == (0int, 255int, 0int, 255int),
        is_stone(m) ==> texture_file(m.texture_id as int) == "src/images/stone.jpg"
            && fallback_rgba(m.texture_id as int) == (128int, 128int, 128int, 255int),
        is_water(m) ==> texture_file(m.texture_id as int) == "src/images/water.jpg"
            && fallback_rgba(m.texture_id as int) == (0int, 100int, 255int, 255int),
        is_glass(m) ==> texture_file(m.texture_id as int) == "src/images/glass.jpg"
            && fallback_rgba(m.texture_id as int) == (200int, 200int, 255int, 128int),
        is_diamond_block(m) ==> texture_file(m.texture_id as int) == "src/images/diamond_block.jpg"
            && fallback_rgba(m.texture_id as int) == (100int, 200int, 255int, 255int),
        is_skybox_material(m) ==> texture_file(m.texture_id as int) == "src/images/skybox.jpg"
            && fallback_rgba(m.texture_id as int) == (135int, 206int, 235int, 255int),
{
}

/// Only the glass's fallback colour lets light through; every other layer's
/// fallback, and the white of any layer beyond the array, is opaque.
pub proof fn lemma_fallbacks_opaque_but_glass(layer: int)
    ensures
        layer != 3 ==> fallback_rgba(layer).3 == 255,
        fallback_rgba(3).3 < 255,
{
}

/// A layer's rows hold four bytes (red, green, blue, alpha) per texel.
pub proof fn lemma_row_bytes()
    ensures
        TEXTURE_BYTES_PER_ROW == 4 * TEXTURE_SIZE,
        TEXTURE_SIZE == 512,
{
}

} // verus!
