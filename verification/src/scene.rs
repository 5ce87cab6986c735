//! The whole scene that the program draws: the island's blocks inside the
//! skybox, under one white light.
use vstd::prelude::*;
use crate::common::{Light, Vertex, VertexModel, light, vertex_models};
use crate::diorama::{Diorama, blocks_vertices, island_layout, lemma_island_materials_exist};
use crate::skybox::{create_skybox_vertices, skybox_vertices};

verus! {

/// The vertices of the scene: those of the island's blocks, then those of the
/// skybox.
pub open spec fn scene_vertex_models() -> Seq<VertexModel> {
    blocks_vertices(island_layout()) + skybox_vertices()
}

/// Builds the vertices of the scene.
pub fn scene_vertices() -> (r: Vec<Vertex>)
    ensures
        vertex_models(r@) == scene_vertex_models(),
        r@.len() == 2232,
{
    let diorama = Diorama::new();
    let mut vertex_data = diorama.get_vertex_data();
    let mut skybox = create_skybox_vertices();
    let ghost island = vertex_data@;
    let ghost sky = skybox@;
    vertex_data.append(&mut skybox);
    assert(vertex_models(vertex_data@) =~= vertex_models(island) + vertex_models(sky));
    vertex_data
}

/// The scene's light: white diffuse and specular colours, ambient intensity
/// 0.2, diffuse 0.7, specular 0.3 and shininess 16 (all in hundredths).
pub fn scene_light() -> (r: Light)
    ensures
        r.color@ == seq![100u32, 100, 100, 100],
        r.specular_color@ == seq![100u32, 100, 100, 100],
        r.ambient_intensity == 20,
        r.diffuse_intensity == 70,
        r.specular_intensity == 30,
        r.specular_shininess == 1600,
{
    light([100, 100, 100], [100, 100, 100], 20, 70, 30, 1600)
}

/// Every vertex of the scene names an entry of the renderer's six-entry
/// material table: the island's vertices one of the five block materials,
/// the skybox's the sixth.
pub proof fn lemma_scene_materials_exist()
    ensures
        forall|j: int|
            0 <= j < scene_vertex_models().len() ==> 0 <= #[trigger] scene_vertex_models()[j].material_id < 6,
{
    lemma_island_materials_exist();
    let island = blocks_vertices(island_layout());
    assert forall|j: int| 0 <= j < scene_vertex_models().len() implies 0 <= #[trigger] scene_vertex_models()[j].material_id < 6 by {
        if j < island.len() {
            assert(scene_vertex_models()[j] == island[j]);
        } else {
            assert(scene_vertex_models()[j] == skybox_vertices()[j - island.len()]);
        }
    }
}

} // verus!
