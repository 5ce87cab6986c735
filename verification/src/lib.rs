//! The scene logic of a Skyblock diorama: the island's blocks and their
//! materials, the cube meshes drawn for them and for the skybox, the camera
//! controls and the decisions of the window's event loop.

pub mod common;
pub mod controls;
pub mod diorama;
pub mod geometry;
pub mod materials;
pub mod mesh;
pub mod scene;
pub mod skybox;
pub mod textures;

pub use common::{Light, Vertex, light, vertex};
pub use diorama::Diorama;
pub use materials::{Block, Material};
pub use mesh::create_vertices;
pub use skybox::create_skybox_vertices;
