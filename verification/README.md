# diorama

A Skyblock diorama: a small floating island of textured blocks (stone,
grass, water, a glass greenhouse, diamonds and a tree) inside a skybox,
drawn with wgpu and orbited with the arrow keys.

- `src/` is the verified library (Verus). It decides where every block
  stands and what it is made of, builds the cube meshes of the blocks and of
  the skybox, holds the material table, the texture layers and their
  fallback colours, the light, the camera controls and the decisions of the
  event loop. Positions are kept in half units and material and light
  quantities in hundredths, so that everything the scene is built from is an
  integer; `src/geometry.rs` describes the cube once, face by face, and the
  laws about winding, faces, normals and enclosure are proved from it.
- `app/` opens the window, loads the textures, fills the GPU buffers (turning
  the library's integer records into `f32` ones), runs the event loop and
  draws. It asks the library what each event calls for.
- `tests/` runs the library on concrete values.
