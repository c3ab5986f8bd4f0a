//! Runtime core of a small real-time 3D engine: viewport and frame
//! lifecycle state, the material/mesh registry, canonical meshes, texture
//! decoding and the input-mode rules of the application shell.

pub mod engine;
pub mod graphics;
pub mod mesh;
pub mod registry;
mod slots;
pub mod texture;
