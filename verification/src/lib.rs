//! Scene resource model and render pipeline of a small real-time renderer.
//!
//! The library decides; the program around it talks to the GPU and to the
//! disk. Numbers that the GPU reads as IEEE-754 single precision travel
//! through the library as their 32-bit patterns, which it moves and compares
//! but never does arithmetic on.

pub mod scalar;
pub mod gpu;
pub mod camera;
pub mod shader;
pub mod texture;
pub mod material;
pub mod mesh;
pub mod model;
