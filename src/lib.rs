//! Frame pipeline of an instanced mesh renderer: per-frame bookkeeping,
//! surface sizing, input routing and loop decisions, material planning,
//! texture decoding and synthesis, and mesh validation.
pub mod frame;
pub mod input;
pub mod instancing;
pub mod material;
pub mod mesh;
pub mod pixels;
pub mod scheduler;
pub mod surface;
pub mod texture;
