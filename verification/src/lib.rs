//! Host-side control plane of a progressively refining GPU renderer.
//!
//! The library owns the scene data model, the transform baking step, the
//! flattening of baked meshes into GPU-ready arrays with re-based indices,
//! and the per-frame state machine: camera input integration, ping-pong
//! accumulation buffering and sample-count invalidation. The GPU device,
//! the window and all file I/O live outside the library and talk to it
//! through plain values.

pub mod bake;
pub mod encode;
pub mod loader;
pub mod math;
pub mod mesh;
pub mod state;
