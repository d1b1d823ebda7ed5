//! Verified core of an OpenGL rendering library.
//!
//! The crate covers the two pieces of a renderer that are pure bookkeeping and
//! therefore provable: procedural surface tessellation (sphere, cylinder,
//! skybox cube, depth grids) and the state carried by GPU resource wrappers
//! (buffer sizes, attribute layouts, draw counts, uniform location tables,
//! texture upload parameters).
//!
//! Everything that touches the native graphics API, the window system, the
//! file system or floating-point arithmetic lives outside this crate: the
//! embedder supplies native handles as plain integers, evaluates the
//! trigonometric surface projections, and issues the command sequences that
//! the wrappers here compute and justify.

pub mod buffer;
pub mod cylinder;
pub mod data;
pub mod mesh;
pub mod shader;
pub mod shape;
pub mod skybox;
pub mod sphere;
pub mod texture;
pub mod uniform;
pub mod types;
pub mod util;
