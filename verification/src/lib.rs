//! Verified core of a small GPU renderer: size-tracked buffers, the ordered
//! bind-group protocol, pipeline descriptions, material variants and batched
//! draw submission, all on plain values.
//!
//! The graphics backend itself is not in here. Every GPU object is known by
//! a handle that its owner chose, and every operation hands back a plain
//! description of what the backend is to be asked for.

pub mod error;
pub mod buffer;
pub mod table;
pub mod texture;
pub mod bind_group;
pub mod material;
pub mod pipeline;
pub mod model;
pub mod mesh;
pub mod renderer;
pub mod skybox;
pub mod future;
pub mod renderable;
pub mod shader;
pub mod input;
pub mod uniform;
