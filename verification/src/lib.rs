//! Core of a small real-time scene renderer.
//!
//! The crate keeps the decision-making parts of a renderer in verified code:
//! vector paths and their fill tessellation, mesh byte layout, the 2D camera
//! and its uniform snapshot, named-resource lookup, and the ordered binding
//! protocol that precedes an indexed draw. GPU submission itself is left to
//! the caller, which replays the recorded commands on a real device.

pub mod camera2d;
pub mod draw;
pub mod fill_backend;
pub mod mesh;
pub mod path;
pub mod registry;
pub mod scene;
pub mod sky;
pub mod tess;
pub mod transform;
pub mod vector_sprite;
