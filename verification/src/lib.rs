//! Voxel terrain for a viewer that draws it chunk by chunk.
//!
//! The crate holds what such a viewer decides on the host, and leaves the
//! graphics device, the window and all floating-point arithmetic to its
//! caller. Numbers that the device reads as binary32 are carried as bit
//! patterns.
//!
//! - `faces`: the six faces of a cuboid as a bit set.
//! - `vertex`: the vertices that the meshes are made of.
//! - `mesh`: accumulators that append quads, four vertices and six indices
//!   at a time.
//! - `chunk`: from the height map of a chunk to its face-culled mesh.
//! - `world_geometry`: the meshes of a grid of chunks in one vertex list
//!   and one index list, and the table that tells the chunks apart.
//! - `managed_buffer`: host data with a dirty flag, and the copy that
//!   brings the device up to date.
//! - `camera`: the pose of the camera and the cache of its matrix.
//! - `input`: what keys and cursor do to the camera.
//! - `render_context`: what one frame copies and draws.

pub mod camera;
pub mod chunk;
pub mod faces;
pub mod input;
pub mod managed_buffer;
pub mod mesh;
pub mod render_context;
pub mod vertex;
pub mod world_geometry;
