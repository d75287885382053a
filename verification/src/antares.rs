//! The overlay engine.

pub mod fuse;
pub mod laws;
pub mod overlay;
pub mod path;
