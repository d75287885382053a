//! A lazily loaded virtual source tree, an overlay engine that puts a writable
//! layer on top of it, and the registry of the mounts a daemon serves.
//!
//! Everything here computes on plain values: whoever embeds the crate performs
//! the kernel mounts and the store fetches and reports how they ended.

pub mod antares;
pub mod daemon;
pub mod dicfuse;
pub mod fserror;
