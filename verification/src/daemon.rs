//! The management daemon.

pub mod antares;
