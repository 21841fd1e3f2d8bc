//! Verified core of a size-capped, least-recently-used cache of downloaded
//! media files.
//!
//! The library decides and never acts: it is told what the filesystem, the
//! server and the environment say, and says what to do next. Its contracts are
//! stated over the mathematical content of its types.

pub mod config;
pub mod daemon;
pub mod laws;
pub mod media_cache;
pub mod path;
pub mod text;
