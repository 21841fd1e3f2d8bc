//! The daemon that plays tracks.

pub mod media_ops;
