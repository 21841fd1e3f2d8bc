//! What the operations of the library are for.
//!
//! Each law speaks of calls: given what a call took and what came of it, it says
//! in plain terms what must hold, or how it relates to another call.

pub mod adoption;
pub mod cache;
pub mod config;
pub mod daemon;
pub mod download;
pub mod eviction;
pub mod listing;
pub mod naming;
pub mod text;
