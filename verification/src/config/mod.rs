//! Settings and where files are kept.

use vstd::prelude::*;

pub mod paths;

verus! {

/// The persisted settings of the media cache.
#[derive(Debug, Clone, Copy, PartialEq, Eq)]
pub struct Config {
    /// Whether downloaded tracks are kept.
    pub media_cache: bool,
    /// How many bytes of them are kept at most.
    pub media_cache_capacity_bytes: u64,
}

} // verus!
