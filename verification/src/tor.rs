//! Overlay bootstrap support.
//!
//! The bootstrap itself — building the overlay client's configuration
//! and waiting for its directory state — happens outside; what it
//! needs from the configuration is the pair of storage directories
//! derived from the base data directory, built here.

use vstd::prelude::*;

verus! {

/// The cache and state directories the overlay client stores its
/// data under: `cache` and `state` below the base data directory.
pub fn storage_paths(data_dir: &str) -> (r: (String, String))
    ensures
        r.0@ == data_dir@ + "/cache"@,
        r.1@ == data_dir@ + "/state"@,
{
    let cache = String::from_str(data_dir).concat("/cache");
    let state = String::from_str(data_dir).concat("/state");
    (cache, state)
}

} // verus!
