//! Removal of duplicate history rows across files. Nothing is removed yet:
//! the manager only holds the place.

use vstd::prelude::*;

verus! {

/// Keeps track of the history rows that were seen. It holds no state yet.
pub struct DeduplicationManager;

impl DeduplicationManager {
    pub fn new() -> (r: Self) {
        DeduplicationManager
    }
}

impl Default for DeduplicationManager {
    fn default() -> Self {
        DeduplicationManager
    }
}

} // verus!
