//! The backend used when none is chosen: the calling context runs the unit.

use super::Spawned;
use super::TestSpawnFactory;
use super::TestSpawner;
use crate::result::TestResult;
use vstd::prelude::*;

verus! {

/// Leaves each unit to the calling context: the unit is handed back
/// untouched, and runs to completion where the caller awaits or blocks on
/// it.
pub struct DefaultSpawner;

impl TestSpawner for DefaultSpawner {
    /// The unit is handed back as it came.
    open spec fn places(&self, res: TestResult, spawned: Spawned) -> bool {
        spawned == Spawned::Deferred(res)
    }

    fn spawn(&self, res: TestResult) -> (spawned: Spawned) {
        Spawned::Deferred(res)
    }
}

impl TestSpawnFactory for DefaultSpawner {
    fn new() -> Self {
        DefaultSpawner
    }
}

} // verus!
