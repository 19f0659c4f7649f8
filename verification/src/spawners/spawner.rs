//! The capability that the orchestrator asks of a backend.

use crate::result::TestResult;
use vstd::prelude::*;

verus! {

/// What became of a unit of work that was handed to a spawner. Either way
/// something is left to await, and it completes once the unit has.
pub enum Spawned {
    /// The backend has taken the unit and runs it. What is held here is
    /// the backend's handle on the run.
    Submitted(TestResult),
    /// The backend has not taken the unit. It is handed back as it came,
    /// and runs when it is awaited, on the context of whoever awaits it.
    Deferred(TestResult),
}

impl Spawned {
    /// What is left to await.
    pub open spec fn unit(self) -> TestResult {
        match self {
            Spawned::Submitted(watch) => watch,
            Spawned::Deferred(unit) => unit,
        }
    }

    /// Whether the backend has taken the unit.
    pub fn is_submitted(&self) -> (submitted: bool)
        ensures
            submitted == (*self is Submitted),
    {
        match self {
            Spawned::Submitted(_) => true,
            Spawned::Deferred(_) => false,
        }
    }

    /// Gives up the outcome for what is left to await.
    pub fn into_unit(self) -> (unit: TestResult)
        ensures
            unit == self.unit(),
    {
        match self {
            Spawned::Submitted(watch) => watch,
            Spawned::Deferred(unit) => unit,
        }
    }
}

/// A backend that takes ownership of a unit of work and sees to it that the
/// unit runs to completion. It never drives the unit on the calling thread
/// itself: it submits the unit to an executor, or hands it back to be
/// awaited.
pub trait TestSpawner {
    /// What the backend may make of the unit `res`. A backend that does not
    /// say is held to nothing.
    open spec fn places(&self, res: TestResult, spawned: Spawned) -> bool {
        true
    }

    /// Accepts `res` for execution and tells what became of it.
    fn spawn(&self, res: TestResult) -> (spawned: Spawned)
        ensures
            self.places(res, spawned),
    ;
}

/// A spawner that can be made from nothing, so that it can be chosen by its
/// type alone.
pub trait TestSpawnFactory: Sized {
    /// Makes the spawner.
    fn new() -> Self;
}

} // verus!
