//! A backend that submits units to the Tokio runtime.

use super::Spawned;
use super::TestSpawnFactory;
use super::TestSpawner;
use crate::result::TestResult;
use tokio::runtime::Handle;
use futures::task::FutureObj;
use futures::FutureExt;
use vstd::prelude::*;

verus! {

/// `tokio::runtime::Handle`: a reference to a running Tokio runtime. Opaque
/// to the verifier.
#[verifier::external_type_specification]
#[verifier::external_body]
pub struct ExHandle(Handle);

/// Submits each unit to the Tokio runtime of the calling context, where
/// there is one. `spawn` returns once the unit is submitted, not once it has
/// completed. Outside a runtime nothing can be submitted, and the unit is
/// handed back.
pub struct TokioSpawner;

/// Calls `tokio::runtime::Handle::try_current`, which never panics: the
/// runtime of the calling context, or `None` where there is none. Trusted,
/// and nothing is claimed of the answer, which depends on where the call is
/// made.
#[verifier::external_body]
fn current_runtime() -> (runtime: Option<Handle>) {
    Handle::try_current().ok()
}

/// Calls `tokio::runtime::Handle::spawn` on `future`, which starts the task
/// on `runtime` and returns at once, and erases the type of the join handle,
/// its output dropped: the handle completes once the task has ended, also
/// where the task panicked. Trusted, and nothing is claimed of the handle:
/// the verifier cannot see inside a computation.
#[verifier::external_body]
fn submit(runtime: &Handle, future: FutureObj<'static, ()>) -> (watch: FutureObj<'static, ()>) {
    FutureObj::new(Box::pin(runtime.spawn(future).map(drop)))
}

/// Whether `watch` is the handle that submitting `unit` to `runtime` gave.
pub closed spec fn submitted_to(watch: TestResult, runtime: Handle, unit: TestResult) -> bool {
    call_ensures(submit, (&runtime, unit.computation()), watch.computation())
}

impl TokioSpawner {
    /// Places `res` given the runtime that was found: it is submitted to
    /// the runtime where there is one, and handed back where there is none.
    pub fn place(runtime: Option<Handle>, res: TestResult) -> (spawned: Spawned)
        ensures
            match spawned {
                Spawned::Submitted(watch) => runtime is Some && submitted_to(
                    watch,
                    runtime.unwrap(),
                    res,
                ),
                Spawned::Deferred(unit) => runtime is None && unit == res,
            },
    {
        match runtime {
            Some(handle) => {
                let watch = submit(&handle, res.into_inner());
                Spawned::Submitted(TestResult::from_inner(watch))
            },
            None => Spawned::Deferred(res),
        }
    }
}

impl TestSpawner for TokioSpawner {
    /// Whatever runtime is found, the unit is either submitted to it or
    /// handed back as it came.
    open spec fn places(&self, res: TestResult, spawned: Spawned) -> bool {
        match spawned {
            Spawned::Submitted(watch) => exists|runtime: Handle| submitted_to(watch, runtime, res),
            Spawned::Deferred(unit) => unit == res,
        }
    }

    fn spawn(&self, res: TestResult) -> (spawned: Spawned) {
        TokioSpawner::place(current_runtime(), res)
    }
}

impl TestSpawnFactory for TokioSpawner {
    fn new() -> Self {
        TokioSpawner
    }
}

} // verus!
