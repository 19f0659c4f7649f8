//! The deferred unit of work: one asynchronous computation behind a uniform,
//! type-erased handle.

use futures::task::FutureObj;
use std::future::Future;
use std::pin::Pin;
use std::task::Context;
use std::task::Poll;
use vstd::prelude::*;

verus! {

/// `futures::task::FutureObj`: an owned, type-erased future that may move
/// between threads. Opaque to the verifier.
#[verifier::external_type_specification]
#[verifier::external_body]
#[verifier::reject_recursive_types(T)]
pub struct ExFutureObj<'a, T>(FutureObj<'a, T>);

/// `std::pin::Pin`. Opaque to the verifier.
#[verifier::external_type_specification]
#[verifier::external_body]
#[verifier::reject_recursive_types(Ptr)]
pub struct ExPin<Ptr>(Pin<Ptr>);

/// `std::task::Poll`. Opaque to the verifier.
#[verifier::external_type_specification]
#[verifier::external_body]
#[verifier::reject_recursive_types(T)]
pub struct ExPoll<T>(Poll<T>);

/// `std::task::Context`. Opaque to the verifier.
#[verifier::external_type_specification]
#[verifier::external_body]
pub struct ExContext<'a>(Context<'a>);

/// One deferred unit of work. It owns exactly one pinned, heap-allocated
/// computation without output; it cannot be cloned or looked into, only moved
/// and driven to completion.
pub struct TestResult {
    future: FutureObj<'static, ()>,
}

/// Pins `f` on the heap with `std::boxed::Box::pin` and erases its type with
/// `futures::task::FutureObj::new`. Nothing is claimed of the handle: the
/// verifier cannot see inside a computation.
#[verifier::external_body]
fn erase<F: Future<Output = ()> + Send + 'static>(f: F) -> (future: FutureObj<'static, ()>) {
    FutureObj::new(Box::pin(f))
}

impl TestResult {
    /// Wraps the computation `f` into a unit of work, which then owns it.
    pub fn new<F: Future<Output = ()> + Send + 'static>(f: F) -> (unit: Self)
        ensures
            unit.wraps(f),
    {
        TestResult { future: erase(f) }
    }

    /// Whether the unit owns the computation `f`: what it holds is what
    /// pinning `f` on the heap and erasing its type gave.
    pub closed spec fn wraps<F: Future<Output = ()> + Send + 'static>(&self, f: F) -> bool {
        call_ensures(erase::<F>, (f,), self.future)
    }

    /// The computation that the unit owns.
    pub closed spec fn computation(&self) -> FutureObj<'static, ()> {
        self.future
    }

    /// Wraps an already erased computation.
    pub fn from_inner(future: FutureObj<'static, ()>) -> (unit: Self)
        ensures
            unit.computation() == future,
    {
        TestResult { future }
    }

    /// Gives up the handle for the computation inside it.
    pub fn into_inner(self) -> (future: FutureObj<'static, ()>)
        ensures
            future == self.computation(),
    {
        self.future
    }
}

impl Future for TestResult {
    type Output = ();

    /// Polls the wrapped computation through `FutureObj`'s own
    /// `Future::poll` and hands its answer back unchanged. Trusted: the
    /// verifier does not model polling.
    #[verifier::external_body]
    fn poll(mut self: Pin<&mut Self>, cx: &mut Context<'_>) -> Poll<()> {
        Pin::new(&mut self.future).poll(cx)
    }
}

} // verus!
