use cucumber_trellis::TestResult;
use futures::executor::block_on;
use std::sync::{
    atomic::{AtomicUsize, Ordering},
    Arc,
};

#[test]
fn test_result() {
    let mut witness = Arc::new(AtomicUsize::new(1));

    let result = {
        let witness = Arc::clone(&mut witness);
        TestResult::new(async move {
            witness.store(42, Ordering::SeqCst);
        })
    };

    block_on(result);
    assert_eq!(witness.load(Ordering::SeqCst), 42);
}

#[test]
fn result_does_nothing_until_driven() {
    let witness = Arc::new(AtomicUsize::new(1));
    let unit = {
        let witness = Arc::clone(&witness);
        TestResult::new(async move {
            witness.store(7, Ordering::SeqCst);
        })
    };
    assert_eq!(witness.load(Ordering::SeqCst), 1);
    block_on(unit);
    assert_eq!(witness.load(Ordering::SeqCst), 7);
}

#[test]
fn result_round_trips_through_its_inner_handle() {
    let witness = Arc::new(AtomicUsize::new(0));
    let unit = {
        let witness = Arc::clone(&witness);
        TestResult::new(async move {
            witness.fetch_add(3, Ordering::SeqCst);
        })
    };
    let again = TestResult::from_inner(unit.into_inner());
    block_on(again.into_inner());
    assert_eq!(witness.load(Ordering::SeqCst), 3);
}
