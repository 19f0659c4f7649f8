use cucumber_trellis::spawners::{
    DefaultSpawner, Spawned, TestSpawnFactory, TestSpawner, TokioSpawner,
};
use cucumber_trellis::TestResult;
use futures::executor::block_on;
use std::sync::{
    atomic::{AtomicUsize, Ordering},
    Arc, Condvar, Mutex,
};
use std::time::Duration;
use tokio::runtime::Runtime;

fn storing(value: &Arc<AtomicUsize>, number: usize) -> TestResult {
    let value = Arc::clone(value);
    TestResult::new(async move {
        value.store(number, Ordering::SeqCst);
    })
}

#[test]
fn test_tokio_spawner() {
    let value = Arc::new(AtomicUsize::new(0_usize));

    {
        let condition = Arc::new(Condvar::new());
        let func = {
            let value = Arc::clone(&value);
            let condition = Arc::clone(&condition);

            || async move {
                value.store(42, Ordering::SeqCst);
                condition.notify_all();
            }
        };

        let lock = Mutex::new(());
        let rt = Runtime::new().unwrap();

        rt.block_on(async move {
            TokioSpawner.spawn(TestResult::new(func()));
            drop(condition.wait_timeout(lock.lock().unwrap(), Duration::from_secs(2)));
        });
    }

    assert_eq!(value.load(Ordering::SeqCst), 42);
}

#[test]
fn tokio_spawner_gives_a_handle_that_completes_with_the_unit() {
    let value = Arc::new(AtomicUsize::new(0));
    let runtime = Runtime::new().unwrap();
    let spawned = runtime.block_on(async { TokioSpawner.spawn(storing(&value, 9)) });
    assert!(spawned.is_submitted());
    runtime.block_on(spawned.into_unit());
    assert_eq!(value.load(Ordering::SeqCst), 9);
}

#[test]
fn tokio_spawner_hands_the_unit_back_outside_a_runtime() {
    let value = Arc::new(AtomicUsize::new(0));
    let spawned = TokioSpawner.spawn(storing(&value, 13));
    assert!(!spawned.is_submitted());
    assert_eq!(value.load(Ordering::SeqCst), 0);
    match spawned {
        Spawned::Deferred(unit) => block_on(unit),
        Spawned::Submitted(_) => panic!("submitted without a runtime"),
    }
    assert_eq!(value.load(Ordering::SeqCst), 13);
}

#[test]
fn tokio_spawner_places_the_unit_on_the_runtime_it_is_given() {
    let value = Arc::new(AtomicUsize::new(0));
    let runtime = Runtime::new().unwrap();
    let placed = TokioSpawner::place(Some(runtime.handle().clone()), storing(&value, 21));
    assert!(placed.is_submitted());
    block_on(placed.into_unit());
    assert_eq!(value.load(Ordering::SeqCst), 21);

    let kept = TokioSpawner::place(None, storing(&value, 22));
    assert!(!kept.is_submitted());
    assert_eq!(value.load(Ordering::SeqCst), 21);
    block_on(kept.into_unit());
    assert_eq!(value.load(Ordering::SeqCst), 22);
}

#[test]
fn tokio_spawner_lets_a_panicking_unit_end_without_unwinding() {
    let runtime = Runtime::new().unwrap();
    let spawned = runtime.block_on(async {
        TokioSpawner.spawn(TestResult::new(async {
            panic!("the unit fails");
        }))
    });
    assert!(spawned.is_submitted());
    runtime.block_on(spawned.into_unit());
}

#[test]
fn default_spawner_hands_the_unit_back_untouched() {
    let value = Arc::new(AtomicUsize::new(0));
    let spawned = DefaultSpawner.spawn(storing(&value, 11));
    assert!(!spawned.is_submitted());
    assert_eq!(value.load(Ordering::SeqCst), 0);
    block_on(spawned.into_unit());
    assert_eq!(value.load(Ordering::SeqCst), 11);
}

#[test]
fn spawners_are_made_by_their_factories() {
    let value = Arc::new(AtomicUsize::new(0));
    let spawner = <DefaultSpawner as TestSpawnFactory>::new();
    block_on(spawner.spawn(storing(&value, 5)).into_unit());
    assert_eq!(value.load(Ordering::SeqCst), 5);
    let tokio = <TokioSpawner as TestSpawnFactory>::new();
    block_on(tokio.spawn(storing(&value, 6)).into_unit());
    assert_eq!(value.load(Ordering::SeqCst), 6);
}
