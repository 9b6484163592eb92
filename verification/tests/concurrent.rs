use concurrency::counter::{arc2_increment, RunError, SharedCounterArray};
use std::sync::Mutex;

fn run_on_the_pool(initial: Vec<i32>) -> Result<Vec<i32>, RunError> {
    let len: usize = initial.len();
    let lock: Mutex<SharedCounterArray> = Mutex::new(SharedCounterArray::new(initial));
    rayon::scope(|scope| {
        for index in 0..len {
            let lock = &lock;
            scope.spawn(move |_| {
                let mut shared = lock.lock().unwrap();
                let _ = shared.increment(index);
            });
        }
    });
    lock.into_inner().unwrap().finish()
}

#[test]
fn concurrent_tasks_lose_no_update() {
    let input: Vec<i32> = (0..64).collect();
    let expected: Vec<i32> = (1..65).collect();
    for _ in 0..200 {
        assert_eq!(run_on_the_pool(input.clone()), Ok(expected.clone()));
    }
}

#[test]
fn concurrent_run_agrees_with_the_plain_run() {
    let input: Vec<i32> = vec![9, -9];
    for _ in 0..200 {
        assert_eq!(run_on_the_pool(input.clone()), arc2_increment(input.clone()));
    }
}

#[test]
fn concurrent_run_names_the_failed_task() {
    let input: Vec<i32> = vec![1, 2, i32::MAX, 4];
    for _ in 0..50 {
        assert_eq!(
            run_on_the_pool(input.clone()),
            Err(RunError::TaskFailure { index: 2 })
        );
    }
}
