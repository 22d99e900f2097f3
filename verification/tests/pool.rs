// Single-threaded exercises of the pool: the caller drives the workers'
// receive-then-execute rounds itself, so dispatch order and completeness are
// observable deterministically.

use std::sync::atomic::AtomicUsize;
use std::sync::atomic::Ordering;
use std::sync::Arc;
use std::sync::Mutex;

use workpool::run_received;
use workpool::worker_step;
use workpool::ThreadPool;

#[test]
fn single_worker_runs_in_submission_order() {
    let pool: ThreadPool<usize, _> = ThreadPool::new(1, |_id, receiver| receiver);
    for i in 0..10 {
        assert_eq!(pool.execute(i), Ok(()));
    }
    let receivers = pool.shutdown();
    assert_eq!(receivers.len(), 1);

    let seen: Arc<Mutex<Vec<usize>>> = Arc::new(Mutex::new(Vec::new()));
    let sink = seen.clone();
    let run = move |task: usize| {
        sink.lock().unwrap().push(task);
    };
    while worker_step(&receivers[0], &run) {}

    let got = seen.lock().unwrap().clone();
    assert_eq!(got, vec![0, 1, 2, 3, 4, 5, 6, 7, 8, 9]);
}

#[test]
fn teardown_with_nothing_submitted_runs_nothing() {
    let pool: ThreadPool<usize, _> = ThreadPool::new(3, |_id, receiver| receiver);
    let receivers = pool.shutdown();
    assert_eq!(receivers.len(), 3);

    let seen: Arc<Mutex<Vec<usize>>> = Arc::new(Mutex::new(Vec::new()));
    let sink = seen.clone();
    let run = move |task: usize| {
        sink.lock().unwrap().push(task);
    };
    for receiver in &receivers {
        assert!(!worker_step(receiver, &run));
    }
    assert_eq!(seen.lock().unwrap().len(), 0);
}

#[test]
fn hundred_tasks_complete_exactly_once() {
    let pool: ThreadPool<usize, _> = ThreadPool::new(4, |_id, receiver| receiver);
    for i in 0..100 {
        assert_eq!(pool.execute(i), Ok(()));
    }
    let receivers = pool.shutdown();
    assert_eq!(receivers.len(), 4);

    let seen: Arc<Mutex<Vec<usize>>> = Arc::new(Mutex::new(Vec::new()));
    let sink = seen.clone();
    let run = move |task: usize| {
        sink.lock().unwrap().push(task);
    };
    // Interleave the four workers' rounds until each has observed closure.
    let mut live: Vec<&crossbeam_channel::Receiver<usize>> = receivers.iter().collect();
    while !live.is_empty() {
        live.retain(|receiver| worker_step(*receiver, &run));
    }

    let mut got = seen.lock().unwrap().clone();
    assert_eq!(got.len(), 100);
    got.sort();
    let expected: Vec<usize> = (0..100).collect();
    assert_eq!(got, expected);
}

#[test]
fn dispatch_is_fifo_across_workers() {
    let pool: ThreadPool<usize, _> = ThreadPool::new(3, |_id, receiver| receiver);
    for i in 0..9 {
        assert_eq!(pool.execute(i), Ok(()));
    }
    let receivers = pool.shutdown();

    let seen: Arc<Mutex<Vec<usize>>> = Arc::new(Mutex::new(Vec::new()));
    let sink = seen.clone();
    let run = move |task: usize| {
        sink.lock().unwrap().push(task);
    };
    // One round per worker, round-robin: whichever worker receives next gets
    // the head of the queue, so the tasks come out in submission order even
    // though consecutive tasks go to different workers.
    for _round in 0..3 {
        for receiver in &receivers {
            assert!(worker_step(receiver, &run));
        }
    }
    for receiver in &receivers {
        assert!(!worker_step(receiver, &run));
    }
    let got = seen.lock().unwrap().clone();
    assert_eq!(got, vec![0, 1, 2, 3, 4, 5, 6, 7, 8]);
}

#[test]
fn counter_reaches_total_with_four_workers() {
    let counter = Arc::new(AtomicUsize::new(0));
    let pool: ThreadPool<usize, _> = ThreadPool::new(4, |_id, receiver| receiver);
    for i in 0..100 {
        assert_eq!(pool.execute(i), Ok(()));
    }
    let receivers = pool.shutdown();

    let shared = counter.clone();
    let run = move |_task: usize| {
        shared.fetch_add(1, Ordering::SeqCst);
    };
    let mut live: Vec<&crossbeam_channel::Receiver<usize>> = receivers.iter().collect();
    while !live.is_empty() {
        live.retain(|receiver| worker_step(*receiver, &run));
    }
    assert_eq!(counter.load(Ordering::SeqCst), 100);
}

#[test]
fn run_received_runs_the_task_and_reports_more() {
    let seen: Arc<Mutex<Vec<usize>>> = Arc::new(Mutex::new(Vec::new()));
    let sink = seen.clone();
    let run = move |task: usize| {
        sink.lock().unwrap().push(task);
    };
    assert!(run_received(Some(3), &run));
    assert!(run_received(Some(5), &run));
    assert!(!run_received(None, &run));
    assert_eq!(seen.lock().unwrap().clone(), vec![3, 5]);
}

#[test]
fn execute_reports_the_task_back_once_closed() {
    // A spawner that drops every consumer handle at once leaves the queue
    // permanently closed, the one condition under which submission fails.
    let pool: ThreadPool<usize, ()> = ThreadPool::new(2, |_id, receiver| {
        drop(receiver);
    });
    assert_eq!(pool.execute(42), Err(42));
    assert_eq!(pool.execute(7), Err(7));
}

#[test]
fn shutdown_returns_one_handle_per_worker() {
    let pool: ThreadPool<usize, _> = ThreadPool::new(5, |id, _receiver| id);
    let handles = pool.shutdown();
    assert_eq!(handles, vec![0, 1, 2, 3, 4]);
}
