use exercises::pool::{Job, Pool, PoolError, WorkerState};

fn job(id: u64) -> Job {
    Job { id, fails: false }
}

fn failing_job(id: u64) -> Job {
    Job { id, fails: true }
}

#[test]
fn zero_size_pool_is_refused() {
    match Pool::new(0) {
        Err(PoolError::ZeroSize) => {}
        _ => panic!("a zero-size pool must be refused"),
    }
}

#[test]
fn every_job_runs_exactly_once() {
    let mut p = Pool::new(4).unwrap();
    for i in 0..10u64 {
        p.submit(job(i)).unwrap();
    }
    p.shutdown();
    assert_eq!(p.done.len(), 10);
    let mut ids: Vec<u64> = p.done.iter().map(|j| j.id).collect();
    ids.sort();
    let expected: Vec<u64> = (0..10u64).collect();
    assert_eq!(ids, expected);
}

#[test]
fn shutdown_waits_for_all_submitted_jobs() {
    let k = 7u64;
    let mut p = Pool::new(3).unwrap();
    for i in 0..k {
        p.submit(job(i)).unwrap();
    }
    assert_eq!(p.done.len(), 0);
    p.shutdown();
    assert_eq!(p.done.len(), k as usize);
}

#[test]
fn failing_job_does_not_stop_later_jobs() {
    let mut p = Pool::new(2).unwrap();
    p.submit(failing_job(1)).unwrap();
    p.submit(job(2)).unwrap();
    p.shutdown();
    assert_eq!(p.done.len(), 2);
    assert!(p.done.iter().any(|j| j.id == 2));
    assert_eq!(p.failed, vec![1]);
}

#[test]
fn shutdown_is_idempotent() {
    let mut p = Pool::new(2).unwrap();
    p.submit(job(1)).unwrap();
    p.shutdown();
    let done_before = p.done.clone();
    p.shutdown();
    p.shutdown();
    assert_eq!(p.done, done_before);
    assert!(p.workers.iter().all(|w| w.state == WorkerState::Terminated));
}

#[test]
fn submitting_after_shutdown_is_refused() {
    let mut p = Pool::new(1).unwrap();
    p.shutdown();
    match p.submit(job(9)) {
        Err(PoolError::ShutDown) => {}
        _ => panic!("a shut-down pool must refuse new jobs"),
    }
}

#[test]
fn workers_may_finish_out_of_submission_order() {
    let mut p = Pool::new(2).unwrap();
    p.submit(job(1)).unwrap();
    p.submit(job(2)).unwrap();
    // Worker 0 takes job 1, worker 1 takes job 2; worker 1 finishes first.
    p.worker_take(0);
    p.worker_take(1);
    p.worker_finish(1);
    p.worker_finish(0);
    let ids: Vec<u64> = p.done.iter().map(|j| j.id).collect();
    assert_eq!(ids, vec![2, 1]);
    p.shutdown();
    assert_eq!(p.done.len(), 2);
}

#[test]
fn at_most_one_job_per_worker_is_in_flight() {
    let mut p = Pool::new(2).unwrap();
    for i in 0..3u64 {
        p.submit(job(i)).unwrap();
    }
    p.worker_take(0);
    p.worker_take(1);
    // Both workers are busy; the third job can only wait in the queue.
    let in_flight = p.workers.iter().filter(|w| w.current.is_some()).count();
    assert_eq!(in_flight, 2);
    assert_eq!(p.queue.len(), 1);
    p.worker_finish(0);
    p.worker_finish(1);
    p.shutdown();
    assert_eq!(p.done.len(), 3);
}

#[test]
fn delivery_is_first_in_first_out() {
    let mut p = Pool::new(1).unwrap();
    p.submit(job(5)).unwrap();
    p.submit(job(6)).unwrap();
    p.worker_take(0);
    assert_eq!(p.workers[0].current, Some(job(5)));
    p.worker_finish(0);
    p.worker_take(0);
    assert_eq!(p.workers[0].current, Some(job(6)));
    p.worker_finish(0);
    p.shutdown();
    let ids: Vec<u64> = p.done.iter().map(|j| j.id).collect();
    assert_eq!(ids, vec![5, 6]);
}
