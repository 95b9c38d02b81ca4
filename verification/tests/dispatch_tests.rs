use std::time::Duration;
use std::time::Instant;

use clients::dispatch::JobError;
use clients::dispatch::JobResult;
use clients::dispatch::Updater;
use clients::dispatch::WorkQueue;
use clients::dispatch::merge_worker_results;
use clients::dispatch::run_clients;

enum TestJob {
    Succeeds,
    Fails(String),
    BusyWait(Duration),
}

impl Updater for TestJob {
    fn update(&mut self, _states: &Vec<String>, _limit: usize) -> Result<(), JobError> {
        match self {
            TestJob::Succeeds => Ok(()),
            TestJob::Fails(message) => Err(JobError { message: message.clone() }),
            TestJob::BusyWait(d) => {
                let start = Instant::now();
                while start.elapsed() < *d {}
                Ok(())
            }
        }
    }
}

fn scope() -> Vec<String> {
    vec!["DE".to_string(), "CA".to_string()]
}

#[test]
fn run_returns_one_result_per_job() {
    let jobs = vec![
        TestJob::Succeeds,
        TestJob::Succeeds,
        TestJob::Succeeds,
        TestJob::Succeeds,
        TestJob::Succeeds,
    ];
    let results = run_clients(jobs, &scope(), 10, 3);
    assert_eq!(results.len(), 5);
    for (i, r) in results.iter().enumerate() {
        assert_eq!(r.job, i);
        assert_eq!(r.outcome, Ok(()));
    }
}

#[test]
fn failures_are_collected_not_raised() {
    let jobs = vec![
        TestJob::Fails("job A always fails".to_string()),
        TestJob::Succeeds,
    ];
    let results = run_clients(jobs, &scope(), 10, 1);
    assert_eq!(results.len(), 2);
    assert_eq!(results[0].job, 0);
    assert_eq!(
        results[0].outcome,
        Err(JobError { message: "job A always fails".to_string() })
    );
    assert_eq!(results[1].job, 1);
    assert_eq!(results[1].outcome, Ok(()));
}

#[test]
fn three_jobs_drain_serially() {
    // Three jobs that each busy a distinct duration, one worker: the run
    // completes only after every job ran, so at least the sum of durations
    // elapses, and all three succeed.
    let jobs = vec![
        TestJob::BusyWait(Duration::from_millis(10)),
        TestJob::BusyWait(Duration::from_millis(20)),
        TestJob::BusyWait(Duration::from_millis(30)),
    ];
    let start = Instant::now();
    let results = run_clients(jobs, &scope(), 10, 1);
    assert!(start.elapsed() >= Duration::from_millis(60));
    assert_eq!(results.len(), 3);
    assert!(results.iter().all(|r| r.outcome == Ok(())));
}

#[test]
fn work_queue_hands_each_job_out_once_in_order() {
    let mut queue = WorkQueue::new(vec![10u32, 20, 30]);
    assert_eq!(queue.remaining(), 3);
    assert_eq!(queue.take(), Some(10));
    assert_eq!(queue.take(), Some(20));
    assert_eq!(queue.remaining(), 1);
    assert_eq!(queue.take(), Some(30));
    assert_eq!(queue.take(), None);
    assert_eq!(queue.remaining(), 0);
}

#[test]
fn merge_keeps_each_workers_order() {
    let w1 = vec![
        JobResult { job: 0, outcome: Ok(()) },
        JobResult { job: 2, outcome: Err(JobError { message: "x".to_string() }) },
    ];
    let w2 = vec![JobResult { job: 1, outcome: Ok(()) }];
    let all = merge_worker_results(vec![w1, w2]);
    assert_eq!(all.len(), 3);
    assert_eq!(all[0].job, 0);
    assert_eq!(all[1].job, 2);
    assert_eq!(all[2].job, 1);
}

#[test]
fn merge_of_nothing_is_empty() {
    let all = merge_worker_results(Vec::new());
    assert!(all.is_empty());
}
