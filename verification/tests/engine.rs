use loki_ship::batch::Batch;
use loki_ship::queue::{DelayQueue, FailedBatch};
use loki_ship::task::{retry_at_ns, is_transient, Disposition, LokiEngine, SubmitOutcome};
use loki_ship::FailurePolicy;

const HOUR_NS: u128 = 3_600_000_000_000;

fn labels() -> Vec<(String, String)> {
    vec![("app".to_string(), "test".to_string())]
}

fn engine(max_log_lines: usize, lifetime_ns: u128, policy: FailurePolicy) -> LokiEngine {
    LokiEngine::new(labels(), max_log_lines, lifetime_ns, policy, false)
}

#[test]
fn batch_of_two_submits_after_second_log() {
    let mut engine = engine(2, HOUR_NS, FailurePolicy::Retry(5));

    assert!(engine.ingest_log(1, "one".to_string()).is_none());
    assert_eq!(engine.batch.entries.len(), 1);

    let full = engine.ingest_log(2, "two".to_string()).expect("second log fills the batch");
    assert_eq!(full.entries.len(), 2);
    assert_eq!(full.entries[0], (1, "one".to_string()));
    assert_eq!(full.entries[1], (2, "two".to_string()));
    assert_eq!(engine.batch.entries.len(), 0);

    assert!(engine.ingest_log(3, "three".to_string()).is_none());
    assert_eq!(engine.batch.entries.len(), 1);
    assert_eq!(engine.batch.first_timestamp, Some(3));
}

#[test]
fn open_batch_never_exceeds_cap() {
    let mut engine = engine(3, HOUR_NS, FailurePolicy::Drop);
    for i in 0..20u32 {
        engine.ingest_log(u128::from(i), format!("line {i}"));
        assert!(engine.batch.entries.len() < 3);
    }
}

#[test]
fn two_transient_failures_drop_batch_under_one_retry() {
    let mut engine = engine(10, HOUR_NS, FailurePolicy::Retry(1));
    assert!(engine.ingest_log(7, "payload".to_string()).is_none());

    let batch = engine.take_open_batch().expect("one entry is buffered");
    let first = engine.handle_outcome(batch, SubmitOutcome::HttpStatus(503), 1_000);
    assert_eq!(first, Disposition::Scheduled(1));

    let retry = engine.pop_due_retry(u128::MAX).expect("one retry is queued");
    assert_eq!(retry.batch.failures, 1);

    let second = engine.handle_outcome(retry.batch, SubmitOutcome::HttpStatus(503), 2_000);
    assert_eq!(second, Disposition::RetriesExhausted);
    assert!(engine.take_all_retries().is_empty());
}

#[test]
fn backoff_doubles_per_consecutive_failure() {
    assert_eq!(retry_at_ns(0, 1), 2_000_000_000);
    assert_eq!(retry_at_ns(0, 2), 4_000_000_000);
    assert_eq!(retry_at_ns(0, 3), 8_000_000_000);
    assert_eq!(retry_at_ns(500, 4), 16_000_000_500);
    assert_eq!(retry_at_ns(u128::MAX - 1, 1), u128::MAX);
}

#[test]
fn nth_failure_schedules_two_to_the_n_seconds_out() {
    let mut engine = engine(10, HOUR_NS, FailurePolicy::Retry(5));
    engine.ingest_log(1, "x".to_string());
    let batch = engine.take_open_batch().unwrap();

    engine.handle_outcome(batch, SubmitOutcome::Transport, 100);
    let first = engine.pop_due_retry(u128::MAX).unwrap();
    assert_eq!(first.retry_at_ns, 100 + 2_000_000_000);
    assert_eq!(first.batch.failures, 1);

    engine.handle_outcome(first.batch, SubmitOutcome::Transport, 100);
    let second = engine.pop_due_retry(u128::MAX).unwrap();
    assert_eq!(second.retry_at_ns, 100 + 4_000_000_000);
    assert_eq!(second.batch.failures, 2);
}

#[test]
fn exhausted_lineage_is_not_rescheduled() {
    let mut engine = engine(10, HOUR_NS, FailurePolicy::Retry(1));
    engine.ingest_log(1, "x".to_string());
    let mut batch = engine.take_open_batch().unwrap();
    batch.failures = 1;
    let d = engine.fail(batch, true, 0);
    assert_eq!(d, Disposition::RetriesExhausted);
    assert!(engine.take_all_retries().is_empty());
}

#[test]
fn transient_failure_below_the_cap_is_rescheduled_once() {
    let mut engine = engine(10, HOUR_NS, FailurePolicy::Retry(2));
    engine.ingest_log(1, "x".to_string());
    let batch = engine.take_open_batch().unwrap();
    let d = engine.fail(batch, true, 1_000);
    assert_eq!(d, Disposition::Scheduled(1));
    let retries = engine.take_all_retries();
    assert_eq!(retries.len(), 1);
    assert_eq!(retries[0].retry_at_ns, 1_000 + 2_000_000_000);
    assert_eq!(retries[0].batch.failures, 1);
    assert_eq!(retries[0].batch.entries, vec![(1, "x".to_string())]);
}

#[test]
fn smallest_retry_time_pops_first() {
    let mut queue = DelayQueue::new();
    queue.push(FailedBatch { retry_at_ns: 50, batch: Batch::new(labels()) });
    queue.push(FailedBatch { retry_at_ns: 10, batch: Batch::new(labels()) });
    queue.push(FailedBatch { retry_at_ns: 30, batch: Batch::new(labels()) });

    assert_eq!(queue.pop_due(100).unwrap().retry_at_ns, 10);
    assert_eq!(queue.pop_due(100).unwrap().retry_at_ns, 30);
    assert_eq!(queue.pop_due(100).unwrap().retry_at_ns, 50);
    assert!(queue.pop_due(100).is_none());
}

#[test]
fn future_retry_is_not_handed_out() {
    let mut queue = DelayQueue::new();
    queue.push(FailedBatch { retry_at_ns: 500, batch: Batch::new(labels()) });
    assert!(queue.pop_due(499).is_none());
    assert_eq!(queue.len(), 1);
    assert_eq!(queue.pop_due(500).unwrap().retry_at_ns, 500);
}

#[test]
fn http_503_and_429_are_transient_400_is_permanent() {
    assert!(is_transient(&SubmitOutcome::HttpStatus(503)));
    assert!(is_transient(&SubmitOutcome::HttpStatus(429)));
    assert!(is_transient(&SubmitOutcome::HttpStatus(408)));
    assert!(!is_transient(&SubmitOutcome::HttpStatus(400)));
    assert!(!is_transient(&SubmitOutcome::HttpStatus(200)));
    assert!(is_transient(&SubmitOutcome::Transport));
    assert!(!is_transient(&SubmitOutcome::PayloadError));
}

#[test]
fn permanent_failure_is_dropped_not_retried() {
    let mut engine = engine(10, HOUR_NS, FailurePolicy::Retry(5));
    engine.ingest_log(1, "x".to_string());
    let batch = engine.take_open_batch().unwrap();
    let d = engine.handle_outcome(batch, SubmitOutcome::HttpStatus(400), 100);
    assert_eq!(d, Disposition::DroppedPermanent);
    assert!(engine.take_all_retries().is_empty());
}

#[test]
fn drop_policy_discards_transient_failures() {
    let mut engine = engine(10, HOUR_NS, FailurePolicy::Drop);
    engine.ingest_log(1, "x".to_string());
    let batch = engine.take_open_batch().unwrap();
    let d = engine.handle_outcome(batch, SubmitOutcome::Transport, 100);
    assert_eq!(d, Disposition::DroppedPolicy);
    assert!(engine.take_all_retries().is_empty());
}

#[test]
fn payload_error_is_permanent() {
    let mut engine = engine(10, HOUR_NS, FailurePolicy::Retry(5));
    engine.ingest_log(1, "x".to_string());
    let batch = engine.take_open_batch().unwrap();
    let d = engine.handle_outcome(batch, SubmitOutcome::PayloadError, 100);
    assert_eq!(d, Disposition::DroppedPermanent);
}

#[test]
fn delivered_batch_leaves_queue_untouched() {
    let mut engine = engine(10, HOUR_NS, FailurePolicy::Retry(5));
    engine.ingest_log(1, "x".to_string());
    let batch = engine.take_open_batch().unwrap();
    let d = engine.handle_outcome(batch, SubmitOutcome::Delivered, 100);
    assert_eq!(d, Disposition::Delivered);
    assert!(engine.take_all_retries().is_empty());
}

#[test]
fn batch_older_than_lifetime_is_due() {
    let mut engine = engine(10, 10, FailurePolicy::Drop);
    assert!(!engine.age_exceeded(1_000));
    engine.ingest_log(100, "x".to_string());
    assert!(!engine.age_exceeded(105));
    assert!(!engine.age_exceeded(110));
    assert!(engine.age_exceeded(111));
    assert!(!engine.age_exceeded(50));
    let due = engine.take_open_batch().expect("the aged batch is handed out");
    assert_eq!(due.first_timestamp, Some(100));
}

#[test]
fn flush_hands_out_open_batch_and_every_queued_retry() {
    let mut engine = engine(10, HOUR_NS, FailurePolicy::Retry(5));

    engine.ingest_log(1, "queued one".to_string());
    let b1 = engine.take_open_batch().unwrap();
    engine.handle_outcome(b1, SubmitOutcome::Transport, 100);

    engine.ingest_log(2, "queued two".to_string());
    let b2 = engine.take_open_batch().unwrap();
    engine.handle_outcome(b2, SubmitOutcome::Transport, 200);

    engine.ingest_log(3, "open".to_string());

    let open = engine.take_open_batch().expect("open batch at flush time");
    assert_eq!(open.entries[0], (3, "open".to_string()));
    let retries = engine.take_all_retries();
    assert_eq!(retries.len(), 2);
    assert!(engine.take_all_retries().is_empty());
    assert_eq!(engine.batch.entries.len(), 0);
}

#[test]
fn taking_an_empty_batch_returns_nothing() {
    let mut engine = engine(10, HOUR_NS, FailurePolicy::Drop);
    assert!(engine.take_open_batch().is_none());
}
