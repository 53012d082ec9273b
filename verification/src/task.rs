//! The delivery engine: ingestion of log messages into the open batch under
//! the size limit, the age check, classification of submission outcomes,
//! exponential-backoff scheduling of transiently failed batches, and the
//! hand-out of due and forced retries. The surrounding thread performs the
//! HTTP POSTs and feeds every outcome back into the engine.

use vstd::arithmetic::power2::{
    lemma2_to64, lemma_pow2_adds, lemma_pow2_pos, lemma_pow2_strictly_increases, pow2,
};
use vstd::prelude::*;

use crate::batch::{clone_labels, spec_unique_label_keys, Batch};
use crate::queue::{DelayQueue, FailedBatch};
use crate::wire::spec_wire_body;
use crate::FailurePolicy;

verus! {

/// A message from a producer thread to the delivery engine.
#[derive(Clone, Debug)]
pub enum LokiTaskMsg {
    /// One log line with its timestamp in nanoseconds since the epoch.
    Log(u128, String),
    /// A request to submit everything buffered and attempt every queued retry.
    Flush,
}

/// The outcome of one delivery attempt, as observed by the submitting thread.
#[derive(Clone, Copy, PartialEq, Eq, Structural, Debug)]
pub enum SubmitOutcome {
    /// The POST succeeded.
    Delivered,
    /// The server answered with this non-success HTTP status code.
    HttpStatus(u16),
    /// The request failed before a status was received: connection, timeout,
    /// name resolution, or any other transport error.
    Transport,
    /// The payload could not be produced, so no request was made.
    PayloadError,
}

/// What became of a failed batch.
#[derive(Clone, Copy, PartialEq, Eq, Structural, Debug)]
pub enum Disposition {
    /// The batch was delivered.
    Delivered,
    /// The failure was permanent; the batch was discarded.
    DroppedPermanent,
    /// The policy discards failed batches; the batch was discarded.
    DroppedPolicy,
    /// The batch had already used every allowed retry; it was discarded.
    RetriesExhausted,
    /// The batch was scheduled for retry after its n-th consecutive failure.
    Scheduled(usize),
}

/// The bytes or text handed to the HTTP POST.
#[derive(Debug)]
pub enum Payload {
    /// The wire body as JSON text.
    Text(String),
    /// The wire body gzip-compressed.
    Gzip(Vec<u8>),
}

/// Whether a failure outcome is transient: worth retrying. HTTP 408, 429 and
/// the 5xx range are transient, every other status is permanent; transport
/// errors are transient; a payload that could not be produced is permanent.
pub open spec fn spec_is_transient(outcome: SubmitOutcome) -> bool {
    match outcome {
        SubmitOutcome::Delivered => false,
        SubmitOutcome::HttpStatus(code) => code == 408 || code == 429 || (500 <= code <= 599),
        SubmitOutcome::Transport => true,
        SubmitOutcome::PayloadError => false,
    }
}

/// Classifies a failure outcome as transient or permanent.
pub fn is_transient(outcome: &SubmitOutcome) -> (r: bool)
    ensures
        r == spec_is_transient(*outcome),
{
    match outcome {
        SubmitOutcome::Delivered => false,
        SubmitOutcome::HttpStatus(code) => *code == 408 || *code == 429 || (500 <= *code && *code
            <= 599),
        SubmitOutcome::Transport => true,
        SubmitOutcome::PayloadError => false,
    }
}

/// The backoff delay after the n-th consecutive failure: 2^n seconds, in
/// nanoseconds.
pub open spec fn spec_backoff_ns(failures: nat) -> nat {
    pow2(failures) * 1_000_000_000
}

/// The time at which a batch that failed for the n-th time becomes eligible
/// again: the insertion time plus 2^n seconds, saturated at the largest
/// representable time.
pub open spec fn spec_retry_at(now_ns: u128, failures: nat) -> u128 {
    if now_ns + spec_backoff_ns(failures) <= u128::MAX {
        (now_ns + spec_backoff_ns(failures)) as u128
    } else {
        u128::MAX
    }
}

/// The backoff is exponential: each further consecutive failure doubles the
/// scheduled delay.
pub proof fn lemma_backoff_doubles(failures: nat)
    ensures
        spec_backoff_ns(failures + 1) == 2 * spec_backoff_ns(failures),
{
    lemma_pow2_adds(failures, 1);
    lemma2_to64();
}

/// The n-th consecutive failure of a batch lineage is scheduled exactly
/// `2^n` seconds after its insertion time — strictly in the future relative
/// to insertion — whenever that time is representable.
pub proof fn lemma_retry_at_backoff(now_ns: u128, failures: nat)
    requires
        now_ns + pow2(failures) * 1_000_000_000 <= u128::MAX,
    ensures
        spec_retry_at(now_ns, failures) == now_ns + pow2(failures) * 1_000_000_000,
        spec_retry_at(now_ns, failures) > now_ns,
{
    lemma_pow2_pos(failures);
    assert(pow2(failures) * 1_000_000_000 >= 1_000_000_000) by (nonlinear_arith)
        requires
            pow2(failures) >= 1,
    ;
}

proof fn lemma_pow2_below_u128_max(e: nat)
    requires
        e < 128,
    ensures
        pow2(e) <= u128::MAX,
{
    lemma_pow2_adds(64, 64);
    lemma2_to64();
    if e < 128 {
        lemma_pow2_strictly_increases(e, 128);
    }
}

/// 2^e, saturated at the largest `u128`.
fn pow2_sat_u128(e: usize) -> (r: u128)
    ensures
        pow2(e as nat) <= u128::MAX ==> r == pow2(e as nat),
        pow2(e as nat) > u128::MAX ==> r == u128::MAX,
{
    proof {
        lemma_pow2_adds(64, 64);
        lemma2_to64();
    }
    if e >= 128 {
        proof {
            if e > 128 {
                lemma_pow2_strictly_increases(128, e as nat);
            }
        }
        return u128::MAX;
    }
    let mut acc: u128 = 1;
    let mut i: usize = 0;
    while i < e
        invariant
            i <= e < 128,
            acc == pow2(i as nat),
        decreases e - i,
    {
        proof {
            lemma2_to64();
            lemma_pow2_adds(i as nat, 1);
            lemma_pow2_below_u128_max((i + 1) as nat);
        }
        acc = acc * 2;
        i += 1;
    }
    proof {
        lemma_pow2_below_u128_max(e as nat);
    }
    acc
}

/// The retry time for the n-th consecutive failure at time `now_ns`:
/// `now_ns + 2^n` seconds in nanoseconds, saturated at the largest `u128`.
pub fn retry_at_ns(now_ns: u128, failures: usize) -> (r: u128)
    ensures
        r == spec_retry_at(now_ns, failures as nat),
{
    let p = pow2_sat_u128(failures);
    if p == u128::MAX {
        proof {
            assert(spec_backoff_ns(failures as nat) >= pow2(failures as nat)) by (nonlinear_arith);
        }
        return u128::MAX;
    }
    match p.checked_mul(1_000_000_000) {
        Some(delay) => match now_ns.checked_add(delay) {
            Some(t) => t,
            None => u128::MAX,
        },
        None => u128::MAX,
    }
}

/// The condition under which the open batch has outlived `max_log_lifetime`:
/// it has a first entry and more than the lifetime has passed since then.
pub open spec fn spec_age_exceeded(first: Option<u128>, now_ns: u128, lifetime_ns: u128) -> bool {
    &&& first is Some
    &&& first->0 < now_ns
    &&& now_ns - first->0 > lifetime_ns
}

/// A name for what flate2's gzip encoding returns on the UTF-8 bytes of a
/// text: the compressed byte stream is a function of the text alone.
pub uninterp spec fn gzip_of(s: Seq<char>) -> Seq<u8>;

/// Relies on flate2's `GzEncoder` at the default level, writing into a byte
/// buffer. flate2 emits a fixed header (zero timestamp, fixed OS byte), so
/// the output depends on the input text alone. The encoding always succeeds:
/// flate2's writer layer propagates only errors of the sink it writes into,
/// and writes into a `Vec` cannot fail.
#[verifier::external_body]
fn gzip_utf8(s: &str) -> (r: Option<Vec<u8>>)
    ensures
        r is Some,
        r matches Some(b) ==> b@ == gzip_of(s@),
{
    let mut encoder = flate2::write::GzEncoder::new(Vec::new(), flate2::Compression::default());
    match std::io::Write::write_all(&mut encoder, s.as_bytes()) {
        Ok(()) => encoder.finish().ok(),
        Err(_) => None,
    }
}

/// The delivery engine for one label-set stream: the open batch, the retry
/// delay queue, and the configuration fixed at construction.
#[derive(Debug)]
pub struct LokiEngine {
    /// The stream's label set.
    pub labels: Vec<(String, String)>,
    /// The size cap on the open batch; reaching it triggers submission.
    pub max_log_lines: usize,
    /// The age cap on the open batch, in nanoseconds.
    pub max_log_lifetime_ns: u128,
    /// How failed batches are treated.
    pub failure_policy: FailurePolicy,
    /// Whether wire bodies are gzip-compressed.
    pub compress: bool,
    /// The open batch.
    pub batch: Batch,
    /// The retry delay queue.
    pub dlq: DelayQueue,
}

/// The configuration fields of the engine are unchanged between two states.
pub open spec fn spec_config_unchanged(pre: LokiEngine, post: LokiEngine) -> bool {
    &&& post.labels == pre.labels
    &&& post.max_log_lines == pre.max_log_lines
    &&& post.max_log_lifetime_ns == pre.max_log_lifetime_ns
    &&& post.failure_policy == pre.failure_policy
    &&& post.compress == pre.compress
}

impl LokiEngine {
    /// The engine's invariant: the size cap is positive, the open batch is
    /// well formed, carries the engine's labels, and always has room left —
    /// an entry that fills it is handed out for submission at once.
    pub open spec fn wf(&self) -> bool {
        &&& self.max_log_lines >= 1
        &&& self.batch.wf()
        &&& self.batch.entries@.len() < self.max_log_lines
        &&& self.batch.labels.deep_view() == self.labels.deep_view()
    }

    /// A fresh engine with an empty batch and an empty retry queue.
    pub fn new(
        labels: Vec<(String, String)>,
        max_log_lines: usize,
        max_log_lifetime_ns: u128,
        failure_policy: FailurePolicy,
        compress: bool,
    ) -> (r: Self)
        requires
            max_log_lines >= 1,
            spec_unique_label_keys(labels.deep_view()),
        ensures
            r.wf(),
            r.labels == labels,
            r.max_log_lines == max_log_lines,
            r.max_log_lifetime_ns == max_log_lifetime_ns,
            r.failure_policy == failure_policy,
            r.compress == compress,
            r.batch.entries@.len() == 0,
            r.dlq@ == Seq::<FailedBatch>::empty(),
    {
        let batch = Batch::new(clone_labels(&labels));
        LokiEngine {
            labels,
            max_log_lines,
            max_log_lifetime_ns,
            failure_policy,
            compress,
            batch,
            dlq: DelayQueue::new(),
        }
    }

    /// Takes the open batch out for submission, leaving a fresh empty one.
    fn replace_open_batch(&mut self) -> (r: Batch)
        requires
            old(self).max_log_lines >= 1,
            spec_unique_label_keys(old(self).labels.deep_view()),
            old(self).batch.labels.deep_view() == old(self).labels.deep_view(),
        ensures
            final(self).wf(),
            spec_config_unchanged(*old(self), *final(self)),
            final(self).dlq == old(self).dlq,
            r == old(self).batch,
            final(self).batch.entries@.len() == 0,
            final(self).batch.first_timestamp is None,
            final(self).batch.failures == 0,
    {
        let mut fresh = Batch::new(clone_labels(&self.labels));
        core::mem::swap(&mut fresh, &mut self.batch);
        fresh
    }

    /// Ingests one log message: appends it to the open batch, recording its
    /// timestamp when the batch was empty. When the entry fills the batch to
    /// `max_log_lines`, the full batch is handed out for immediate
    /// submission and the open batch starts over empty — so the open batch
    /// never exceeds `max_log_lines` entries.
    pub fn ingest_log(&mut self, timestamp_ns: u128, line: String) -> (r: Option<Batch>)
        requires
            old(self).wf(),
        ensures
            final(self).wf(),
            spec_config_unchanged(*old(self), *final(self)),
            final(self).dlq == old(self).dlq,
            ({
                let appended = old(self).batch.entries@.push((timestamp_ns, line));
                if old(self).batch.entries@.len() + 1 == old(self).max_log_lines {
                    &&& r matches Some(full)
                    &&& full.entries@ == appended
                    &&& full.entries@.len() == old(self).max_log_lines
                    &&& full.labels == old(self).batch.labels
                    &&& full.failures == old(self).batch.failures
                    &&& final(self).batch.entries@.len() == 0
                    &&& final(self).batch.failures == 0
                } else {
                    &&& r is None
                    &&& final(self).batch.entries@ == appended
                    &&& final(self).batch.labels == old(self).batch.labels
                    &&& final(self).batch.failures == old(self).batch.failures
                    &&& final(self).batch.first_timestamp == (if old(self).batch.entries@.len()
                        == 0 {
                        Some(timestamp_ns)
                    } else {
                        old(self).batch.first_timestamp
                    })
                }
            }),
    {
        self.batch.push_entry(timestamp_ns, line);
        if self.batch.entries.len() == self.max_log_lines {
            Some(self.replace_open_batch())
        } else {
            None
        }
    }

    /// Takes the open batch out for submission — on a flush, on shutdown, or
    /// when its age limit has passed — or reports that it is empty.
    pub fn take_open_batch(&mut self) -> (r: Option<Batch>)
        requires
            old(self).wf(),
        ensures
            final(self).wf(),
            spec_config_unchanged(*old(self), *final(self)),
            final(self).dlq == old(self).dlq,
            if old(self).batch.entries@.len() == 0 {
                r is None && final(self).batch == old(self).batch
            } else {
                &&& r == Some(old(self).batch)
                &&& final(self).batch.entries@.len() == 0
                &&& final(self).batch.failures == 0
            },
    {
        if self.batch.entries.len() == 0 {
            None
        } else {
            Some(self.replace_open_batch())
        }
    }

    /// Whether the open batch's first entry is older than `max_log_lifetime`.
    /// A batch for which this holds is submitted on the next poll, within one
    /// polling interval of outliving the limit.
    pub fn age_exceeded(&self, now_ns: u128) -> (r: bool)
        ensures
            r == spec_age_exceeded(
                self.batch.first_timestamp,
                now_ns,
                self.max_log_lifetime_ns,
            ),
    {
        match self.batch.first_timestamp {
            Some(first) => first < now_ns && now_ns - first > self.max_log_lifetime_ns,
            None => false,
        }
    }

    /// Produces the payload for one batch: the serialized wire body, gzipped
    /// when compression is enabled. A payload is always produced; the absent
    /// case is kept only for payload producers that can fail, a permanent
    /// failure at the caller.
    pub fn prepare_payload(&self, batch: &Batch) -> (r: Option<Payload>)
        ensures
            ({
                let body = spec_wire_body(batch.labels.deep_view(), batch.entries.deep_view());
                &&& !self.compress ==> (r matches Some(p) && p matches Payload::Text(s) && s@
                    == body)
                &&& self.compress ==> (r matches Some(p) && p matches Payload::Gzip(b) && b@
                    == gzip_of(body))
            }),
    {
        let body = batch.serialize();
        if self.compress {
            match gzip_utf8(body.as_str()) {
                Some(bytes) => Some(Payload::Gzip(bytes)),
                None => None,
            }
        } else {
            Some(Payload::Text(body))
        }
    }

    /// Records the outcome of one delivery attempt for `batch`. A delivered
    /// batch is done. A permanent failure, a failure under the `Drop` policy,
    /// and a transient failure that has exhausted its retries each discard
    /// the batch, leaving the queue unchanged. Any other transient failure —
    /// its n-th consecutive one — schedules the batch for retry at
    /// `now_ns + 2^n` seconds.
    pub fn handle_outcome(&mut self, batch: Batch, outcome: SubmitOutcome, now_ns: u128) -> (d:
        Disposition)
        ensures
            spec_config_unchanged(*old(self), *final(self)),
            final(self).batch == old(self).batch,
            old(self).wf() ==> final(self).wf(),
            ({
                let unchanged = final(self).dlq@ == old(self).dlq@;
                match outcome {
                    SubmitOutcome::Delivered => unchanged && d == Disposition::Delivered,
                    _ => {
                        if !spec_is_transient(outcome) {
                            unchanged && d == Disposition::DroppedPermanent
                        } else {
                            match old(self).failure_policy {
                                FailurePolicy::Drop => unchanged && d
                                    == Disposition::DroppedPolicy,
                                FailurePolicy::Retry(max_retries) => {
                                    if batch.failures >= max_retries {
                                        unchanged && d == Disposition::RetriesExhausted
                                    } else {
                                        &&& final(self).dlq@ == old(self).dlq@.push(
                                            FailedBatch {
                                                retry_at_ns: spec_retry_at(
                                                    now_ns,
                                                    (batch.failures + 1) as nat,
                                                ),
                                                batch: Batch {
                                                    failures: (batch.failures + 1) as usize,
                                                    ..batch
                                                },
                                            },
                                        )
                                        &&& d == Disposition::Scheduled(
                                            (batch.failures + 1) as usize,
                                        )
                                    }
                                },
                            }
                        }
                    },
                }
            }),
    {
        match outcome {
            SubmitOutcome::Delivered => Disposition::Delivered,
            _ => {
                let transient = is_transient(&outcome);
                self.fail(batch, transient, now_ns)
            },
        }
    }

    /// Handles one failed delivery attempt per the failure policy: a
    /// permanent failure or the `Drop` policy discards the batch; a transient
    /// failure under `Retry(max)` either exhausts the lineage (its failure
    /// count has reached `max`) or schedules it once more with the count
    /// raised and an exponentially backed-off retry time.
    pub fn fail(&mut self, batch: Batch, transient: bool, now_ns: u128) -> (d: Disposition)
        ensures
            spec_config_unchanged(*old(self), *final(self)),
            final(self).batch == old(self).batch,
            old(self).wf() ==> final(self).wf(),
            ({
                let unchanged = final(self).dlq@ == old(self).dlq@;
                if !transient {
                    unchanged && d == Disposition::DroppedPermanent
                } else {
                    match old(self).failure_policy {
                        FailurePolicy::Drop => unchanged && d == Disposition::DroppedPolicy,
                        FailurePolicy::Retry(max_retries) => {
                            if batch.failures >= max_retries {
                                unchanged && d == Disposition::RetriesExhausted
                            } else {
                                &&& final(self).dlq@ == old(self).dlq@.push(
                                    FailedBatch {
                                        retry_at_ns: spec_retry_at(
                                            now_ns,
                                            (batch.failures + 1) as nat,
                                        ),
                                        batch: Batch {
                                            failures: (batch.failures + 1) as usize,
                                            ..batch
                                        },
                                    },
                                )
                                &&& d == Disposition::Scheduled((batch.failures + 1) as usize)
                            }
                        },
                    }
                }
            }),
    {
        if !transient {
            return Disposition::DroppedPermanent;
        }
        match self.failure_policy {
            FailurePolicy::Drop => Disposition::DroppedPolicy,
            FailurePolicy::Retry(max_retries) => {
                if batch.failures >= max_retries {
                    Disposition::RetriesExhausted
                } else {
                    let attempt = batch.failures + 1;
                    let retry_at = retry_at_ns(now_ns, attempt);
                    let mut scheduled = batch;
                    scheduled.failures = attempt;
                    self.dlq.push(FailedBatch { retry_at_ns: retry_at, batch: scheduled });
                    Disposition::Scheduled(attempt)
                }
            },
        }
    }

    /// Pops the earliest due retry: the queued batch with the smallest
    /// `retry_at_ns`, provided that time has been reached.
    pub fn pop_due_retry(&mut self, now_ns: u128) -> (r: Option<FailedBatch>)
        ensures
            spec_config_unchanged(*old(self), *final(self)),
            final(self).batch == old(self).batch,
            old(self).wf() ==> final(self).wf(),
            match r {
                None => {
                    &&& final(self).dlq@ == old(self).dlq@
                    &&& forall|k: int|
                        0 <= k < old(self).dlq@.len()
                            ==> (#[trigger] old(self).dlq@[k]).retry_at_ns > now_ns
                },
                Some(fb) => {
                    &&& fb.retry_at_ns <= now_ns
                    &&& forall|k: int|
                        0 <= k < old(self).dlq@.len()
                            ==> (#[trigger] old(self).dlq@[k]).retry_at_ns >= fb.retry_at_ns
                    &&& exists|k: int|
                        0 <= k < old(self).dlq@.len() && old(self).dlq@[k] == fb
                            && final(self).dlq@ == old(self).dlq@.remove(k)
                },
            },
    {
        self.dlq.pop_due(now_ns)
    }

    /// Takes every queued retry out at once — on a flush or on shutdown,
    /// every queued batch gets one forced delivery attempt — leaving the
    /// queue empty.
    pub fn take_all_retries(&mut self) -> (r: Vec<FailedBatch>)
        ensures
            spec_config_unchanged(*old(self), *final(self)),
            final(self).batch == old(self).batch,
            old(self).wf() ==> final(self).wf(),
            r@ == old(self).dlq@,
            final(self).dlq@ == Seq::<FailedBatch>::empty(),
    {
        self.dlq.drain_all()
    }
}

} // verus!
