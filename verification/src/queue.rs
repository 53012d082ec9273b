//! The retry delay queue: failed batches keyed by the earliest time at which
//! they may be resubmitted. The queue hands out the entry with the smallest
//! `retry_at_ns` first, and only once that time has been reached.

use vstd::prelude::*;

use crate::batch::Batch;

verus! {

/// A failed batch together with the earliest time it may be retried.
#[derive(Debug)]
pub struct FailedBatch {
    /// The earliest time, in nanoseconds since the epoch, at which this batch
    /// becomes eligible for resubmission.
    pub retry_at_ns: u128,
    /// The batch to resubmit.
    pub batch: Batch,
}

/// A min-queue of failed batches, ordered by `retry_at_ns` ascending; ties
/// are broken arbitrarily.
#[derive(Debug)]
pub struct DelayQueue {
    items: Vec<FailedBatch>,
}

impl View for DelayQueue {
    type V = Seq<FailedBatch>;

    closed spec fn view(&self) -> Seq<FailedBatch> {
        self.items@
    }
}

impl DelayQueue {
    /// An empty queue.
    pub fn new() -> (r: Self)
        ensures
            r@ == Seq::<FailedBatch>::empty(),
    {
        let q = DelayQueue { items: Vec::new() };
        assert(q@ =~= Seq::<FailedBatch>::empty());
        q
    }

    /// How many failed batches are queued.
    pub fn len(&self) -> (r: usize)
        ensures
            r == self@.len(),
    {
        self.items.len()
    }

    /// Enqueues a failed batch.
    pub fn push(&mut self, fb: FailedBatch)
        ensures
            final(self)@ == old(self)@.push(fb),
    {
        self.items.push(fb);
    }

    /// Removes and returns an entry with the smallest `retry_at_ns`, provided
    /// that time has been reached; returns nothing when the queue is empty or
    /// its earliest entry is still in the future.
    pub fn pop_due(&mut self, now_ns: u128) -> (r: Option<FailedBatch>)
        ensures
            match r {
                None => {
                    &&& final(self)@ == old(self)@
                    &&& forall|k: int|
                        0 <= k < old(self)@.len() ==> (#[trigger] old(self)@[k]).retry_at_ns
                            > now_ns
                },
                Some(fb) => {
                    &&& fb.retry_at_ns <= now_ns
                    &&& forall|k: int|
                        0 <= k < old(self)@.len() ==> (#[trigger] old(self)@[k]).retry_at_ns
                            >= fb.retry_at_ns
                    &&& exists|k: int|
                        0 <= k < old(self)@.len() && old(self)@[k] == fb && final(self)@
                            == old(self)@.remove(k)
                },
            },
    {
        if self.items.len() == 0 {
            return None;
        }
        let mut best: usize = 0;
        let mut i: usize = 1;
        while i < self.items.len()
            invariant
                best < i <= self.items@.len(),
                forall|k: int|
                    0 <= k < i ==> (#[trigger] self.items@[k]).retry_at_ns
                        >= self.items@[best as int].retry_at_ns,
            decreases self.items@.len() - i,
        {
            if self.items[i].retry_at_ns < self.items[best].retry_at_ns {
                best = i;
            }
            i += 1;
        }
        if self.items[best].retry_at_ns <= now_ns {
            let fb = self.items.remove(best);
            Some(fb)
        } else {
            None
        }
    }

    /// Removes every queued batch and hands them all out, in queue order.
    pub fn drain_all(&mut self) -> (r: Vec<FailedBatch>)
        ensures
            r@ == old(self)@,
            final(self)@ == Seq::<FailedBatch>::empty(),
    {
        let mut taken: Vec<FailedBatch> = Vec::new();
        core::mem::swap(&mut taken, &mut self.items);
        assert(self@ =~= Seq::<FailedBatch>::empty());
        taken
    }
}

} // verus!
