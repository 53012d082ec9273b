//! The open batch: the label set of the engine's single stream and the
//! timestamped lines accumulated for the next submission, together with the
//! timestamp of the first line and the count of failed delivery attempts.

use vstd::prelude::*;

use crate::wire::{serialize_wire_body, spec_wire_body};

verus! {

/// Label keys are pairwise distinct, as a label mapping requires.
pub open spec fn spec_unique_label_keys(labels: Seq<(Seq<char>, Seq<char>)>) -> bool {
    forall|i: int, j: int| 0 <= i < j < labels.len() ==> labels[i].0 != labels[j].0
}

/// One batch of log entries awaiting a single HTTP submission.
#[derive(Debug)]
pub struct Batch {
    /// The stream's label set, fixed at engine construction.
    pub labels: Vec<(String, String)>,
    /// The accumulated `(timestamp_ns, line)` pairs, in arrival order.
    pub entries: Vec<(u128, String)>,
    /// The timestamp of the first entry, while the batch is non-empty.
    pub first_timestamp: Option<u128>,
    /// How many delivery attempts for this batch lineage have failed.
    pub failures: usize,
}

impl Batch {
    /// A batch is well formed when its label keys are pairwise distinct and
    /// `first_timestamp` is present exactly while entries exist and names the
    /// first entry's timestamp.
    pub open spec fn wf(&self) -> bool {
        &&& spec_unique_label_keys(self.labels.deep_view())
        &&& (self.first_timestamp is Some <==> self.entries@.len() > 0)
        &&& (self.entries@.len() > 0 ==> self.first_timestamp == Some(self.entries@[0].0))
    }

    /// An empty batch for the given label set.
    pub fn new(labels: Vec<(String, String)>) -> (r: Self)
        requires
            spec_unique_label_keys(labels.deep_view()),
        ensures
            r.wf(),
            r.labels == labels,
            r.entries@.len() == 0,
            r.first_timestamp is None,
            r.failures == 0,
    {
        Batch { labels, entries: Vec::new(), first_timestamp: None, failures: 0 }
    }

    /// Appends one entry, recording its timestamp as the batch's first when
    /// the batch was empty.
    pub fn push_entry(&mut self, timestamp_ns: u128, line: String)
        requires
            old(self).wf(),
        ensures
            final(self).wf(),
            final(self).entries@ == old(self).entries@.push((timestamp_ns, line)),
            final(self).labels == old(self).labels,
            final(self).failures == old(self).failures,
            final(self).first_timestamp == (if old(self).entries@.len() == 0 {
                Some(timestamp_ns)
            } else {
                old(self).first_timestamp
            }),
    {
        self.entries.push((timestamp_ns, line));
        if self.first_timestamp.is_none() {
            self.first_timestamp = Some(timestamp_ns);
        }
    }

    /// Serializes the batch to the wire body it will be submitted as.
    pub fn serialize(&self) -> (r: String)
        ensures
            r@ == spec_wire_body(self.labels.deep_view(), self.entries.deep_view()),
    {
        serialize_wire_body(&self.labels, &self.entries)
    }
}

/// A copy of a label set, equal pair for pair.
pub fn clone_labels(labels: &Vec<(String, String)>) -> (r: Vec<(String, String)>)
    ensures
        r.deep_view() == labels.deep_view(),
{
    let mut out: Vec<(String, String)> = Vec::new();
    let mut i: usize = 0;
    while i < labels.len()
        invariant
            i <= labels@.len(),
            out@.len() == i,
            out.deep_view() == labels.deep_view().take(i as int),
        decreases labels@.len() - i,
    {
        let key = labels[i].0.clone();
        let value = labels[i].1.clone();
        assert((key, value).deep_view() == labels.deep_view()[i as int]) by {
            assert(labels.deep_view()[i as int] == labels@[i as int].deep_view());
        }
        out.push((key, value));
        assert(out@[i as int] == (key, value));
        assert(forall|j: int| 0 <= j < i ==> #[trigger] out.deep_view()[j] == labels.deep_view().take(
            i as int,
        )[j]);
        assert(out.deep_view() =~~= labels.deep_view().take(i + 1));
        i += 1;
    }
    assert(labels.deep_view().take(labels@.len() as int) =~~= labels.deep_view());
    out
}

} // verus!
