//! The tracker itself.

use crate::ids::{Source, Task, Tuple};
use crate::model::{completed, seeded, toggled, Bucket, Ledger};
use std::collections::HashMap;
use vstd::prelude::*;

verus! {

/// Tracks tuple acks across many sources with one 64-bit ack value per source,
/// however many tuples a source spawns.
///
/// A source is registered with `insert`, which seeds its ack value with the
/// source's own identifier. Every tuple is XORed into the ack value once when
/// it is added and once when it is acked; the source counts as complete
/// whenever the ack value is zero.
#[derive(PartialEq, Eq, Debug)]
pub struct Ackr {
    buckets: HashMap<u64, Bucket>,
}

impl View for Ackr {
    type V = Ledger;

    closed spec fn view(&self) -> Ledger {
        self.buckets@
    }
}

impl Ackr {
    /// Creates a tracker that tracks no source.
    pub fn new() -> (ackr: Ackr)
        ensures
            ackr@ == Ledger::empty(),
    {
        Ackr { buckets: HashMap::new() }
    }

    /// Starts tracking `source_id` on behalf of `task_id`, with the source's
    /// own identifier as the initial ack value. A bucket already kept for
    /// `source_id` is overwritten.
    pub fn insert(&mut self, source_id: Source, task_id: Task)
        ensures
            final(self)@ == seeded(old(self)@, source_id@, task_id@),
    {
        let seed = source_id.as_tuple();
        self.buckets.insert(
            source_id.to_u64(),
            Bucket { task: task_id.to_u32(), ack: seed.to_u64() },
        );
    }

    /// Records that `tuple_id` was spawned under `source_id`: the first of the
    /// two XORs a tuple goes through. Returns `None`, and changes nothing,
    /// when `source_id` is not tracked.
    pub fn add_tuple(&mut self, source_id: Source, tuple_id: Tuple) -> (found: Option<()>)
        ensures
            found.is_some() <==> old(self)@.contains_key(source_id@),
            final(self)@ == toggled(old(self)@, source_id@, tuple_id@),
            found.is_none() ==> final(self)@ == old(self)@,
    {
        self.ack(source_id, tuple_id)
    }

    /// XORs `tuple_id` into the ack value of `source_id`. Acking a tuple once
    /// adds it to the source, acking it a second time removes it. Returns
    /// `None`, and changes nothing, when `source_id` is not tracked.
    pub fn ack(&mut self, source_id: Source, tuple_id: Tuple) -> (found: Option<()>)
        ensures
            found.is_some() <==> old(self)@.contains_key(source_id@),
            final(self)@ == toggled(old(self)@, source_id@, tuple_id@),
            found.is_none() ==> final(self)@ == old(self)@,
    {
        let key = source_id.to_u64();
        match self.buckets.get(&key) {
            Some(bucket) => {
                let next = Bucket { task: bucket.task, ack: bucket.ack ^ tuple_id.to_u64() };
                self.buckets.insert(key, next);
                Some(())
            },
            None => None,
        }
    }

    /// Whether `source_id` is tracked.
    pub fn contains(&self, source_id: Source) -> (present: bool)
        ensures
            present == self@.contains_key(source_id@),
    {
        let key = source_id.to_u64();
        self.buckets.contains_key(&key)
    }

    /// The current ack value of a tracked source.
    pub fn get(&mut self, source_id: Source) -> (ack: Tuple)
        requires
            old(self)@.contains_key(source_id@),
        ensures
            final(self)@ == old(self)@,
            ack@ == old(self)@[source_id@].ack,
    {
        let key = source_id.to_u64();
        let bucket = self.buckets.get(&key).unwrap();
        Tuple(bucket.ack)
    }

    /// Whether the ack value of a tracked source is zero.
    pub fn has_completed(&mut self, source_id: Source) -> (done: bool)
        requires
            old(self)@.contains_key(source_id@),
        ensures
            final(self)@ == old(self)@,
            done == completed(old(self)@, source_id@),
    {
        self.get(source_id).to_u64() == 0
    }
}

} // verus!
