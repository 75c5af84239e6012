//! The tracker seen as a mathematical map, and the effect of each operation
//! on that map.

use vstd::prelude::*;

verus! {

/// What the tracker keeps for one source.
#[derive(PartialEq, Eq, Structural, Debug, Copy, Clone)]
pub struct Bucket {
    /// The task that originated the source. Stored, never interpreted.
    pub task: u32,
    /// The running XOR of the source's own identifier and of every tuple
    /// identifier added or acked under it.
    pub ack: u64,
}

/// The abstract state of a tracker: one bucket per tracked source.
pub type Ledger = Map<u64, Bucket>;

/// The ledger after `source` is registered for `task`. A bucket already kept
/// for `source` is replaced; the new ack value is the source's own identifier.
pub open spec fn seeded(ledger: Ledger, source: u64, task: u32) -> Ledger {
    ledger.insert(source, Bucket { task, ack: source })
}

/// The ledger after `tuple` is XORed into the ack value of `source`. A ledger
/// that does not track `source` is left as it is.
pub open spec fn toggled(ledger: Ledger, source: u64, tuple: u64) -> Ledger {
    if ledger.contains_key(source) {
        ledger.insert(source, Bucket { task: ledger[source].task, ack: ledger[source].ack ^ tuple })
    } else {
        ledger
    }
}

/// The ledger after every element of `tuples` is XORed into the ack value of
/// `source`, first element first.
pub open spec fn toggled_all(ledger: Ledger, source: u64, tuples: Seq<u64>) -> Ledger {
    tuples.fold_left(ledger, |l: Ledger, tuple: u64| toggled(l, source, tuple))
}

/// The XOR of all elements of `tuples`; zero for the empty sequence.
pub open spec fn xor_all(tuples: Seq<u64>) -> u64 {
    tuples.fold_left(0u64, |acc: u64, tuple: u64| acc ^ tuple)
}

/// Whether `source` counts as complete in `ledger`: it is tracked and its ack
/// value is zero.
pub open spec fn completed(ledger: Ledger, source: u64) -> bool {
    ledger.contains_key(source) && ledger[source].ack == 0
}

} // verus!
