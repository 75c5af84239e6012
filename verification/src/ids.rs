//! Identifiers handed to the tracker by its callers.

use vstd::prelude::*;

verus! {

/// Identifies a lineage: a unit of work that may spawn tuples.
#[derive(PartialEq, Eq, Structural, Hash, Debug, Copy, Clone)]
pub struct Source(pub u64);

/// Identifies one tuple emitted while a source is being processed.
#[derive(PartialEq, Eq, Structural, Hash, Debug, Copy, Clone)]
pub struct Tuple(pub u64);

/// Identifies the task that originated a source.
#[derive(PartialEq, Eq, Structural, Hash, Debug, Copy, Clone)]
pub struct Task(pub u32);

impl View for Source {
    type V = u64;

    open spec fn view(&self) -> u64 {
        self.0
    }
}

impl View for Tuple {
    type V = u64;

    open spec fn view(&self) -> u64 {
        self.0
    }
}

impl View for Task {
    type V = u32;

    open spec fn view(&self) -> u32 {
        self.0
    }
}

impl Source {
    /// The raw 64-bit identifier.
    pub fn to_u64(&self) -> (id: u64)
        ensures
            id == self@,
    {
        self.0
    }

    /// The source's own identifier read as a tuple identifier: the value an
    /// ack value starts from.
    pub fn as_tuple(&self) -> (seed: Tuple)
        ensures
            seed@ == self@,
    {
        Tuple(self.to_u64())
    }
}

impl Tuple {
    /// The raw 64-bit identifier.
    pub fn to_u64(&self) -> (id: u64)
        ensures
            id == self@,
    {
        self.0
    }
}

impl Task {
    /// The raw 32-bit identifier.
    pub fn to_u32(&self) -> (id: u32)
        ensures
            id == self@,
    {
        self.0
    }
}

} // verus!
