//! A constant-memory completion tracker for lineages of work.
//!
//! Every tracked source owns one 64-bit ack value. Tuples spawned under the
//! source are XORed into that value when they are added and again when they
//! are acked, so a tuple that went through both steps leaves no trace.

pub mod ids;
pub mod laws;
pub mod model;
pub mod tracker;

pub use ids::{Source, Task, Tuple};
pub use model::{Bucket, Ledger};
pub use tracker::Ackr;
