use vstd::prelude::*;

pub mod catalog;
pub mod consumer;
pub mod naming;
pub mod producer;

pub use catalog::{Meta, ResponseEnvelope};

verus! {

/// Capacity of the queue between the catalog walker and the download scheduler.
pub const QUEUE_CAPACITY: usize = 64;

} // verus!
