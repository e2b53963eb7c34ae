//! Concurrent reachability checking of HTTP endpoints: the decisions of the
//! per-target retry policy, the shared work pool that hands targets to workers
//! and collects one outcome per target, and the report records built from the
//! collected outcomes.
use vstd::prelude::*;

pub mod cli;
pub mod pool;
pub mod report;
pub mod retry;

verus! {

} // verus!
