//! A fixed-size worker thread pool, modelled and verified.
//!
//! The pool accepts jobs from submitters and hands each to exactly one
//! worker. Jobs are identified by the order of their submission; the
//! model tracks where every job stands (queued, claimed by a worker,
//! completed, or lost to a panicking execution), and teardown closes the
//! queue exactly once and runs every worker to termination.

pub mod error;
pub mod pool;
pub mod queue;
pub mod worker;
