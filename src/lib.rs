//! Admission control for a finite-capacity (M/M/c/K) job front end.
//!
//! The library sizes a worker pool and a bounded job queue from the host's
//! core count and a latency budget, accepts or sheds incoming jobs, hands
//! queued jobs to workers in arrival order, and classifies the outcome of
//! each job's external computation.

pub mod capacity;
pub mod queue;
pub mod executor;
pub mod protector;
