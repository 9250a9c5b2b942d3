//! Sizing of the worker pool (`c`) and the queue (`K`).

use vstd::prelude::*;
use vstd::arithmetic::div_mod::{lemma_fundamental_div_mod, lemma_hoist_over_denominator};

verus! {

/// Smallest queue capacity, kept so that short bursts are absorbed.
pub const MIN_QUEUE_CAPACITY: usize = 10;

/// Largest queue capacity that can be handed out: the largest `usize`.
pub const MAX_QUEUE_CAPACITY: usize = usize::MAX;

/// An average per-job service time in milliseconds, held exactly as the
/// fraction `numer / denom`.
#[derive(Clone, Copy, Debug, PartialEq, Eq)]
pub struct ServiceTime {
    pub numer: u64,
    pub denom: u64,
}

impl ServiceTime {
    /// A service time is positive: both parts of the fraction are.
    pub open spec fn wf(self) -> bool {
        self.numer > 0 && self.denom > 0
    }

    /// The service time `numer / denom` ms; `None` unless it is positive.
    pub fn new(numer: u64, denom: u64) -> (r: Option<ServiceTime>)
        ensures
            r is Some <==> (numer > 0 && denom > 0),
            r matches Some(s) ==> s.numer == numer && s.denom == denom && s.wf(),
    {
        if numer > 0 && denom > 0 {
            Some(ServiceTime { numer, denom })
        } else {
            None
        }
    }

    /// A whole number of milliseconds; `None` for zero.
    pub fn from_millis(ms: u64) -> (r: Option<ServiceTime>)
        ensures
            r is Some <==> ms > 0,
            r matches Some(s) ==> s.numer == ms && s.denom == 1 && s.wf(),
    {
        ServiceTime::new(ms, 1)
    }
}

/// `c = max(1, cores - 1)`: one core stays free for the system and for I/O.
pub open spec fn spec_worker_count(logical_cores: int) -> int {
    if logical_cores > 1 {
        logical_cores - 1
    } else {
        1
    }
}

/// The number of jobs that `workers` servers drain within `max_latency_ms`:
/// `floor(workers * max_latency_ms / (numer / denom))`.
pub open spec fn spec_drained_within(workers: int, max_latency_ms: int, st: ServiceTime) -> int {
    (workers * max_latency_ms * st.denom) / (st.numer as int)
}

/// `K = max(10, floor(c * max_latency_ms / avg_service_time_ms))`.
pub open spec fn spec_queue_capacity(workers: int, max_latency_ms: int, st: ServiceTime) -> int {
    let drained = spec_drained_within(workers, max_latency_ms, st);
    if drained > MIN_QUEUE_CAPACITY {
        drained
    } else {
        MIN_QUEUE_CAPACITY as int
    }
}

/// The worker count for a host with `logical_cores` logical cores.
pub fn worker_count(logical_cores: usize) -> (c: usize)
    ensures
        c as int == spec_worker_count(logical_cores as int),
        c >= 1,
{
    if logical_cores > 1 {
        logical_cores - 1
    } else {
        1
    }
}

/// The queue capacity for `workers` servers and a latency budget; `None`
/// exactly when that capacity exceeds `MAX_QUEUE_CAPACITY`.
pub fn queue_capacity(workers: usize, max_latency_ms: u64, st: ServiceTime) -> (r: Option<usize>)
    requires
        st.wf(),
    ensures
        r is Some <==> spec_queue_capacity(workers as int, max_latency_ms as int, st)
            <= MAX_QUEUE_CAPACITY,
        r matches Some(k) ==> k as int == spec_queue_capacity(
            workers as int,
            max_latency_ms as int,
            st,
        ),
{
    let n = st.numer as u128;
    let d = st.denom as u128;
    assert(workers as int * max_latency_ms as int <= 0xFFFF_FFFF_FFFF_FFFF * 0xFFFF_FFFF_FFFF_FFFF)
        by (nonlinear_arith);
    let q: u128 = workers as u128 * max_latency_ms as u128;
    let whole: u128 = q / n;
    let rest: u128 = q % n;
    let ghost total: int = q as int * d as int;
    proof {
        lemma_fundamental_div_mod(q as int, n as int);
        assert(total == (whole as int * d as int) * n as int + rest as int * d as int)
            by (nonlinear_arith)
            requires
                q as int == n as int * whole as int + rest as int,
                total == q as int * d as int,
        ;
        lemma_hoist_over_denominator(rest as int * d as int, whole as int * d as int, n as nat);
        assert(spec_drained_within(workers as int, max_latency_ms as int, st) == total / n as int);
    }
    if whole > MAX_QUEUE_CAPACITY as u128 {
        proof {
            assert(rest as int * d as int >= 0) by (nonlinear_arith)
                requires rest >= 0, d >= 1;
            assert((rest as int * d as int) / n as int >= 0) by (nonlinear_arith)
                requires rest as int * d as int >= 0, n >= 1;
            assert(whole as int * d as int >= whole as int) by (nonlinear_arith)
                requires whole >= 0, d >= 1;
        }
        return None;
    }
    assert(whole as int * d as int <= MAX_QUEUE_CAPACITY as int * 0xFFFF_FFFF_FFFF_FFFF)
        by (nonlinear_arith)
        requires whole <= MAX_QUEUE_CAPACITY, d <= 0xFFFF_FFFF_FFFF_FFFF;
    assert(rest as int * d as int <= n as int * d as int) by (nonlinear_arith)
        requires rest < n, d >= 1;
    assert(n as int * d as int <= 0xFFFF_FFFF_FFFF_FFFF * 0xFFFF_FFFF_FFFF_FFFF)
        by (nonlinear_arith)
        requires n <= 0xFFFF_FFFF_FFFF_FFFF, d <= 0xFFFF_FFFF_FFFF_FFFF;
    let part: u128 = (rest * d) / n;
    assert(part < d) by (nonlinear_arith)
        requires
            part as int == (rest as int * d as int) / n as int,
            rest < n,
            d >= 1,
    ;
    let drained: u128 = whole * d + part;
    if drained > MAX_QUEUE_CAPACITY as u128 {
        None
    } else if drained > MIN_QUEUE_CAPACITY as u128 {
        Some(drained as usize)
    } else {
        Some(MIN_QUEUE_CAPACITY)
    }
}

/// The worker count `c` and the queue capacity `K` of one process.
#[derive(Clone, Copy, Debug, PartialEq, Eq, Structural)]
pub struct CapacityPlan {
    pub workers: usize,
    pub capacity: usize,
}

/// The plan for a host with `logical_cores` logical cores, a latency budget
/// of `max_latency_ms` and an average service time `st`: `c` and `K` as
/// their formulas give them. `None` exactly when `K` exceeds
/// `MAX_QUEUE_CAPACITY`.
pub fn plan(logical_cores: usize, max_latency_ms: u64, st: ServiceTime) -> (r: Option<CapacityPlan>)
    requires
        st.wf(),
    ensures
        r is Some <==> spec_queue_capacity(
            spec_worker_count(logical_cores as int),
            max_latency_ms as int,
            st,
        ) <= MAX_QUEUE_CAPACITY,
        r matches Some(p) ==> {
            &&& p.workers as int == spec_worker_count(logical_cores as int)
            &&& p.capacity as int == spec_queue_capacity(p.workers as int, max_latency_ms as int, st)
            &&& p.workers >= 1
            &&& p.capacity >= MIN_QUEUE_CAPACITY
        },
{
    let workers = worker_count(logical_cores);
    match queue_capacity(workers, max_latency_ms, st) {
        Some(capacity) => Some(CapacityPlan { workers, capacity }),
        None => None,
    }
}

/// A host with one logical core (or none reported) runs one worker; the
/// worker count depends on the core count alone, so this holds whatever the
/// latency budget and the service time.
pub proof fn lemma_single_core_single_worker(logical_cores: int)
    requires
        logical_cores <= 1,
    ensures
        spec_worker_count(logical_cores) == 1,
{
}

} // verus!
