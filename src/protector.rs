//! The admission front: a capacity plan and the one bounded job queue that
//! every gateway connection and every worker shares.

use vstd::prelude::*;
use crate::capacity::{
    plan, spec_queue_capacity, spec_worker_count, ServiceTime, MAX_QUEUE_CAPACITY,
    MIN_QUEUE_CAPACITY,
};
use crate::executor::JobRequest;
use crate::queue::{Dequeued, JobQueue, QueueState};

verus! {

/// The bytes read from one connection: its whole request, in a single read.
pub const REQUEST_BUFFER_SIZE: usize = 1024;

/// The reply to one connection.
#[derive(Clone, Copy, Debug, PartialEq, Eq, Structural)]
pub enum Response {
    /// The job was queued.
    Accepted,
    /// The queue was full: the job was shed.
    Rejected,
    /// The payload was not a job request.
    Error,
}

/// The body sent back for each reply.
pub open spec fn spec_response_body(r: Response) -> Seq<char> {
    match r {
        Response::Accepted => "{\"status\": \"Accepted\"}"@,
        Response::Rejected => "{\"status\": \"Rejected\", \"reason\": \"Server Busy\"}"@,
        Response::Error => "{\"status\": \"Error\", \"reason\": \"Invalid JSON\"}"@,
    }
}

impl Response {
    /// The body sent back to the client.
    pub fn body(self) -> (r: &'static str)
        ensures
            r@ == spec_response_body(self),
    {
        match self {
            Response::Accepted => "{\"status\": \"Accepted\"}",
            Response::Rejected => "{\"status\": \"Rejected\", \"reason\": \"Server Busy\"}",
            Response::Error => "{\"status\": \"Error\", \"reason\": \"Invalid JSON\"}",
        }
    }
}

/// The abstract state of a protector: its worker count and its queue.
pub struct ProtectorState {
    pub workers: nat,
    pub queue: QueueState<JobRequest>,
}

/// Admission control sized once at startup: `c` workers drain a queue of
/// capacity `K`, and jobs beyond `K` are shed.
pub struct SystemProtector {
    workers: usize,
    queue: JobQueue<JobRequest>,
}

impl View for SystemProtector {
    type V = ProtectorState;

    closed spec fn view(&self) -> ProtectorState {
        ProtectorState { workers: self.workers as nat, queue: self.queue@ }
    }
}

impl SystemProtector {
    pub open spec fn wf(&self) -> bool {
        &&& self@.workers >= 1
        &&& self@.queue.wf()
        &&& self@.queue.capacity >= MIN_QUEUE_CAPACITY
    }

    /// Plans `c` and `K` for the host and makes an empty, open queue of
    /// capacity `K`. `None` exactly when `K` exceeds `MAX_QUEUE_CAPACITY`.
    pub fn new(logical_cores: usize, max_latency_ms: u64, avg_service_time: ServiceTime) -> (r:
        Option<SystemProtector>)
        requires
            avg_service_time.wf(),
        ensures
            r is Some <==> spec_queue_capacity(
                spec_worker_count(logical_cores as int),
                max_latency_ms as int,
                avg_service_time,
            ) <= MAX_QUEUE_CAPACITY,
            r matches Some(p) ==> {
                &&& p.wf()
                &&& p@.workers == spec_worker_count(logical_cores as int)
                &&& p@.queue.capacity == spec_queue_capacity(
                    p@.workers as int,
                    max_latency_ms as int,
                    avg_service_time,
                )
                &&& p@.queue.items.len() == 0
                &&& !p@.queue.closed
            },
    {
        match plan(logical_cores, max_latency_ms, avg_service_time) {
            Some(p) => Some(SystemProtector { workers: p.workers, queue: JobQueue::new(p.capacity) }),
            None => None,
        }
    }

    /// Handles one parsed request, or answers `Error` for a payload that did
    /// not parse (`None`), which never reaches the queue. A request is
    /// accepted exactly when the queue is open and below capacity.
    pub fn handle_request(&mut self, request: Option<JobRequest>) -> (r: Response)
        requires
            old(self).wf(),
        ensures
            final(self).wf(),
            final(self)@.workers == old(self)@.workers,
            match request {
                None => r == Response::Error && final(self)@ == old(self)@,
                Some(job) => {
                    &&& final(self)@.queue == old(self)@.queue.after_enqueue(job)
                    &&& (r == Response::Accepted) == old(self)@.queue.accepts()
                    &&& (r == Response::Rejected) == !old(self)@.queue.accepts()
                },
            },
    {
        match request {
            None => Response::Error,
            Some(job) => match self.queue.try_enqueue(job) {
                Ok(()) => Response::Accepted,
                Err(_) => Response::Rejected,
            },
        }
    }

    /// The next job for a worker, oldest first; each job is handed out once.
    pub fn next_job(&mut self) -> (r: Dequeued<JobRequest>)
        requires
            old(self).wf(),
        ensures
            final(self).wf(),
            final(self)@.workers == old(self)@.workers,
            final(self)@.queue == old(self)@.queue.after_dequeue(),
            r == old(self)@.queue.dequeue_result(),
    {
        self.queue.dequeue()
    }

    /// Closes the queue: workers drain what is queued, then stop.
    pub fn close(&mut self)
        requires
            old(self).wf(),
        ensures
            final(self).wf(),
            final(self)@.workers == old(self)@.workers,
            final(self)@.queue == (QueueState { closed: true, ..old(self)@.queue }),
    {
        self.queue.close();
    }

    /// The worker count `c`.
    pub fn workers(&self) -> (r: usize)
        ensures
            r == self@.workers,
    {
        self.workers
    }

    /// The queue capacity `K`.
    pub fn capacity(&self) -> (r: usize)
        ensures
            r == self@.queue.capacity,
    {
        self.queue.capacity()
    }

    /// The number of jobs queued now.
    pub fn occupancy(&self) -> (r: usize)
        ensures
            r == self@.queue.items.len(),
    {
        self.queue.len()
    }
}

} // verus!
