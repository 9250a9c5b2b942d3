//! The bounded job queue: first in, first out, and never more than its
//! capacity. An enqueue beyond the capacity fails at once.

use vstd::prelude::*;
use std::collections::VecDeque;

verus! {

/// The abstract state of a queue: the jobs it holds, oldest first, its
/// capacity, and whether it has been closed.
pub struct QueueState<T> {
    pub items: Seq<T>,
    pub capacity: nat,
    pub closed: bool,
}

/// Why a job was not enqueued; the job is handed back.
pub enum EnqueueError<T> {
    /// The queue holds as many jobs as its capacity.
    Full(T),
    /// The queue has been closed.
    Closed(T),
}

/// What a dequeue found.
pub enum Dequeued<T> {
    /// The oldest job, now removed from the queue.
    Job(T),
    /// Nothing yet; the queue is still open.
    Empty,
    /// Nothing, and nothing will come: the queue is closed.
    Closed,
}

/// One operation on a queue, as far as the order of jobs is concerned.
pub enum QueueOp<T> {
    Enqueue(T),
    Dequeue,
}

impl<T> QueueState<T> {
    /// The queue holds no more jobs than its capacity.
    pub open spec fn wf(self) -> bool {
        self.items.len() <= self.capacity
    }

    /// An enqueue now succeeds: the queue is open and below capacity.
    pub open spec fn accepts(self) -> bool {
        !self.closed && self.items.len() < self.capacity
    }

    pub open spec fn after_enqueue(self, job: T) -> QueueState<T> {
        if self.accepts() {
            QueueState { items: self.items.push(job), ..self }
        } else {
            self
        }
    }

    pub open spec fn enqueue_result(self, job: T) -> Result<(), EnqueueError<T>> {
        if self.accepts() {
            Ok(())
        } else if self.closed {
            Err(EnqueueError::Closed(job))
        } else {
            Err(EnqueueError::Full(job))
        }
    }

    pub open spec fn after_dequeue(self) -> QueueState<T> {
        if self.items.len() > 0 {
            QueueState { items: self.items.drop_first(), ..self }
        } else {
            self
        }
    }

    pub open spec fn dequeue_result(self) -> Dequeued<T> {
        if self.items.len() > 0 {
            Dequeued::Job(self.items[0])
        } else if self.closed {
            Dequeued::Closed
        } else {
            Dequeued::Empty
        }
    }

    pub open spec fn apply(self, op: QueueOp<T>) -> QueueState<T> {
        match op {
            QueueOp::Enqueue(job) => self.after_enqueue(job),
            QueueOp::Dequeue => self.after_dequeue(),
        }
    }
}

/// The state after `ops`, applied in order from `q`.
pub open spec fn run<T>(q: QueueState<T>, ops: Seq<QueueOp<T>>) -> QueueState<T>
    decreases ops.len(),
{
    if ops.len() == 0 {
        q
    } else {
        run(q, ops.drop_last()).apply(ops.last())
    }
}

/// The jobs that the enqueues among `ops` got into the queue, in order.
pub open spec fn accepted<T>(q: QueueState<T>, ops: Seq<QueueOp<T>>) -> Seq<T>
    decreases ops.len(),
{
    if ops.len() == 0 {
        Seq::empty()
    } else {
        let before = run(q, ops.drop_last());
        let earlier = accepted(q, ops.drop_last());
        match ops.last() {
            QueueOp::Enqueue(job) => if before.accepts() {
                earlier.push(job)
            } else {
                earlier
            },
            QueueOp::Dequeue => earlier,
        }
    }
}

/// The jobs that the dequeues among `ops` handed out, in order.
pub open spec fn delivered<T>(q: QueueState<T>, ops: Seq<QueueOp<T>>) -> Seq<T>
    decreases ops.len(),
{
    if ops.len() == 0 {
        Seq::empty()
    } else {
        let before = run(q, ops.drop_last());
        let earlier = delivered(q, ops.drop_last());
        match ops.last() {
            QueueOp::Dequeue => if before.items.len() > 0 {
                earlier.push(before.items[0])
            } else {
                earlier
            },
            QueueOp::Enqueue(_) => earlier,
        }
    }
}

/// Whatever the operations, the queue never holds more jobs than its capacity.
pub proof fn lemma_never_exceeds_capacity<T>(q: QueueState<T>, ops: Seq<QueueOp<T>>)
    requires
        q.wf(),
    ensures
        run(q, ops).wf(),
        run(q, ops).capacity == q.capacity,
    decreases ops.len(),
{
    if ops.len() > 0 {
        lemma_never_exceeds_capacity(q, ops.drop_last());
    }
}

/// No job is reordered, duplicated or lost: the jobs handed out, followed by
/// those still queued, are exactly the jobs that were queued at the start
/// followed by those accepted since, in the same order.
pub proof fn lemma_fifo_without_loss<T>(q: QueueState<T>, ops: Seq<QueueOp<T>>)
    ensures
        delivered(q, ops) + run(q, ops).items == q.items + accepted(q, ops),
    decreases ops.len(),
{
    if ops.len() > 0 {
        let prev = ops.drop_last();
        lemma_fifo_without_loss(q, prev);
        let before = run(q, prev);
        match ops.last() {
            QueueOp::Enqueue(job) => {
                if before.accepts() {
                    assert(delivered(q, prev) + before.items.push(job) =~= (delivered(q, prev)
                        + before.items).push(job));
                    assert(q.items + accepted(q, prev).push(job) =~= (q.items + accepted(
                        q,
                        prev,
                    )).push(job));
                }
            },
            QueueOp::Dequeue => {
                if before.items.len() > 0 {
                    assert(delivered(q, prev).push(before.items[0]) + before.items.drop_first()
                        =~= delivered(q, prev) + before.items);
                }
            },
        }
    }
}

/// The enqueues of `jobs`, one after another.
pub open spec fn enqueues<T>(jobs: Seq<T>) -> Seq<QueueOp<T>> {
    jobs.map_values(|job: T| QueueOp::Enqueue(job))
}

proof fn lemma_enqueues_fill<T>(q: QueueState<T>, jobs: Seq<T>, i: int)
    requires
        q.items.len() == 0,
        !q.closed,
        0 <= i <= jobs.len(),
        i <= q.capacity,
    ensures
        run(q, enqueues(jobs.take(i))).items == jobs.take(i),
        run(q, enqueues(jobs.take(i))).capacity == q.capacity,
        !run(q, enqueues(jobs.take(i))).closed,
        accepted(q, enqueues(jobs.take(i))) == jobs.take(i),
    decreases i,
{
    let ops = enqueues(jobs.take(i));
    if i == 0 {
        assert(jobs.take(0) =~= Seq::<T>::empty());
        assert(ops.len() == 0);
    } else {
        lemma_enqueues_fill(q, jobs, i - 1);
        assert(ops.drop_last() =~= enqueues(jobs.take(i - 1)));
        assert(ops.last() == QueueOp::Enqueue(jobs[i - 1]));
        assert(jobs.take(i - 1).push(jobs[i - 1]) =~= jobs.take(i));
    }
}

/// From an empty open queue of capacity `K`, with no dequeue in between, the
/// first `K` of `K + 1` enqueues succeed and the last is rejected.
pub proof fn lemma_enqueue_past_capacity_rejected<T>(q: QueueState<T>, jobs: Seq<T>)
    requires
        q.items.len() == 0,
        !q.closed,
        jobs.len() == q.capacity + 1,
    ensures
        accepted(q, enqueues(jobs)) == jobs.take(q.capacity as int),
        !run(q, enqueues(jobs.take(q.capacity as int))).accepts(),
        run(q, enqueues(jobs)).enqueue_result(jobs.last()) is Err,
{
    let k = q.capacity as int;
    lemma_enqueues_fill(q, jobs, k);
    let ops = enqueues(jobs);
    assert(ops.drop_last() =~= enqueues(jobs.take(k)));
    assert(ops.last() == QueueOp::Enqueue(jobs.last()));
}

/// A bounded first-in first-out queue of jobs.
pub struct JobQueue<T> {
    items: VecDeque<T>,
    capacity: usize,
    closed: bool,
}

impl<T> View for JobQueue<T> {
    type V = QueueState<T>;

    closed spec fn view(&self) -> QueueState<T> {
        QueueState { items: self.items@, capacity: self.capacity as nat, closed: self.closed }
    }
}

impl<T> JobQueue<T> {
    /// An empty, open queue that holds at most `capacity` jobs.
    pub fn new(capacity: usize) -> (r: JobQueue<T>)
        ensures
            r@.items.len() == 0,
            r@.capacity == capacity,
            !r@.closed,
            r@.wf(),
    {
        JobQueue { items: VecDeque::new(), capacity, closed: false }
    }

    /// Enqueues `job` if the queue is open and below capacity; never blocks.
    pub fn try_enqueue(&mut self, job: T) -> (r: Result<(), EnqueueError<T>>)
        requires
            old(self)@.wf(),
        ensures
            final(self)@ == old(self)@.after_enqueue(job),
            r == old(self)@.enqueue_result(job),
            final(self)@.wf(),
    {
        if self.closed {
            Err(EnqueueError::Closed(job))
        } else if self.items.len() >= self.capacity {
            Err(EnqueueError::Full(job))
        } else {
            self.items.push_back(job);
            proof {
                assert(self@ =~= old(self)@.after_enqueue(job));
            }
            Ok(())
        }
    }

    /// Removes and returns the oldest job; says whether the queue is merely
    /// empty or closed when there is none.
    pub fn dequeue(&mut self) -> (r: Dequeued<T>)
        requires
            old(self)@.wf(),
        ensures
            final(self)@ == old(self)@.after_dequeue(),
            r == old(self)@.dequeue_result(),
            final(self)@.wf(),
    {
        match self.items.pop_front() {
            Some(job) => {
                proof {
                    assert(self@ =~= old(self)@.after_dequeue());
                }
                Dequeued::Job(job)
            },
            None => if self.closed {
                Dequeued::Closed
            } else {
                Dequeued::Empty
            },
        }
    }

    /// Closes the queue: no job is accepted from now on; those queued can
    /// still be dequeued.
    pub fn close(&mut self)
        requires
            old(self)@.wf(),
        ensures
            final(self)@ == (QueueState { closed: true, ..old(self)@ }),
            final(self)@.wf(),
    {
        self.closed = true;
    }

    /// The number of jobs queued.
    pub fn len(&self) -> (r: usize)
        ensures
            r == self@.items.len(),
    {
        self.items.len()
    }

    /// The largest number of jobs the queue holds.
    pub fn capacity(&self) -> (r: usize)
        ensures
            r == self@.capacity,
    {
        self.capacity
    }

    /// Whether the queue has been closed.
    pub fn is_closed(&self) -> (r: bool)
        ensures
            r == self@.closed,
    {
        self.closed
    }
}

} // verus!
