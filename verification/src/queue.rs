//! The first-in, first-out buffer between producers and the worker.
//!
//! A queue has any number of write-ends and one read-end. It counts the
//! write-ends that are open, so that the read-end can tell a queue that is
//! merely empty from one that will never hold a task again.

use crate::task::Task;
use std::collections::VecDeque;
use vstd::prelude::*;

verus! {

/// An unbounded queue of tasks, taken out in the order in which they were
/// accepted.
pub struct TaskQueue<F> {
    /// The tasks that were accepted and not yet taken out, oldest first.
    buffered: VecDeque<Task<F>>,
    /// The number of write-ends that are open.
    write_ends: usize,
    /// Whether the read-end still exists.
    read_end: bool,
}

/// What the read-end gets when it asks for the next task.
pub enum Dequeued<F> {
    /// The oldest buffered task.
    Task(Task<F>),
    /// Nothing is buffered, but a write-end is open: a task may still come.
    Empty,
    /// Nothing is buffered and no write-end is open: no task will ever come.
    EndOfStream,
}

/// What the read-end gets from a queue that holds `buffered` and has
/// `write_ends` open write-ends.
pub open spec fn next_of<F>(buffered: Seq<Task<F>>, write_ends: nat) -> Dequeued<F> {
    if buffered.len() > 0 {
        Dequeued::Task(buffered.first())
    } else if write_ends > 0 {
        Dequeued::Empty
    } else {
        Dequeued::EndOfStream
    }
}

/// What stays buffered after the read-end has asked for the next task.
pub open spec fn rest_of<F>(buffered: Seq<Task<F>>) -> Seq<Task<F>> {
    if buffered.len() > 0 {
        buffered.drop_first()
    } else {
        buffered
    }
}

impl<F: FnOnce()> View for TaskQueue<F> {
    type V = Seq<Task<F>>;

    /// The buffered tasks, oldest first.
    closed spec fn view(&self) -> Seq<Task<F>> {
        self.buffered@
    }
}

impl<F: FnOnce()> TaskQueue<F> {
    /// The number of write-ends that are open.
    pub closed spec fn write_ends(&self) -> nat {
        self.write_ends as nat
    }

    /// Whether the read-end still exists.
    pub closed spec fn has_read_end(&self) -> bool {
        self.read_end
    }

    /// Whether the queue takes a task that is offered to it: the read-end
    /// exists, and a write-end is open to offer it through.
    pub open spec fn accepts(&self) -> bool {
        self.has_read_end() && self.write_ends() > 0
    }

    /// Makes an empty queue with one write-end and its read-end.
    pub fn new() -> (queue: TaskQueue<F>)
        ensures
            queue@ == Seq::<Task<F>>::empty(),
            queue.write_ends() == 1,
            queue.has_read_end(),
    {
        TaskQueue { buffered: VecDeque::new(), write_ends: 1, read_end: true }
    }

    /// Opens one more write-end, as a copy of one that is open. Returns
    /// whether it did: a write-end must be open to be copied, and the count
    /// must fit.
    pub fn clone_write_end(&mut self) -> (opened: bool)
        ensures
            opened <==> 0 < old(self).write_ends() < usize::MAX,
            final(self).write_ends() == old(self).write_ends() + if opened { 1nat } else { 0nat },
            final(self)@ == old(self)@,
            final(self).has_read_end() == old(self).has_read_end(),
    {
        if 0 < self.write_ends && self.write_ends < usize::MAX {
            self.write_ends = self.write_ends + 1;
            true
        } else {
            false
        }
    }

    /// Closes one write-end. Returns whether one was open.
    pub fn drop_write_end(&mut self) -> (closed: bool)
        ensures
            closed <==> old(self).write_ends() > 0,
            final(self).write_ends() == old(self).write_ends() - if closed { 1nat } else { 0nat },
            final(self)@ == old(self)@,
            final(self).has_read_end() == old(self).has_read_end(),
    {
        if self.write_ends > 0 {
            self.write_ends = self.write_ends - 1;
            true
        } else {
            false
        }
    }

    /// Gives up the read-end. The tasks that are still buffered are dropped
    /// without being run, and no task is accepted from now on.
    pub fn drop_read_end(&mut self)
        ensures
            !final(self).has_read_end(),
            final(self)@ == Seq::<Task<F>>::empty(),
            final(self).write_ends() == old(self).write_ends(),
    {
        self.read_end = false;
        self.buffered.clear();
    }

    /// Offers `task` to the queue without blocking. Returns whether the queue
    /// accepted it; an accepted task goes behind all that are buffered, and a
    /// task that is not accepted is dropped without being run.
    pub fn enqueue(&mut self, task: Task<F>) -> (accepted: bool)
        ensures
            accepted == old(self).accepts(),
            final(self)@ == if accepted { old(self)@.push(task) } else { old(self)@ },
            final(self).write_ends() == old(self).write_ends(),
            final(self).has_read_end() == old(self).has_read_end(),
    {
        if self.read_end && self.write_ends > 0 {
            self.buffered.push_back(task);
            true
        } else {
            false
        }
    }

    /// Takes the next task out without blocking: the oldest buffered task if
    /// there is one. Where nothing is buffered the answer says whether a task
    /// may still come.
    pub fn dequeue(&mut self) -> (next: Dequeued<F>)
        ensures
            next == next_of(old(self)@, old(self).write_ends()),
            final(self)@ == rest_of(old(self)@),
            final(self).write_ends() == old(self).write_ends(),
            final(self).has_read_end() == old(self).has_read_end(),
    {
        match self.buffered.pop_front() {
            Some(task) => {
                assert(self.buffered@ =~= old(self).buffered@.drop_first());
                Dequeued::Task(task)
            },
            None => {
                if self.write_ends > 0 {
                    Dequeued::Empty
                } else {
                    Dequeued::EndOfStream
                }
            },
        }
    }

    /// The number of buffered tasks.
    pub fn len(&self) -> (n: usize)
        ensures
            n == self@.len(),
    {
        self.buffered.len()
    }

    /// Whether no task is buffered.
    pub fn is_empty(&self) -> (empty: bool)
        ensures
            empty <==> self@.len() == 0,
    {
        self.buffered.len() == 0
    }

    /// The number of write-ends that are open.
    pub fn open_write_ends(&self) -> (n: usize)
        ensures
            n == self.write_ends(),
    {
        self.write_ends
    }

    /// Whether the read-end still exists.
    pub fn is_read_end_open(&self) -> (open: bool)
        ensures
            open == self.has_read_end(),
    {
        self.read_end
    }
}

/// One use of a queue, as the order of tasks sees it: a task is accepted, or
/// the read-end asks for the next one.
pub enum QueueOp<F> {
    /// A task is offered and accepted.
    Enqueue(Task<F>),
    /// The read-end asks for the next task.
    Dequeue,
}

/// The tasks that are buffered after `ops` were applied, in that order, to an
/// empty queue.
pub open spec fn buffered_after<F>(ops: Seq<QueueOp<F>>) -> Seq<Task<F>>
    decreases ops.len(),
{
    if ops.len() == 0 {
        Seq::empty()
    } else {
        let before = buffered_after(ops.drop_last());
        match ops.last() {
            QueueOp::Enqueue(task) => before.push(task),
            QueueOp::Dequeue => rest_of(before),
        }
    }
}

/// The tasks that `ops` put into the queue, in the order in which they were
/// accepted.
pub open spec fn accepted_in<F>(ops: Seq<QueueOp<F>>) -> Seq<Task<F>>
    decreases ops.len(),
{
    if ops.len() == 0 {
        Seq::empty()
    } else {
        let before = accepted_in(ops.drop_last());
        match ops.last() {
            QueueOp::Enqueue(task) => before.push(task),
            QueueOp::Dequeue => before,
        }
    }
}

/// The tasks that the read-end got while `ops` were applied to an empty
/// queue, in the order in which it got them. Which task comes out does not
/// depend on the write-ends, so none is counted here.
pub open spec fn handed_out_in<F>(ops: Seq<QueueOp<F>>) -> Seq<Task<F>>
    decreases ops.len(),
{
    if ops.len() == 0 {
        Seq::empty()
    } else {
        let before = handed_out_in(ops.drop_last());
        match ops.last() {
            QueueOp::Enqueue(_) => before,
            QueueOp::Dequeue => match next_of(buffered_after(ops.drop_last()), 0) {
                Dequeued::Task(task) => before.push(task),
                _ => before,
            },
        }
    }
}

/// First in, first out: however enqueues and dequeues alternate, the tasks
/// handed out so far, followed by the tasks still buffered, are the accepted
/// tasks in the order in which they were accepted. So the read-end gets the
/// tasks in that order, none twice and none skipped.
pub proof fn lemma_fifo<F>(ops: Seq<QueueOp<F>>)
    ensures
        handed_out_in(ops) + buffered_after(ops) == accepted_in(ops),
        handed_out_in(ops).is_prefix_of(accepted_in(ops)),
    decreases ops.len(),
{
    if ops.len() > 0 {
        let earlier = ops.drop_last();
        lemma_fifo(earlier);
        let out = handed_out_in(earlier);
        let buffered = buffered_after(earlier);
        match ops.last() {
            QueueOp::Enqueue(task) => {
                assert(out + buffered.push(task) =~= (out + buffered).push(task));
            },
            QueueOp::Dequeue => {
                if buffered.len() > 0 {
                    assert(out.push(buffered.first()) + buffered.drop_first() =~= out + buffered);
                }
            },
        }
    }
    assert(handed_out_in(ops) + buffered_after(ops) =~= accepted_in(ops));
}

/// Nothing is lost and nothing comes twice: once the queue is empty again,
/// the read-end has got exactly the accepted tasks.
pub proof fn lemma_drained_queue_gave_all<F>(ops: Seq<QueueOp<F>>)
    requires
        buffered_after(ops).len() == 0,
    ensures
        handed_out_in(ops) == accepted_in(ops),
{
    lemma_fifo(ops);
    assert(handed_out_in(ops) + buffered_after(ops) =~= handed_out_in(ops));
}

/// First in, first out for each producer: of the tasks that one producer put
/// in, told apart by `from_producer`, the read-end gets a first part, in the
/// order in which that producer enqueued them, whatever other producers
/// enqueue in between.
pub proof fn lemma_fifo_per_producer<F>(
    ops: Seq<QueueOp<F>>,
    from_producer: spec_fn(Task<F>) -> bool,
)
    ensures
        handed_out_in(ops).filter(from_producer) + buffered_after(ops).filter(from_producer)
            == accepted_in(ops).filter(from_producer),
        handed_out_in(ops).filter(from_producer).is_prefix_of(
            accepted_in(ops).filter(from_producer),
        ),
{
    lemma_fifo(ops);
    Seq::filter_distributes_over_add(handed_out_in(ops), buffered_after(ops), from_producer);
}

/// The read-end is told the end of the stream exactly when nothing is
/// buffered and every write-end has been dropped, and from then on every time
/// it asks: the queue stays empty, for with no write-end open it accepts no
/// task and opens no write-end.
pub proof fn lemma_end_of_stream<F: FnOnce()>(queue: TaskQueue<F>)
    ensures
        next_of(queue@, queue.write_ends()) is EndOfStream <==> queue@.len() == 0
            && queue.write_ends() == 0,
        next_of(queue@, queue.write_ends()) is Empty <==> queue@.len() == 0 && queue.write_ends()
            > 0,
        next_of(queue@, queue.write_ends()) is EndOfStream ==> !queue.accepts() && rest_of(queue@)
            == queue@,
{
}

} // verus!
