//! The consumer: a state machine that decides what happens to each task that
//! comes out of the queue, and the loop that serves what a queue has buffered.
//!
//! A worker waits for a task, runs it unless it has expired, and waits again.
//! It stops for good when the queue reports the end of the stream.

use crate::clock::is_clock_reading;
use crate::clock::unix_now;
use crate::queue::Dequeued;
use crate::queue::TaskQueue;
use crate::task::Task;
use vstd::prelude::*;

verus! {

/// Where the worker stands.
#[derive(Clone, Copy, PartialEq, Eq, Structural, Debug)]
pub enum WorkerState {
    /// Ready to take the next task out of the queue. A worker starts here.
    Waiting,
    /// Running the payload of a task.
    Executing,
    /// Stopped for good: the queue has reported the end of the stream.
    Terminated,
}

/// What happened since the worker last decided.
pub enum Event<F> {
    /// The queue handed out a task.
    Task(Task<F>),
    /// The queue reported the end of the stream.
    EndOfStream,
    /// The payload that the worker was told to run has returned.
    Finished,
}

/// What the worker is to do next.
pub enum Action<F> {
    /// Ask the queue for the next task, waiting until there is an answer.
    Dequeue,
    /// Run the task held here; [`Event::Finished`] follows when its payload returns.
    Run(Task<F>),
    /// Leave the loop.
    Stop,
}

/// Whether `event` can happen to a worker in `state`. A waiting worker hears
/// from the queue, an executing worker hears that the payload has returned,
/// and a terminated worker takes any event, to no effect.
pub open spec fn expects<F>(state: WorkerState, event: Event<F>) -> bool {
    match state {
        WorkerState::Waiting => !(event is Finished),
        WorkerState::Executing => event is Finished,
        WorkerState::Terminated => true,
    }
}

/// The worker's next state and action when `event` happens in `state` at the
/// time `now`.
///
/// A waiting worker runs a task that has not expired and silently drops one
/// that has; it terminates at the end of the stream. An executing worker goes
/// back to waiting when the payload has returned. A terminated worker stays
/// terminated and runs nothing.
pub open spec fn transition<F: FnOnce()>(state: WorkerState, event: Event<F>, now: int) -> (
    WorkerState,
    Action<F>,
) {
    match state {
        WorkerState::Waiting => match event {
            Event::Task(task) => if task.expired_at(now) {
                (WorkerState::Waiting, Action::Dequeue)
            } else {
                (WorkerState::Executing, Action::Run(task))
            },
            Event::EndOfStream => (WorkerState::Terminated, Action::Stop),
            Event::Finished => (WorkerState::Waiting, Action::Dequeue),
        },
        WorkerState::Executing => (WorkerState::Waiting, Action::Dequeue),
        WorkerState::Terminated => (WorkerState::Terminated, Action::Stop),
    }
}

/// Whether `event` can happen to a worker in `state`.
pub fn is_expected<F>(state: WorkerState, event: &Event<F>) -> (expected: bool)
    ensures
        expected == expects(state, *event),
{
    match state {
        WorkerState::Waiting => match event {
            Event::Finished => false,
            _ => true,
        },
        WorkerState::Executing => match event {
            Event::Finished => true,
            _ => false,
        },
        WorkerState::Terminated => true,
    }
}

/// Decides what a worker in `state` does when `event` happens at the time
/// `now`.
pub fn step_at<F: FnOnce()>(state: WorkerState, event: Event<F>, now: i128) -> (next: (
    WorkerState,
    Action<F>,
))
    requires
        expects(state, event),
    ensures
        next == transition(state, event, now as int),
{
    match state {
        WorkerState::Waiting => match event {
            Event::Task(task) => if task.has_expired_at(now) {
                (WorkerState::Waiting, Action::Dequeue)
            } else {
                (WorkerState::Executing, Action::Run(task))
            },
            Event::EndOfStream => (WorkerState::Terminated, Action::Stop),
            Event::Finished => (WorkerState::Waiting, Action::Dequeue),
        },
        WorkerState::Executing => (WorkerState::Waiting, Action::Dequeue),
        WorkerState::Terminated => (WorkerState::Terminated, Action::Stop),
    }
}

/// Decides what a worker in `state` does when `event` happens now, by the
/// clock's reading during this call.
pub fn step<F: FnOnce()>(state: WorkerState, event: Event<F>) -> (next: (WorkerState, Action<F>))
    requires
        expects(state, event),
    ensures
        exists|now: int| #[trigger]
            is_clock_reading(now) && next == transition(state, event, now),
{
    let now = unix_now();
    let next = step_at(state, event, now);
    assert(is_clock_reading(now as int) && next == transition(state, event, now as int));
    next
}

/// What a worker did while it served a queue.
#[derive(Clone, Copy, PartialEq, Eq, Structural, Debug)]
pub struct Served {
    /// Where the worker stands afterwards.
    pub state: WorkerState,
    /// How many tasks it ran.
    pub executed: usize,
    /// How many tasks it dropped because they had expired.
    pub discarded: usize,
}

/// The number of tasks in `tasks` that have a deadline.
pub open spec fn expiring_in<F: FnOnce()>(tasks: Seq<Task<F>>) -> nat
    decreases tasks.len(),
{
    if tasks.len() == 0 {
        0
    } else {
        expiring_in(tasks.drop_last()) + if tasks.last().deadline() is Some {
            1nat
        } else {
            0nat
        }
    }
}

/// No more tasks have a deadline than there are tasks, and none where no task
/// has one.
pub proof fn lemma_expiring_in_bounds<F: FnOnce()>(tasks: Seq<Task<F>>)
    ensures
        expiring_in(tasks) <= tasks.len(),
        (forall|i: int| 0 <= i < tasks.len() ==> (#[trigger] tasks[i]).deadline() is None)
            ==> expiring_in(tasks) == 0,
    decreases tasks.len(),
{
    if tasks.len() > 0 {
        lemma_expiring_in_bounds(tasks.drop_last());
        assert(forall|i: int|
            0 <= i < tasks.len() - 1 ==> tasks.drop_last()[i] == #[trigger] tasks[i]);
    }
}

/// The number of tasks in `tasks` that a waiting worker runs when the task at
/// each place comes out of the queue at the time at the same place in
/// `times`: those that have not expired by then.
pub open spec fn fresh_in<F: FnOnce()>(tasks: Seq<Task<F>>, times: Seq<int>) -> nat
    recommends
        tasks.len() == times.len(),
    decreases tasks.len(),
{
    if tasks.len() == 0 {
        0
    } else {
        fresh_in(tasks.drop_last(), times.drop_last()) + if tasks.last().expired_at(times.last()) {
            0nat
        } else {
            1nat
        }
    }
}

/// Whether `served` is what a waiting worker has done once `tasks` came out
/// of the queue one by one, the task at each place at the time at the same
/// place in `times`: each time is one that the clock can report, the tasks
/// that had not expired when they came out were run, and the others were
/// dropped.
pub open spec fn served_at<F: FnOnce()>(tasks: Seq<Task<F>>, times: Seq<int>, served: Served) -> bool {
    &&& times.len() == tasks.len()
    &&& forall|i: int| 0 <= i < times.len() ==> is_clock_reading(#[trigger] times[i])
    &&& served.executed == fresh_in(tasks, times)
    &&& served.discarded == tasks.len() - fresh_in(tasks, times)
    &&& forall|i: int|
        0 <= i < tasks.len() && !(#[trigger] tasks[i]).expired_at(times[i]) ==> call_ensures(
            tasks[i].payload(),
            (),
            (),
        )
}

/// Whatever the times at which the tasks come out, no more tasks are run than
/// there are, and no more are dropped than have a deadline.
pub proof fn lemma_fresh_in_bounds<F: FnOnce()>(tasks: Seq<Task<F>>, times: Seq<int>)
    requires
        tasks.len() == times.len(),
    ensures
        fresh_in(tasks, times) <= tasks.len(),
        tasks.len() - fresh_in(tasks, times) <= expiring_in(tasks),
    decreases tasks.len(),
{
    if tasks.len() > 0 {
        lemma_fresh_in_bounds(tasks.drop_last(), times.drop_last());
    }
}

/// Serves `queue` with a worker in `state` until the queue has nothing more
/// to give: takes the buffered tasks out one by one, oldest first, and runs
/// each one that has not expired by the clock's reading when it is taken out.
///
/// A waiting worker empties the queue. It ends terminated if no write-end is
/// open, and waiting if one is. What it runs and what it drops is what
/// [`transition`] decides for each task at some reading of the clock: every
/// task without a deadline is run, and only tasks with a deadline can be
/// dropped. A terminated worker leaves the queue as it is.
pub fn drain<F: FnOnce()>(state: WorkerState, queue: &mut TaskQueue<F>) -> (served: Served)
    requires
        !(state is Executing),
        forall|i: int|
            0 <= i < old(queue)@.len() ==> call_requires(
                (#[trigger] old(queue)@[i]).payload(),
                (),
            ),
    ensures
        final(queue).write_ends() == old(queue).write_ends(),
        final(queue).has_read_end() == old(queue).has_read_end(),
        state is Terminated ==> final(queue)@ == old(queue)@ && served == (Served {
            state: WorkerState::Terminated,
            executed: 0,
            discarded: 0,
        }),
        state is Waiting ==> final(queue)@.len() == 0,
        state is Waiting ==> served.state == if old(queue).write_ends() == 0 {
            WorkerState::Terminated
        } else {
            WorkerState::Waiting
        },
        state is Waiting ==> exists|times: Seq<int>| #[trigger]
            served_at(old(queue)@, times, served),
        state is Waiting ==> served.executed + served.discarded == old(queue)@.len(),
        state is Waiting ==> served.discarded <= expiring_in(old(queue)@),
        state is Waiting && (forall|i: int|
            0 <= i < old(queue)@.len() ==> (#[trigger] old(queue)@[i]).deadline() is None)
            ==> served.executed == old(queue)@.len(),
        state is Waiting ==> forall|i: int|
            0 <= i < old(queue)@.len() && (#[trigger] old(queue)@[i]).deadline() is None
                ==> call_ensures(old(queue)@[i].payload(), (), ()),
{
    let ghost initial = queue@;
    let mut current = state;
    let mut executed: usize = 0;
    let mut discarded: usize = 0;
    let total = queue.len();
    let ghost times: Seq<int> = Seq::empty();
    if current == WorkerState::Terminated {
        return Served { state: current, executed, discarded };
    }
    loop
        invariant_except_break
            current is Waiting,
        invariant
            state is Waiting,
            queue.write_ends() == old(queue).write_ends(),
            queue.has_read_end() == old(queue).has_read_end(),
            initial == old(queue)@,
            initial.len() == total,
            queue@.len() <= initial.len(),
            queue@ == initial.skip(initial.len() - queue@.len()),
            times.len() == initial.len() - queue@.len(),
            forall|i: int| 0 <= i < times.len() ==> is_clock_reading(#[trigger] times[i]),
            executed == fresh_in(initial.take(times.len() as int), times),
            executed + discarded == times.len(),
            forall|i: int|
                0 <= i < times.len() && !(#[trigger] initial[i]).expired_at(times[i])
                    ==> call_ensures(initial[i].payload(), (), ()),
            forall|i: int|
                0 <= i < initial.len() ==> call_requires((#[trigger] initial[i]).payload(), ()),
        ensures
            queue@.len() == 0,
            current == if queue.write_ends() == 0 {
                WorkerState::Terminated
            } else {
                WorkerState::Waiting
            },
        decreases queue@.len(),
    {
        let ghost done = initial.len() - queue@.len();
        match queue.dequeue() {
            Dequeued::Task(task) => {
                proof {
                    assert(initial.take(done + 1).drop_last() =~= initial.take(done));
                }
                let (next, action) = step(current, Event::Task(task));
                proof {
                    let now = choose|now: int| #[trigger]
                        is_clock_reading(now) && (next, action) == transition(
                            current,
                            Event::Task(task),
                            now,
                        );
                    assert(times.push(now).drop_last() =~= times);
                    times = times.push(now);
                }
                match action {
                    Action::Run(fresh) => {
                        fresh.run();
                        let (after, _) = step::<F>(next, Event::Finished);
                        current = after;
                        executed = executed + 1;
                    },
                    Action::Dequeue => {
                        current = next;
                        discarded = discarded + 1;
                    },
                    Action::Stop => {
                        current = next;
                    },
                }
            },
            Dequeued::Empty => {
                break ;
            },
            Dequeued::EndOfStream => {
                let (next, _) = step::<F>(current, Event::EndOfStream);
                current = next;
                break ;
            },
        }
    }
    let served = Served { state: current, executed, discarded };
    proof {
        assert(initial.take(initial.len() as int) =~= initial);
        lemma_fresh_in_bounds(initial, times);
        lemma_expiring_in_bounds(initial);
        assert(served_at(initial, times, served));
    }
    served
}

/// A task whose deadline lies before the time at which it comes out of the
/// queue is never run, whatever state the worker is in.
pub proof fn lemma_expired_task_never_runs<F: FnOnce()>(
    state: WorkerState,
    task: Task<F>,
    now: int,
)
    requires
        task.deadline() matches Some(deadline) && deadline < now,
    ensures
        !(transition(state, Event::Task(task), now).1 is Run),
        transition(WorkerState::Waiting, Event::Task(task), now) == (
            WorkerState::Waiting,
            Action::<F>::Dequeue,
        ),
{
}

/// A waiting worker runs the task that comes out of the queue if it has not
/// expired by then, and so every task without a deadline.
pub proof fn lemma_fresh_task_runs<F: FnOnce()>(task: Task<F>, now: int)
    requires
        !task.expired_at(now),
    ensures
        transition(WorkerState::Waiting, Event::Task(task), now) == (
            WorkerState::Executing,
            Action::Run(task),
        ),
{
}

/// The worker runs nothing but the task that the queue has just handed to it
/// while it was waiting: no task is run twice, and none that was not taken
/// out of the queue.
pub proof fn lemma_runs_only_what_came_out<F: FnOnce()>(
    state: WorkerState,
    event: Event<F>,
    now: int,
)
    ensures
        transition(state, event, now).1 matches Action::Run(task) ==> state is Waiting && event
            == Event::Task(task) && !task.expired_at(now),
{
}

/// A terminated worker stays terminated and runs nothing, whatever happens.
pub proof fn lemma_terminated_is_final<F: FnOnce()>(event: Event<F>, now: int)
    ensures
        transition(WorkerState::Terminated, event, now) == (
            WorkerState::Terminated,
            Action::<F>::Stop,
        ),
{
}

} // verus!
