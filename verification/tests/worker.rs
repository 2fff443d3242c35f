use std::cell::RefCell;
use std::rc::Rc;
use std::sync::atomic::AtomicUsize;
use std::sync::atomic::Ordering;
use std::sync::Arc;
use std::time::Duration;
use task_queue::clock::unix_now;
use task_queue::worker::drain;
use task_queue::worker::is_expected;
use task_queue::worker::step;
use task_queue::worker::step_at;
use task_queue::worker::Served;
use task_queue::Action;
use task_queue::Dequeued;
use task_queue::Event;
use task_queue::Task;
use task_queue::TaskQueue;
use task_queue::WorkerState;

type Job = Box<dyn FnOnce() + Send>;

type Log = Rc<RefCell<Vec<&'static str>>>;

fn nothing() {}

fn wait_until_past(deadline: i128) {
    while unix_now() <= deadline {
        std::hint::spin_loop();
    }
}

/// A payload that writes `name` into `log` when it runs.
fn noting(log: &Log, name: &'static str) -> Box<dyn FnOnce()> {
    let log = Rc::clone(log);
    Box::new(move || log.borrow_mut().push(name))
}

/// A payload that counts one up when it runs.
fn counting(count: &Arc<AtomicUsize>) -> Job {
    let count = Arc::clone(count);
    Box::new(move || {
        count.fetch_add(1, Ordering::SeqCst);
    })
}

#[test]
fn waiting_worker_runs_a_fresh_task() {
    let task: Task<fn()> = Task::new_at(100, Duration::from_nanos(50), nothing);
    let (state, action) = step_at(WorkerState::Waiting, Event::Task(task), 149);
    assert_eq!(state, WorkerState::Executing);
    match action {
        Action::Run(task) => assert_eq!(task.expires_at(), Some(150)),
        _ => panic!("the task should run"),
    }
}

#[test]
fn waiting_worker_drops_an_expired_task() {
    let task: Task<fn()> = Task::new_at(100, Duration::from_nanos(50), nothing);
    let (state, action) = step_at(WorkerState::Waiting, Event::Task(task), 150);
    assert_eq!(state, WorkerState::Waiting);
    assert!(matches!(action, Action::Dequeue));
    let task: Task<fn()> = Task::new_at(100, Duration::from_nanos(50), nothing);
    let (state, action) = step_at(WorkerState::Waiting, Event::Task(task), 151);
    assert_eq!(state, WorkerState::Waiting);
    assert!(matches!(action, Action::Dequeue));
}

#[test]
fn waiting_worker_always_runs_a_task_without_deadline() {
    for now in [i128::MIN, -1, 0, 1, i128::MAX] {
        let task: Task<fn()> = Task::new_dont_expire(nothing);
        let (state, action) = step_at(WorkerState::Waiting, Event::Task(task), now);
        assert_eq!(state, WorkerState::Executing);
        assert!(matches!(action, Action::Run(_)));
    }
}

#[test]
fn waiting_worker_terminates_at_the_end_of_stream() {
    let (state, action) = step_at::<fn()>(WorkerState::Waiting, Event::EndOfStream, 0);
    assert_eq!(state, WorkerState::Terminated);
    assert!(matches!(action, Action::Stop));
}

#[test]
fn executing_worker_waits_again_when_the_payload_returns() {
    let (state, action) = step_at::<fn()>(WorkerState::Executing, Event::Finished, 0);
    assert_eq!(state, WorkerState::Waiting);
    assert!(matches!(action, Action::Dequeue));
}

#[test]
fn terminated_worker_stays_terminated() {
    let (state, action) = step_at::<fn()>(WorkerState::Terminated, Event::EndOfStream, 0);
    assert_eq!(state, WorkerState::Terminated);
    assert!(matches!(action, Action::Stop));
    let (state, action) = step_at::<fn()>(WorkerState::Terminated, Event::Finished, 0);
    assert_eq!(state, WorkerState::Terminated);
    assert!(matches!(action, Action::Stop));
    let log: Log = Rc::new(RefCell::new(Vec::new()));
    let late = Task::new_dont_expire(noting(&log, "late"));
    let (state, action) = step_at(WorkerState::Terminated, Event::Task(late), 0);
    assert_eq!(state, WorkerState::Terminated);
    assert!(matches!(action, Action::Stop));
    drop(action);
    assert!(log.borrow().is_empty());
}

#[test]
fn events_are_expected_by_state() {
    let task = || Event::Task(Task::new_dont_expire(nothing as fn()));
    assert!(is_expected(WorkerState::Waiting, &task()));
    assert!(is_expected::<fn()>(WorkerState::Waiting, &Event::EndOfStream));
    assert!(!is_expected::<fn()>(WorkerState::Waiting, &Event::Finished));
    assert!(!is_expected(WorkerState::Executing, &task()));
    assert!(!is_expected::<fn()>(WorkerState::Executing, &Event::EndOfStream));
    assert!(is_expected::<fn()>(WorkerState::Executing, &Event::Finished));
    assert!(is_expected(WorkerState::Terminated, &task()));
    assert!(is_expected::<fn()>(WorkerState::Terminated, &Event::EndOfStream));
    assert!(is_expected::<fn()>(WorkerState::Terminated, &Event::Finished));
}

#[test]
fn step_decides_by_the_clock() {
    let far: Task<fn()> = Task::new(Duration::from_secs(3600), nothing);
    let (state, action) = step(WorkerState::Waiting, Event::Task(far));
    assert_eq!(state, WorkerState::Executing);
    assert!(matches!(action, Action::Run(_)));

    let short: Task<fn()> = Task::new(Duration::from_millis(1), nothing);
    wait_until_past(short.expires_at().expect("a deadline") + 1_000_000);
    let (state, action) = step(WorkerState::Waiting, Event::Task(short));
    assert_eq!(state, WorkerState::Waiting);
    assert!(matches!(action, Action::Dequeue));

    let never: Task<fn()> = Task::new_dont_expire(nothing);
    let (state, action) = step(WorkerState::Waiting, Event::Task(never));
    assert_eq!(state, WorkerState::Executing);
    assert!(matches!(action, Action::Run(_)));

    let (state, action) = step::<fn()>(WorkerState::Executing, Event::Finished);
    assert_eq!(state, WorkerState::Waiting);
    assert!(matches!(action, Action::Dequeue));

    let (state, action) = step::<fn()>(WorkerState::Waiting, Event::EndOfStream);
    assert_eq!(state, WorkerState::Terminated);
    assert!(matches!(action, Action::Stop));
}

#[test]
fn expired_task_between_two_lasting_ones_is_skipped() {
    let log: Log = Rc::new(RefCell::new(Vec::new()));
    let mut queue = TaskQueue::new();
    assert!(queue.enqueue(Task::new_dont_expire(noting(&log, "A"))));
    let b = Task::new(Duration::from_millis(0), noting(&log, "B"));
    let b_deadline = b.expires_at().expect("a deadline");
    assert!(queue.enqueue(b));
    assert!(queue.enqueue(Task::new_dont_expire(noting(&log, "C"))));
    wait_until_past(b_deadline + 10_000_000);

    let served = drain(WorkerState::Waiting, &mut queue);
    assert_eq!(*log.borrow(), vec!["A", "C"]);
    assert_eq!(
        served,
        Served { state: WorkerState::Waiting, executed: 2, discarded: 1 }
    );
    assert!(queue.is_empty());
}

#[test]
fn expired_task_between_two_lasting_ones_is_skipped_at_a_given_time() {
    let log: Log = Rc::new(RefCell::new(Vec::new()));
    let mut queue = TaskQueue::new();
    assert!(queue.enqueue(Task::new_dont_expire(noting(&log, "A"))));
    assert!(queue.enqueue(Task::new_at(1_000, Duration::ZERO, noting(&log, "B"))));
    assert!(queue.enqueue(Task::new_dont_expire(noting(&log, "C"))));
    assert!(queue.drop_write_end());

    let dequeued_at: i128 = 1_000 + 10_000_000;
    let mut state = WorkerState::Waiting;
    let mut steps = 0;
    while state != WorkerState::Terminated {
        let event = match queue.dequeue() {
            Dequeued::Task(task) => Event::Task(task),
            Dequeued::EndOfStream => Event::EndOfStream,
            Dequeued::Empty => panic!("no write-end is open"),
        };
        assert!(is_expected(state, &event));
        let (next, action) = step_at(state, event, dequeued_at);
        state = next;
        if let Action::Run(task) = action {
            assert_eq!(state, WorkerState::Executing);
            task.run();
            let (after, _) = step_at::<Box<dyn FnOnce()>>(state, Event::Finished, dequeued_at);
            state = after;
        }
        steps += 1;
    }
    assert_eq!(steps, 4);
    assert_eq!(*log.borrow(), vec!["A", "C"]);
}

#[test]
fn task_that_expired_before_it_came_out_is_never_run() {
    let log: Log = Rc::new(RefCell::new(Vec::new()));
    let mut queue = TaskQueue::new();
    let task = Task::new(Duration::from_millis(2), noting(&log, "stale"));
    let deadline = task.expires_at().expect("a deadline");
    assert!(queue.enqueue(task));
    wait_until_past(deadline);
    let served = drain(WorkerState::Waiting, &mut queue);
    assert!(log.borrow().is_empty());
    assert_eq!(served.executed, 0);
    assert_eq!(served.discarded, 1);
    assert_eq!(served.state, WorkerState::Waiting);
}

#[test]
fn task_behind_a_slow_one_can_expire_in_the_queue() {
    let log: Log = Rc::new(RefCell::new(Vec::new()));
    let mut queue = TaskQueue::new();
    let slow: Box<dyn FnOnce()> = {
        let log = Rc::clone(&log);
        Box::new(move || {
            wait_until_past(unix_now() + 30_000_000);
            log.borrow_mut().push("slow");
        })
    };
    assert!(queue.enqueue(Task::new(Duration::from_secs(3600), slow)));
    assert!(queue.enqueue(Task::new(Duration::from_millis(10), noting(&log, "behind"))));
    let served = drain(WorkerState::Waiting, &mut queue);
    assert_eq!(*log.borrow(), vec!["slow"]);
    assert_eq!(served.executed, 1);
    assert_eq!(served.discarded, 1);
}

#[test]
fn drain_runs_tasks_in_queue_order() {
    let log: Log = Rc::new(RefCell::new(Vec::new()));
    let mut queue = TaskQueue::new();
    for name in ["one", "two", "three", "four"] {
        assert!(queue.enqueue(Task::new(Duration::from_secs(3600), noting(&log, name))));
    }
    let served = drain(WorkerState::Waiting, &mut queue);
    assert_eq!(*log.borrow(), vec!["one", "two", "three", "four"]);
    assert_eq!(served.executed, 4);
    assert_eq!(served.discarded, 0);
}

#[test]
fn drain_terminates_when_no_write_end_is_open() {
    let log: Log = Rc::new(RefCell::new(Vec::new()));
    let mut queue = TaskQueue::new();
    assert!(queue.enqueue(Task::new_dont_expire(noting(&log, "last"))));
    assert!(queue.drop_write_end());
    let served = drain(WorkerState::Waiting, &mut queue);
    assert_eq!(
        served,
        Served { state: WorkerState::Terminated, executed: 1, discarded: 0 }
    );
    assert_eq!(*log.borrow(), vec!["last"]);
    assert!(matches!(queue.dequeue(), Dequeued::EndOfStream));
}

#[test]
fn drain_of_an_empty_queue() {
    let mut queue: TaskQueue<fn()> = TaskQueue::new();
    let served = drain(WorkerState::Waiting, &mut queue);
    assert_eq!(
        served,
        Served { state: WorkerState::Waiting, executed: 0, discarded: 0 }
    );
    assert!(queue.drop_write_end());
    let served = drain(served.state, &mut queue);
    assert_eq!(
        served,
        Served { state: WorkerState::Terminated, executed: 0, discarded: 0 }
    );
}

#[test]
fn terminated_worker_leaves_the_queue_alone() {
    let log: Log = Rc::new(RefCell::new(Vec::new()));
    let mut queue = TaskQueue::new();
    assert!(queue.enqueue(Task::new_dont_expire(noting(&log, "untouched"))));
    let served = drain(WorkerState::Terminated, &mut queue);
    assert_eq!(
        served,
        Served { state: WorkerState::Terminated, executed: 0, discarded: 0 }
    );
    assert_eq!(queue.len(), 1);
    assert!(log.borrow().is_empty());
}

#[test]
fn waiting_worker_can_be_served_again() {
    let log: Log = Rc::new(RefCell::new(Vec::new()));
    let mut queue = TaskQueue::new();
    assert!(queue.enqueue(Task::new_dont_expire(noting(&log, "first"))));
    let served = drain(WorkerState::Waiting, &mut queue);
    assert_eq!(served.state, WorkerState::Waiting);
    assert!(queue.enqueue(Task::new_dont_expire(noting(&log, "second"))));
    assert!(queue.drop_write_end());
    let served = drain(served.state, &mut queue);
    assert_eq!(served.state, WorkerState::Terminated);
    assert_eq!(served.executed, 1);
    assert_eq!(*log.borrow(), vec!["first", "second"]);
}

#[test]
fn every_task_of_every_producer_runs_exactly_once() {
    let producers = 8;
    let per_producer = 250;
    let counts: Vec<Arc<AtomicUsize>> =
        (0..producers * per_producer).map(|_| Arc::new(AtomicUsize::new(0))).collect();
    let mut queue: TaskQueue<Job> = TaskQueue::new();
    for _ in 1..producers {
        assert!(queue.clone_write_end());
    }
    // The producers take turns, one task each.
    for round in 0..per_producer {
        for producer in 0..producers {
            let count = &counts[producer * per_producer + round];
            assert!(queue.enqueue(Task::new_dont_expire(counting(count))));
        }
    }
    for _ in 0..producers {
        assert!(queue.drop_write_end());
    }
    let served = drain(WorkerState::Waiting, &mut queue);
    assert_eq!(served.executed, producers * per_producer);
    assert_eq!(served.discarded, 0);
    assert_eq!(served.state, WorkerState::Terminated);
    for count in &counts {
        assert_eq!(count.load(Ordering::SeqCst), 1);
    }
}
