//! The unit of deferred work and its expiration rule.

use crate::clock::is_clock_reading;
use crate::clock::nanos_of;
use crate::clock::span_nanos;
use crate::clock::unix_now;
use std::time::Duration;
use vstd::prelude::*;

verus! {

/// One unit of deferred work: a payload to call once, and an optional
/// deadline fixed when the task is made.
///
/// The deadline is a point in time in nanoseconds relative to the Unix epoch.
/// A task is never changed after it is made; whether it has expired depends
/// only on its deadline and on the time of the check.
pub struct Task<F> {
    /// The deadline, or `None` if the task never expires.
    expires_at: Option<i128>,
    /// The work to do when the task is run.
    func: F,
}

impl<F: FnOnce()> Task<F> {
    /// The deadline of the task, or `None` if it never expires.
    pub closed spec fn deadline(&self) -> Option<int> {
        match self.expires_at {
            Some(t) => Some(t as int),
            None => None,
        }
    }

    /// The payload of the task.
    pub closed spec fn payload(&self) -> F {
        self.func
    }

    /// Whether the task has expired when the time is `now`: it has a deadline,
    /// and `now` is at or past it.
    pub open spec fn expired_at(&self, now: int) -> bool {
        match self.deadline() {
            Some(deadline) => now >= deadline,
            None => false,
        }
    }

    /// Makes a task that expires once `expires_at` has gone by, counted from
    /// the clock's reading during this call.
    pub fn new(expires_at: Duration, func: F) -> (task: Task<F>)
        ensures
            task.payload() == func,
            exists|now: int| #[trigger]
                is_clock_reading(now) && task.deadline() == Some(now + span_nanos(expires_at)),
    {
        let now = unix_now();
        let task = Task::new_at(now, expires_at, func);
        assert(is_clock_reading(now as int) && task.deadline() == Some(
            now as int + span_nanos(expires_at),
        ));
        task
    }

    /// Makes a task that expires once `expires_in` has gone by, counted from
    /// `now`.
    pub fn new_at(now: i128, expires_in: Duration, func: F) -> (task: Task<F>)
        requires
            now + span_nanos(expires_in) <= i128::MAX,
        ensures
            task.payload() == func,
            task.deadline() == Some(now + span_nanos(expires_in)),
    {
        let span = nanos_of(&expires_in) as i128;
        Task { expires_at: Some(now + span), func }
    }

    /// Makes a task that never expires.
    pub fn new_dont_expire(func: F) -> (task: Task<F>)
        ensures
            task.payload() == func,
            task.deadline() is None,
    {
        Task { expires_at: None, func }
    }

    /// The deadline of the task in nanoseconds relative to the Unix epoch, or
    /// `None` if it never expires.
    pub fn expires_at(&self) -> (deadline: Option<i128>)
        ensures
            match deadline {
                Some(t) => self.deadline() == Some(t as int),
                None => self.deadline() is None,
            },
    {
        self.expires_at
    }

    /// Whether the task has expired by the clock's reading during this call.
    /// A task without a deadline has never expired.
    pub fn has_expired(&self) -> (expired: bool)
        ensures
            self.deadline() is None ==> !expired,
            exists|now: int| #[trigger] is_clock_reading(now) && expired == self.expired_at(now),
    {
        let now = unix_now();
        let expired = self.has_expired_at(now);
        assert(is_clock_reading(now as int) && expired == self.expired_at(now as int));
        expired
    }

    /// Whether the task has expired when the time is `now`.
    pub fn has_expired_at(&self, now: i128) -> (expired: bool)
        ensures
            expired == self.expired_at(now as int),
    {
        match self.expires_at {
            Some(deadline) => now >= deadline,
            None => false,
        }
    }

    /// Consumes the task and calls its payload once.
    pub fn run(self)
        requires
            call_requires(self.payload(), ()),
        ensures
            call_ensures(self.payload(), (), ()),
    {
        (self.func)()
    }
}

/// A task without a deadline has not expired, whatever the time.
pub proof fn lemma_never_expires<F: FnOnce()>(task: Task<F>, now: int)
    requires
        task.deadline() is None,
    ensures
        !task.expired_at(now),
{
}

/// A task made at `created` to expire after `span` has not expired at any time
/// before `created + span`, and has expired at that time and at any time after
/// it.
pub proof fn lemma_expires_after_span<F: FnOnce()>(
    task: Task<F>,
    created: int,
    span: nat,
    now: int,
)
    requires
        task.deadline() == Some(created + span),
    ensures
        now < created + span ==> !task.expired_at(now),
        now >= created + span ==> task.expired_at(now),
{
}

/// Once a task has expired it stays expired: a later check never finds it
/// fresh again.
pub proof fn lemma_expiry_is_final<F: FnOnce()>(task: Task<F>, earlier: int, later: int)
    requires
        earlier <= later,
        task.expired_at(earlier),
    ensures
        task.expired_at(later),
{
}

} // verus!
