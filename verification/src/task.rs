//! The outcome state machine of a spawned unit of work.
//!
//! A [`ThreadHandle`] identifies one concurrently executing task and its
//! eventual outcome.  The embedding runtime creates the handle at spawn time
//! with [`ThreadHandle::started`], and moves it — exactly once — to
//! [`TaskOutcome::CompletedWithValue`] or
//! [`TaskOutcome::CompletedWithFailure`] when the task ends; a failure is
//! captured here, never re-raised asynchronously into an unrelated thread.
//! [`ThreadHandle::join`] consumes the handle and returns the outcome, so
//! joining twice is unrepresentable.  Waiting for a still-running task is
//! the runtime's job: it parks until [`ThreadHandle::is_finished`] and only
//! then joins.

use crate::errors::Failure;
use vstd::prelude::*;

verus! {

/// Where one spawned task stands.
pub enum TaskOutcome<T> {
    /// The task has not finished.
    Running,
    /// The task finished and produced a value.
    CompletedWithValue(T),
    /// The task terminated abnormally; its failure is captured.
    CompletedWithFailure(Failure),
}

/// A handle to one spawned task, consumed exactly once by `join`.
pub struct ThreadHandle<T> {
    outcome: TaskOutcome<T>,
}

impl<T> ThreadHandle<T> {
    /// The task's outcome, for specifications.
    pub closed spec fn outcome(&self) -> TaskOutcome<T> {
        self.outcome
    }

    /// A handle for a task that has just been spawned and is still running.
    pub fn started() -> (h: ThreadHandle<T>)
        ensures
            h.outcome() is Running,
    {
        ThreadHandle { outcome: TaskOutcome::Running }
    }

    /// Records that the task finished with `value`.  A task completes only
    /// once: the handle must still be running.
    pub fn complete(&mut self, value: T)
        requires
            old(self).outcome() is Running,
        ensures
            final(self).outcome() == TaskOutcome::CompletedWithValue(value),
    {
        self.outcome = TaskOutcome::CompletedWithValue(value);
    }

    /// Records that the task terminated abnormally.  The failure is captured
    /// in the handle rather than dropped or re-raised elsewhere.
    pub fn fail(&mut self, failure: Failure)
        requires
            old(self).outcome() is Running,
        ensures
            final(self).outcome() == TaskOutcome::<T>::CompletedWithFailure(failure),
    {
        self.outcome = TaskOutcome::CompletedWithFailure(failure);
    }

    /// Whether the task has finished, one way or the other.
    pub fn is_finished(&self) -> (b: bool)
        ensures
            b == !(self.outcome() is Running),
    {
        match self.outcome {
            TaskOutcome::Running => false,
            _ => true,
        }
    }

    /// Takes the outcome of a finished task: its value, or the captured
    /// failure.  Joining consumes the handle, so a second join of the same
    /// task does not typecheck; joining a still-running task is excluded by
    /// contract — the runtime parks until `is_finished` first.
    pub fn join(self) -> (r: Result<T, Failure>)
        requires
            !(self.outcome() is Running),
        ensures
            self.outcome() matches TaskOutcome::CompletedWithValue(v) ==> r == Ok::<T, Failure>(v),
            self.outcome() matches TaskOutcome::CompletedWithFailure(f) ==> r == Err::<T, Failure>(
                f,
            ),
    {
        match self.outcome {
            TaskOutcome::Running => vstd::pervasive::unreached(),
            TaskOutcome::CompletedWithValue(v) => Ok(v),
            TaskOutcome::CompletedWithFailure(f) => Err(f),
        }
    }
}

} // verus!
