//! The task entity and the rules for creating and toggling one.

use vstd::prelude::*;

use crate::generate::{fresh_identifier, now_millis};

verus! {

/// One to-do item. Times are milliseconds since the Unix epoch.
#[derive(Debug)]
pub struct Task {
    pub identifier: String,
    pub title: String,
    pub completed: bool,
    pub created_at: i64,
    pub completed_at: Option<i64>,
}

/// Why a store operation did not happen.
#[derive(Debug, Clone, Copy, PartialEq, Eq, Structural)]
pub enum StoreError {
    /// No task carries the requested identifier.
    NotFound,
    /// The backing collection could not be reached or refused the operation.
    StorageUnavailable,
    /// No identifier could be found that the store does not already hold.
    DuplicateIdentifier,
}

impl Task {
    /// A task is consistent when it has a completion time exactly when it is
    /// completed, and that time is not before its creation.
    pub open spec fn wf(self) -> bool {
        &&& (self.completed <==> self.completed_at is Some)
        &&& (self.completed_at matches Some(t) ==> self.created_at <= t)
    }

    /// The task that creation records: open, with no completion time.
    pub open spec fn fresh_spec(identifier: String, title: String, now: i64) -> Task {
        Task { identifier, title, completed: false, created_at: now, completed_at: None }
    }

    /// The completion time that a toggle at `now` records: never before the
    /// task's creation, even where the clock has gone back.
    pub open spec fn completion_time(self, now: i64) -> i64 {
        if now < self.created_at {
            self.created_at
        } else {
            now
        }
    }

    /// The task after one toggle at time `now`.
    pub open spec fn toggled_spec(self, now: i64) -> Task {
        Task {
            identifier: self.identifier,
            title: self.title,
            completed: !self.completed,
            created_at: self.created_at,
            completed_at: if self.completed {
                None
            } else {
                Some(self.completion_time(now))
            },
        }
    }

    /// `after` is `before` toggled at some time: the same identifier, title
    /// and creation time, the flag flipped, and a completion time present, not
    /// before creation, exactly when the new flag is set.
    pub open spec fn is_toggle_of(after: Task, before: Task) -> bool {
        exists|now: i64| after == before.toggled_spec(now)
    }

    /// A new open task with the given identifier and title, created at `now`.
    pub fn new_at(identifier: String, title: String, now: i64) -> (r: Task)
        ensures
            r == Task::fresh_spec(identifier, title, now),
            r.wf(),
    {
        Task { identifier, title, completed: false, created_at: now, completed_at: None }
    }

    /// A new open task with the given title, a fresh random identifier, and
    /// the current time as its creation time.
    pub fn create(title: String) -> (r: Task)
        ensures
            r.title == title,
            r.identifier@.len() == 36,
            !r.completed,
            r.completed_at is None,
            r.created_at >= 0,
            r.wf(),
    {
        let identifier = fresh_identifier();
        let now = now_millis();
        Task::new_at(identifier, title, now)
    }

    /// A task with the same field values as this one.
    pub fn copy(&self) -> (r: Task)
        ensures
            r == *self,
    {
        Task {
            identifier: self.identifier.clone(),
            title: self.title.clone(),
            completed: self.completed,
            created_at: self.created_at,
            completed_at: self.completed_at,
        }
    }

    /// Flips the completion flag as of time `now`: completing records the
    /// completion time, reopening clears it.
    pub fn toggle_at(&mut self, now: i64)
        ensures
            *final(self) == old(self).toggled_spec(now),
            old(self).wf() ==> final(self).wf(),
    {
        if self.completed {
            self.completed = false;
            self.completed_at = None;
        } else {
            self.completed = true;
            self.completed_at = Some(if now < self.created_at { self.created_at } else { now });
        }
    }

    /// The toggled state at time `now`; `self` stays as it is.
    pub fn toggled_at(&self, now: i64) -> (r: Task)
        ensures
            r == self.toggled_spec(now),
            self.wf() ==> r.wf(),
    {
        let mut r = self.copy();
        r.toggle_at(now);
        r
    }

    /// The toggled state at the current time; `self` stays as it is.
    pub fn toggled(&self) -> (r: Task)
        ensures
            Task::is_toggle_of(r, *self),
            r.completed == !self.completed,
            self.wf() ==> r.wf(),
    {
        let now = now_millis();
        self.toggled_at(now)
    }
}

} // verus!
