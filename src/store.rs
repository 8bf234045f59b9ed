//! The volatile task store: an ordered collection in memory, in insertion
//! order, with identifiers kept unique.
//!
//! Every operation takes the store by reference, shared for reads and
//! exclusive for changes, so a caller that shares one store between threads
//! holds it behind a single lock and each operation applies as one step.

use vstd::prelude::*;

use crate::generate::{fresh_identifier, now_millis};
use crate::task::{StoreError, Task};

verus! {

/// How many fresh identifiers `create` draws before it gives up.
pub const IDENTIFIER_ATTEMPTS: u64 = 3;

/// Some task of `tasks` carries the identifier `id`.
pub open spec fn has_identifier(tasks: Seq<Task>, id: Seq<char>) -> bool {
    exists|i: int| 0 <= i < tasks.len() && (#[trigger] tasks[i]).identifier@ == id
}

/// No two tasks of `tasks` share an identifier.
pub open spec fn identifiers_distinct(tasks: Seq<Task>) -> bool {
    forall|i: int, j: int|
        0 <= i < tasks.len() && 0 <= j < tasks.len() && i != j
            ==> (#[trigger] tasks[i]).identifier@ != (#[trigger] tasks[j]).identifier@
}

/// Every task is consistent and identifiers are unique.
pub open spec fn tasks_wf(tasks: Seq<Task>) -> bool {
    &&& forall|i: int| 0 <= i < tasks.len() ==> (#[trigger] tasks[i]).wf()
    &&& identifiers_distinct(tasks)
}

/// `tasks` with every task that carries `id` toggled at time `now`.
pub open spec fn toggle_in(tasks: Seq<Task>, id: Seq<char>, now: i64) -> Seq<Task> {
    tasks.map_values(|t: Task| if t.identifier@ == id { t.toggled_spec(now) } else { t })
}

/// What a toggle of `id` at time `now` does: where a task carries `id`, it is
/// toggled, nothing else changes, and the result is its new state; where none
/// does, nothing changes and the result is `NotFound`.
pub open spec fn toggle_outcome(
    before: Seq<Task>,
    after: Seq<Task>,
    id: Seq<char>,
    now: i64,
    r: Result<Task, StoreError>,
) -> bool {
    if has_identifier(before, id) {
        &&& after == toggle_in(before, id, now)
        &&& exists|i: int|
            0 <= i < before.len() && (#[trigger] before[i]).identifier@ == id && r == Ok::<
                Task,
                StoreError,
            >(after[i])
    } else {
        &&& r == Err::<Task, StoreError>(StoreError::NotFound)
        &&& after == before
    }
}

/// The tasks held in memory, in insertion order. A store made by `new` and
/// changed only through its methods always satisfies `wf`.
pub struct TaskStore {
    tasks: Vec<Task>,
}

impl View for TaskStore {
    type V = Seq<Task>;

    closed spec fn view(&self) -> Seq<Task> {
        self.tasks@
    }
}

impl TaskStore {
    /// Every task is consistent and no two share an identifier.
    pub open spec fn wf(&self) -> bool {
        tasks_wf(self@)
    }

    /// An empty store.
    pub fn new() -> (r: TaskStore)
        ensures
            r@ == Seq::<Task>::empty(),
            r.wf(),
    {
        TaskStore { tasks: Vec::new() }
    }

    /// The number of tasks held.
    pub fn len(&self) -> (r: usize)
        ensures
            r == self@.len(),
    {
        self.tasks.len()
    }

    /// The position of the task that carries `identifier`, by a linear scan.
    pub fn position(&self, identifier: &str) -> (r: Option<usize>)
        ensures
            r is None <==> !has_identifier(self@, identifier@),
            r matches Some(i) ==> i < self@.len() && self@[i as int].identifier@ == identifier@,
    {
        let key = identifier.to_owned();
        let mut i: usize = 0;
        while i < self.tasks.len()
            invariant
                i <= self.tasks@.len(),
                key@ == identifier@,
                forall|k: int| 0 <= k < i ==> (#[trigger] self.tasks@[k]).identifier@ != key@,
            decreases self.tasks@.len() - i,
        {
            if self.tasks[i].identifier == key {
                return Some(i);
            }
            i += 1;
        }
        None
    }

    /// Every task held, copied, in insertion order.
    pub fn list(&self) -> (r: Vec<Task>)
        ensures
            r@ == self@,
    {
        let mut r: Vec<Task> = Vec::new();
        let mut i: usize = 0;
        while i < self.tasks.len()
            invariant
                i <= self.tasks@.len(),
                r@ == self.tasks@.subrange(0, i as int),
            decreases self.tasks@.len() - i,
        {
            r.push(self.tasks[i].copy());
            i += 1;
        }
        proof {
            assert(self.tasks@.subrange(0, self.tasks@.len() as int) =~= self.tasks@);
        }
        r
    }

    /// Records a new open task with the given identifier and title, created at
    /// `now`, after the tasks already held; refuses an identifier that is
    /// already held.
    pub fn insert_new(&mut self, identifier: String, title: String, now: i64) -> (r: Result<
        Task,
        StoreError,
    >)
        requires
            old(self).wf(),
        ensures
            final(self).wf(),
            has_identifier(old(self)@, identifier@) ==> r == Err::<Task, StoreError>(
                StoreError::DuplicateIdentifier,
            ) && final(self)@ == old(self)@,
            !has_identifier(old(self)@, identifier@) ==> r == Ok::<Task, StoreError>(
                Task::fresh_spec(identifier, title, now),
            ) && final(self)@ == old(self)@.push(Task::fresh_spec(identifier, title, now)),
    {
        if self.position(identifier.as_str()).is_some() {
            return Err(StoreError::DuplicateIdentifier);
        }
        let task = Task::new_at(identifier, title, now);
        let copy = task.copy();
        self.tasks.push(task);
        proof {
            let s = self@;
            assert forall|i: int, j: int|
                0 <= i < s.len() && 0 <= j < s.len() && i != j implies (#[trigger] s[i]).identifier@
                != (#[trigger] s[j]).identifier@ by {
                if i == s.len() - 1 {
                    assert(old(self)@[j] == s[j]);
                } else if j == s.len() - 1 {
                    assert(old(self)@[i] == s[i]);
                } else {
                    assert(old(self)@[i] == s[i] && old(self)@[j] == s[j]);
                }
            }
            assert forall|i: int| 0 <= i < s.len() implies (#[trigger] s[i]).wf() by {
                if i < s.len() - 1 {
                    assert(old(self)@[i] == s[i]);
                }
            }
        }
        Ok(copy)
    }

    /// Records a new open task with the given title, a fresh identifier and
    /// the current time, after the tasks already held. On an empty store it
    /// always succeeds. Where every identifier drawn is already held, nothing
    /// changes and the result is `DuplicateIdentifier`.
    pub fn create(&mut self, title: String) -> (r: Result<Task, StoreError>)
        requires
            old(self).wf(),
        ensures
            final(self).wf(),
            old(self)@.len() == 0 ==> r is Ok,
            match r {
                Ok(t) => {
                    &&& final(self)@ == old(self)@.push(t)
                    &&& !has_identifier(old(self)@, t.identifier@)
                    &&& t.identifier@.len() == 36
                    &&& t.title == title
                    &&& !t.completed
                    &&& t.completed_at is None
                    &&& t.created_at >= 0
                },
                Err(e) => e == StoreError::DuplicateIdentifier && final(self)@ == old(self)@,
            },
    {
        let mut attempt: u64 = 0;
        while attempt < IDENTIFIER_ATTEMPTS
            invariant
                self.wf(),
                self@ == old(self)@,
                old(self)@.len() == 0 ==> attempt == 0,
            decreases IDENTIFIER_ATTEMPTS - attempt,
        {
            let identifier = fresh_identifier();
            if self.position(identifier.as_str()).is_none() {
                let now = now_millis();
                return self.insert_new(identifier, title, now);
            }
            attempt += 1;
        }
        Err(StoreError::DuplicateIdentifier)
    }

    /// Toggles the task that carries `identifier` as of time `now` and returns
    /// its new state; `NotFound`, with nothing changed, where no task does.
    pub fn toggle_at(&mut self, identifier: &str, now: i64) -> (r: Result<Task, StoreError>)
        requires
            old(self).wf(),
        ensures
            final(self).wf(),
            toggle_outcome(old(self)@, final(self)@, identifier@, now, r),
            r matches Ok(t) ==> t.wf(),
    {
        match self.position(identifier) {
            None => Err(StoreError::NotFound),
            Some(i) => {
                let t = self.tasks[i].toggled_at(now);
                let copy = t.copy();
                self.tasks.set(i, t);
                proof {
                    let s = self@;
                    let o = old(self)@;
                    assert forall|k: int| 0 <= k < o.len() && k != i implies o[k].identifier@
                        != identifier@ by {
                        assert(o[k].identifier@ != o[i as int].identifier@);
                    }
                    assert(s =~= toggle_in(o, identifier@, now));
                    assert forall|a: int, b: int|
                        0 <= a < s.len() && 0 <= b < s.len() && a != b implies (#[trigger] s[a]).identifier@
                        != (#[trigger] s[b]).identifier@ by {
                        assert(o[a].identifier@ != o[b].identifier@);
                    }
                    assert forall|k: int| 0 <= k < s.len() implies (#[trigger] s[k]).wf() by {
                        assert(o[k].wf());
                    }
                    assert(s[i as int] == copy);
                }
                Ok(copy)
            },
        }
    }

    /// Toggles the task that carries `identifier` as of the current time and
    /// returns its new state; `NotFound`, with nothing changed, where no task
    /// does.
    pub fn toggle(&mut self, identifier: &str) -> (r: Result<Task, StoreError>)
        requires
            old(self).wf(),
        ensures
            final(self).wf(),
            exists|now: i64| #[trigger]
                toggle_outcome(old(self)@, final(self)@, identifier@, now, r),
            r matches Ok(t) ==> t.wf(),
    {
        let now = now_millis();
        self.toggle_at(identifier, now)
    }
}

} // verus!
