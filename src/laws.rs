//! Properties of the store that relate several operations.

use vstd::prelude::*;

use crate::store::{has_identifier, identifiers_distinct, tasks_wf, toggle_in};
use crate::task::Task;

verus! {

/// `tasks` toggled once at each time of `nows`, in that order, every toggle
/// aimed at the identifier `id`.
pub open spec fn toggle_each(tasks: Seq<Task>, id: Seq<char>, nows: Seq<i64>) -> Seq<Task>
    decreases nows.len(),
{
    if nows.len() == 0 {
        tasks
    } else {
        toggle_in(toggle_each(tasks, id, nows.drop_last()), id, nows.last())
    }
}

/// Tasks created one after another, each with an identifier that no earlier
/// one carries (as `create` guarantees against the tasks already held), have
/// pairwise distinct identifiers.
pub proof fn creations_yield_distinct_identifiers(created: Seq<Task>)
    requires
        forall|k: int|
            0 <= k < created.len() ==> !has_identifier(
                #[trigger] created.take(k),
                created[k].identifier@,
            ),
    ensures
        identifiers_distinct(created),
{
    assert forall|i: int, j: int|
        0 <= i < created.len() && 0 <= j < created.len() && i != j implies (#[trigger] created[i]).identifier@
        != (#[trigger] created[j]).identifier@ by {
        if i < j {
            assert(created.take(j)[i] == created[i]);
            assert(!has_identifier(created.take(j), created[j].identifier@));
        } else {
            assert(created.take(i)[j] == created[j]);
            assert(!has_identifier(created.take(i), created[i].identifier@));
        }
    }
}

/// Toggling a task twice gives back its completion flag; an open task comes
/// back exactly as it was, with no completion time.
pub proof fn toggle_twice_restores(t: Task, first: i64, second: i64)
    requires
        t.wf(),
    ensures
        t.toggled_spec(first).toggled_spec(second).completed == t.completed,
        !t.completed ==> t.toggled_spec(first).toggled_spec(second) == t,
        !t.completed ==> t.toggled_spec(first).toggled_spec(second).completed_at is None,
{
}

/// In a store, toggling the same identifier twice gives every task back its
/// completion flag; open tasks come back exactly as they were.
pub proof fn store_toggle_twice_restores(tasks: Seq<Task>, id: Seq<char>, first: i64, second: i64)
    requires
        tasks_wf(tasks),
    ensures
        toggle_in(toggle_in(tasks, id, first), id, second).len() == tasks.len(),
        forall|i: int|
            0 <= i < tasks.len() ==> (#[trigger] toggle_in(toggle_in(tasks, id, first), id, second)[i]).completed
                == tasks[i].completed,
        forall|i: int|
            0 <= i < tasks.len() && !tasks[i].completed ==> #[trigger] toggle_in(
                toggle_in(tasks, id, first),
                id,
                second,
            )[i] == tasks[i],
{
    let once = toggle_in(tasks, id, first);
    assert forall|i: int| 0 <= i < tasks.len() implies #[trigger] toggle_in(once, id, second)[i]
        == (if tasks[i].identifier@ == id {
        tasks[i].toggled_spec(first).toggled_spec(second)
    } else {
        tasks[i]
    }) by {
        assert(once[i].identifier@ == tasks[i].identifier@);
        assert(tasks[i].wf());
        toggle_twice_restores(tasks[i], first, second);
    }
    assert forall|i: int| 0 <= i < tasks.len() implies (#[trigger] toggle_in(once, id, second)[i]).completed
        == tasks[i].completed by {
        assert(tasks[i].wf());
        toggle_twice_restores(tasks[i], first, second);
    }
}

/// After a task is recorded with an identifier that was not held, exactly one
/// task carries that identifier, and it is the task recorded.
pub proof fn read_your_write(before: Seq<Task>, t: Task)
    requires
        tasks_wf(before),
        !has_identifier(before, t.identifier@),
    ensures
        before.push(t)[before.len() as int] == t,
        forall|i: int|
            0 <= i < before.len() + 1 ==> ((#[trigger] before.push(t)[i]).identifier@
                == t.identifier@ <==> i == before.len()),
{
    assert forall|i: int| 0 <= i < before.len() + 1 implies ((#[trigger] before.push(t)[i]).identifier@
        == t.identifier@ <==> i == before.len()) by {
        if i < before.len() {
            assert(before.push(t)[i] == before[i]);
        }
    }
}

/// Any number of toggles applied one at a time to the same identifier leave
/// the task that carries it completed exactly when its flag started false and
/// the count is odd, or started true and the count is even; no toggle is lost,
/// a consistent task stays consistent (so it has a completion time exactly
/// when it ends completed), and every other task stays as it was.
pub proof fn toggles_apply_by_parity(tasks: Seq<Task>, id: Seq<char>, nows: Seq<i64>)
    ensures
        toggle_each(tasks, id, nows).len() == tasks.len(),
        forall|i: int|
            0 <= i < tasks.len() && tasks[i].identifier@ == id ==> (#[trigger] toggle_each(
                tasks,
                id,
                nows,
            )[i]).completed == (tasks[i].completed != (nows.len() % 2 == 1)),
        forall|i: int|
            0 <= i < tasks.len() && tasks[i].identifier@ != id ==> #[trigger] toggle_each(
                tasks,
                id,
                nows,
            )[i] == tasks[i],
        forall|i: int|
            0 <= i < tasks.len() ==> (#[trigger] toggle_each(tasks, id, nows)[i]).identifier
                == tasks[i].identifier,
        forall|i: int|
            0 <= i < tasks.len() && tasks[i].wf() ==> (#[trigger] toggle_each(
                tasks,
                id,
                nows,
            )[i]).wf(),
    decreases nows.len(),
{
    if nows.len() > 0 {
        toggles_apply_by_parity(tasks, id, nows.drop_last());
    }
}

/// Toggles applied one at a time to the same identifier answer in turn: after
/// the `j`-th of them (counting from one) the task that carries it has its flag
/// flipped exactly when `j` is odd, so answers alternate and none repeats.
pub proof fn toggle_answers_alternate(tasks: Seq<Task>, id: Seq<char>, nows: Seq<i64>, i: int)
    requires
        0 <= i < tasks.len(),
        tasks[i].identifier@ == id,
    ensures
        forall|j: int|
            1 <= j <= nows.len() ==> (#[trigger] toggle_each(tasks, id, nows.take(j))[i]).completed
                == (tasks[i].completed != (j % 2 == 1)),
{
    assert forall|j: int| 1 <= j <= nows.len() implies (#[trigger] toggle_each(
        tasks,
        id,
        nows.take(j),
    )[i]).completed == (tasks[i].completed != (j % 2 == 1)) by {
        toggles_apply_by_parity(tasks, id, nows.take(j));
    }
}

/// A task recorded at position `i` stays there, as it is, when another task is
/// recorded after it.
pub proof fn recorded_task_survives_create(tasks: Seq<Task>, i: int, new: Task)
    requires
        0 <= i < tasks.len(),
    ensures
        tasks.push(new)[i] == tasks[i],
{
}

/// A task recorded at position `i` stays there through a toggle: its
/// identifier, title and creation time are kept, and a toggle aimed at another
/// identifier leaves it as it is.
pub proof fn recorded_task_survives_toggle(tasks: Seq<Task>, i: int, id: Seq<char>, now: i64)
    requires
        0 <= i < tasks.len(),
    ensures
        toggle_in(tasks, id, now).len() == tasks.len(),
        toggle_in(tasks, id, now)[i].identifier == tasks[i].identifier,
        toggle_in(tasks, id, now)[i].title == tasks[i].title,
        toggle_in(tasks, id, now)[i].created_at == tasks[i].created_at,
        tasks[i].identifier@ != id ==> toggle_in(tasks, id, now)[i] == tasks[i],
{
}

/// In a consistent store, the task at position `i` is the only one that
/// carries its identifier.
pub proof fn only_task_with_its_identifier(tasks: Seq<Task>, i: int)
    requires
        tasks_wf(tasks),
        0 <= i < tasks.len(),
    ensures
        forall|j: int|
            0 <= j < tasks.len() ==> ((#[trigger] tasks[j]).identifier@ == tasks[i].identifier@
                <==> j == i),
{
}

} // verus!
