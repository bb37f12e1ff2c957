//! The life cycle of a task: which operation is allowed in which state, what
//! it leaves behind, and the pass that melts the iced tasks whose thaw date
//! has come.

use crate::date::Date;
use crate::error::{Error, Operation};
use crate::models::{views, Task, TaskState, TaskView};
use vstd::prelude::*;

verus! {

/// The states from which an operation is allowed.
pub open spec fn allows(op: Operation, state: TaskState) -> bool {
    match op {
        Operation::Warm => state == TaskState::Melting || state == TaskState::Iced,
        Operation::Burn => state == TaskState::Melted || state == TaskState::Iced,
        Operation::Cool => state == TaskState::Evaporated,
        Operation::Freeze => true,
    }
}

/// The error that names a task, its state and the operation that the state
/// does not allow.
pub open spec fn refusal(op: Operation, task: TaskView) -> Error {
    Error::InvalidTransition { id: task.id, state: task.state, operation: op }
}

/// A task after it was warmed: melted, and without a thaw date.
pub open spec fn warmed(task: TaskView) -> TaskView {
    TaskView { state: TaskState::Melted, thaw_date: None, ..task }
}

/// A task after it was burned: evaporated, and otherwise as before.
pub open spec fn burned(task: TaskView) -> TaskView {
    TaskView { state: TaskState::Evaporated, ..task }
}

/// A task after it was cooled: melted again, and without a thaw date.
pub open spec fn cooled(task: TaskView) -> TaskView {
    TaskView { state: TaskState::Melted, thaw_date: None, ..task }
}

/// A task after it was frozen until the day `until`.
pub open spec fn frozen(task: TaskView, until: int) -> TaskView {
    TaskView { state: TaskState::Iced, thaw_date: Some(until), ..task }
}

/// Whether a task is iced and its thaw date has come on the day `today`.
pub open spec fn is_due(task: TaskView, today: int) -> bool {
    task.state == TaskState::Iced && task.thaw_date is Some && task.thaw_date->0 <= today
}

/// A task after the pass of the day `today`: melting if it was due, and
/// untouched if not. A task that starts to melt keeps its thaw date.
pub open spec fn melt(task: TaskView, today: int) -> TaskView {
    if is_due(task, today) {
        TaskView { state: TaskState::Melting, ..task }
    } else {
        task
    }
}

/// A collection after the pass of the day `today`.
pub open spec fn sweep(tasks: Seq<TaskView>, today: int) -> Seq<TaskView> {
    tasks.map_values(|t: TaskView| melt(t, today))
}

/// How many tasks of a collection are due on the day `today`.
pub open spec fn due_count(tasks: Seq<TaskView>, today: int) -> nat
    decreases tasks.len(),
{
    if tasks.len() == 0 {
        0
    } else {
        due_count(tasks.drop_last(), today) + if is_due(tasks.last(), today) {
            1nat
        } else {
            0nat
        }
    }
}

/// The sweep: melts every iced task whose thaw date is `today` or earlier,
/// and returns how many there were. No other task is touched, and a task
/// that starts to melt keeps its thaw date.
pub fn auto_warm(tasks: &mut [Task], today: Date) -> (count: usize)
    ensures
        views(final(tasks)@) == sweep(views(old(tasks)@), today@),
        count == due_count(views(old(tasks)@), today@),
        forall|i: int|
            0 <= i < old(tasks)@.len() && !is_due(#[trigger] old(tasks)@[i]@, today@)
                ==> final(tasks)@[i] == old(tasks)@[i],
{
    let n: usize = tasks.len();
    let mut count: usize = 0;
    let mut i: usize = 0;
    while i < n
        invariant
            i <= n,
            count <= i,
            tasks@.len() == n,
            old(tasks)@.len() == n,
            forall|j: int| 0 <= j < i ==> (#[trigger] tasks@[j])@ == melt(old(tasks)@[j]@, today@),
            forall|j: int|
                0 <= j < i && !is_due(old(tasks)@[j]@, today@) ==> #[trigger] tasks@[j] == old(
                    tasks,
                )@[j],
            forall|j: int| i <= j < n ==> #[trigger] tasks@[j] == old(tasks)@[j],
            count == due_count(views(old(tasks)@.subrange(0, i as int)), today@),
        decreases n - i,
    {
        proof {
            let before = views(old(tasks)@.subrange(0, i as int));
            let after = views(old(tasks)@.subrange(0, i + 1));
            assert(after.drop_last() =~= before);
            assert(after.last() == old(tasks)@[i as int]@);
        }
        let due: bool = match tasks[i].state {
            TaskState::Iced => match tasks[i].thaw_date {
                Some(thaw_date) => today.is_on_or_after(&thaw_date),
                None => false,
            },
            _ => false,
        };
        if due {
            tasks[i].state = TaskState::Melting;
            count = count + 1;
        }
        i = i + 1;
    }
    proof {
        assert(old(tasks)@.subrange(0, n as int) =~= old(tasks)@);
        assert(views(tasks@) =~= sweep(views(old(tasks)@), today@));
    }
    count
}

/// Activates a task: a melting or an iced task becomes melted and loses its
/// thaw date. Any other task is left as it is, and named in the error.
pub fn warm(task: &mut Task) -> (r: Result<(), Error>)
    ensures
        allows(Operation::Warm, old(task).state) ==> r is Ok && final(task)@ == warmed(old(task)@),
        !allows(Operation::Warm, old(task).state) ==> r == Err::<(), Error>(
            refusal(Operation::Warm, old(task)@),
        ) && *final(task) == *old(task),
{
    match task.state {
        TaskState::Melting | TaskState::Iced => {
            task.state = TaskState::Melted;
            task.thaw_date = None;
            Ok(())
        },
        _ => Err(
            Error::InvalidTransition { id: task.id, state: task.state, operation: Operation::Warm },
        ),
    }
}

/// Completes a task: a melted or an iced task evaporates, and nothing else
/// of it changes. Any other task is left as it is, and named in the error.
pub fn burn(task: &mut Task) -> (r: Result<(), Error>)
    ensures
        allows(Operation::Burn, old(task).state) ==> r is Ok && final(task)@ == burned(old(task)@),
        !allows(Operation::Burn, old(task).state) ==> r == Err::<(), Error>(
            refusal(Operation::Burn, old(task)@),
        ) && *final(task) == *old(task),
{
    match task.state {
        TaskState::Melted | TaskState::Iced => {
            task.state = TaskState::Evaporated;
            Ok(())
        },
        _ => Err(
            Error::InvalidTransition { id: task.id, state: task.state, operation: Operation::Burn },
        ),
    }
}

/// Reopens a task: an evaporated task becomes melted and loses its thaw
/// date. Any other task is left as it is, and named in the error.
pub fn cool(task: &mut Task) -> (r: Result<(), Error>)
    ensures
        allows(Operation::Cool, old(task).state) ==> r is Ok && final(task)@ == cooled(old(task)@),
        !allows(Operation::Cool, old(task).state) ==> r == Err::<(), Error>(
            refusal(Operation::Cool, old(task)@),
        ) && *final(task) == *old(task),
{
    match task.state {
        TaskState::Evaporated => {
            task.state = TaskState::Melted;
            task.thaw_date = None;
            Ok(())
        },
        _ => Err(
            Error::InvalidTransition { id: task.id, state: task.state, operation: Operation::Cool },
        ),
    }
}

/// Defers a task: whatever its state, it is iced until `thaw_date`. This
/// never fails.
pub fn freeze(task: &mut Task, thaw_date: Date) -> (r: Result<(), Error>)
    ensures
        r is Ok,
        final(task)@ == frozen(old(task)@, thaw_date@),
{
    task.state = TaskState::Iced;
    task.thaw_date = Some(thaw_date);
    Ok(())
}

/// The pass settles a collection: a second pass on the same day changes
/// nothing and finds nothing due.
pub proof fn sweep_is_idempotent(tasks: Seq<TaskView>, today: int)
    ensures
        sweep(sweep(tasks, today), today) == sweep(tasks, today),
        due_count(sweep(tasks, today), today) == 0,
{
    assert(sweep(sweep(tasks, today), today) =~= sweep(tasks, today));
    lemma_none_due_counts_zero(sweep(tasks, today), today);
}

/// A collection in which no task is due has a due count of zero.
proof fn lemma_none_due_counts_zero(tasks: Seq<TaskView>, today: int)
    requires
        forall|i: int| 0 <= i < tasks.len() ==> !is_due(#[trigger] tasks[i], today),
    ensures
        due_count(tasks, today) == 0,
    decreases tasks.len(),
{
    if tasks.len() > 0 {
        assert(!is_due(tasks[tasks.len() - 1], today));
        lemma_none_due_counts_zero(tasks.drop_last(), today);
    }
}

/// The pass keeps the length and the order of a collection. It changes the
/// tasks that are due, and of those the state alone; every other task comes
/// out as it went in.
pub proof fn sweep_touches_only_due(tasks: Seq<TaskView>, today: int, i: int)
    requires
        0 <= i < tasks.len(),
    ensures
        sweep(tasks, today).len() == tasks.len(),
        !is_due(tasks[i], today) ==> sweep(tasks, today)[i] == tasks[i],
        is_due(tasks[i], today) ==> sweep(tasks, today)[i] == (TaskView {
            state: TaskState::Melting,
            ..tasks[i]
        }),
        sweep(tasks, today)[i] != tasks[i] <==> is_due(tasks[i], today),
{
}

/// The table of the life cycle, pair by pair: warming is for melting and iced
/// tasks, burning for melted and iced ones, cooling for evaporated ones, and
/// freezing for all.
pub proof fn transition_table()
    ensures
        allows(Operation::Warm, TaskState::Iced),
        allows(Operation::Warm, TaskState::Melting),
        !allows(Operation::Warm, TaskState::Melted),
        !allows(Operation::Warm, TaskState::Evaporated),
        allows(Operation::Burn, TaskState::Iced),
        !allows(Operation::Burn, TaskState::Melting),
        allows(Operation::Burn, TaskState::Melted),
        !allows(Operation::Burn, TaskState::Evaporated),
        !allows(Operation::Cool, TaskState::Iced),
        !allows(Operation::Cool, TaskState::Melting),
        !allows(Operation::Cool, TaskState::Melted),
        allows(Operation::Cool, TaskState::Evaporated),
        forall|state: TaskState| allows(Operation::Freeze, state),
{
}

/// What each operation leaves behind: its state and thaw date are fixed by
/// the operation, and nothing else of the task changes.
pub proof fn transition_results(task: TaskView, until: int)
    ensures
        warmed(task).state == TaskState::Melted && warmed(task).thaw_date is None,
        burned(task).state == TaskState::Evaporated && burned(task).thaw_date == task.thaw_date,
        cooled(task).state == TaskState::Melted && cooled(task).thaw_date is None,
        frozen(task, until).state == TaskState::Iced && frozen(task, until).thaw_date == Some(
            until,
        ),
        same_but_phase(task, warmed(task)),
        same_but_phase(task, burned(task)),
        same_but_phase(task, cooled(task)),
        same_but_phase(task, frozen(task, until)),
        same_but_phase(task, melt(task, until)),
{
}

/// Whether two tasks differ at most in state and thaw date.
pub open spec fn same_but_phase(a: TaskView, b: TaskView) -> bool {
    a.id == b.id && a.title == b.title && a.description == b.description && a.due_date
        == b.due_date && a.created_at == b.created_at
}

/// Every operation and the pass leave a well-formed task behind: an iced
/// task always has a thaw date.
pub proof fn operations_keep_well_formed(task: TaskView, day: int)
    ensures
        warmed(task).well_formed(),
        burned(task).well_formed(),
        cooled(task).well_formed(),
        frozen(task, day).well_formed(),
        task.well_formed() ==> melt(task, day).well_formed(),
{
}

} // verus!
