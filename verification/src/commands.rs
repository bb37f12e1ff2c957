//! What each command does to a collection of tasks.
//!
//! Every command but `add` first melts what is due. Loading the collection,
//! saving it and printing are the caller's part: a command works on the
//! collection it is given and reports what it did and whether to save.

use crate::cli::Commands;
use crate::config::{text_of, Config};
use crate::date::{Date, DAY_MAX};
use crate::error::{Error, Operation};
use crate::models::{day_of, parse_date_spec, resolve, views, Task, TaskState, TaskView};
use crate::state::{
    allows, auto_warm, burn, burned, cool, cooled, due_count, freeze, frozen, refusal, sweep,
    warm, warmed,
};
use crate::storage::{has_free_id, max_id, max_id_is_the_largest, TaskStore};
use vstd::prelude::*;

verus! {

/// The place of the first task with the id `id`, if there is one.
pub open spec fn index_of(tasks: Seq<TaskView>, id: u32) -> Option<int>
    decreases tasks.len(),
{
    if tasks.len() == 0 {
        None
    } else {
        match index_of(tasks.drop_last(), id) {
            Some(i) => Some(i),
            None => if tasks.last().id == id {
                Some(tasks.len() - 1)
            } else {
                None
            },
        }
    }
}

/// `index_of` finds the first task with the id, and finds none only where no
/// task has it.
pub proof fn index_of_is_first(tasks: Seq<TaskView>, id: u32)
    ensures
        match index_of(tasks, id) {
            Some(i) => 0 <= i < tasks.len() && tasks[i].id == id && forall|j: int|
                0 <= j < i ==> (#[trigger] tasks[j]).id != id,
            None => forall|j: int| 0 <= j < tasks.len() ==> (#[trigger] tasks[j]).id != id,
        },
    decreases tasks.len(),
{
    if tasks.len() > 0 {
        index_of_is_first(tasks.drop_last(), id);
        assert forall|j: int| 0 <= j < tasks.len() - 1 implies tasks.drop_last()[j]
            == tasks[j] by {}
        match index_of(tasks.drop_last(), id) {
            Some(i) => {
                assert(tasks.drop_last()[i] == tasks[i]);
                assert forall|j: int| 0 <= j < i implies (#[trigger] tasks[j]).id != id by {
                    assert(tasks.drop_last()[j] == tasks[j]);
                }
            },
            None => {
                assert forall|j: int| 0 <= j < tasks.len() - 1 implies (#[trigger] tasks[j]).id
                    != id by {
                    assert(tasks.drop_last()[j] == tasks[j]);
                }
            },
        }
    }
}

/// The place of the first task with the id `id`.
pub fn find_task(tasks: &[Task], id: u32) -> (r: Option<usize>)
    ensures
        index_of(views(tasks@), id) == match r {
            Some(i) => Some(i as int),
            None => None::<int>,
        },
        r matches Some(i) ==> i < tasks@.len() && tasks@[i as int].id == id,
{
    let mut i: usize = 0;
    while i < tasks.len()
        invariant
            i <= tasks@.len(),
            forall|j: int| 0 <= j < i ==> (#[trigger] tasks@[j]).id != id,
        decreases tasks@.len() - i,
    {
        if tasks[i].id == id {
            proof {
                index_of_is_first(views(tasks@), id);
                assert(views(tasks@)[i as int].id == id);
                assert forall|j: int| 0 <= j < i implies (#[trigger] views(tasks@)[j]).id
                    != id by {
                    assert(tasks@[j].id != id);
                }
            }
            return Some(i);
        }
        i = i + 1;
    }
    proof {
        index_of_is_first(views(tasks@), id);
        if index_of(views(tasks@), id) is Some {
            let k = index_of(views(tasks@), id)->0;
            assert(tasks@[k].id != id);
        }
    }
    None
}

/// What an operation leaves of a task. `until` is the thaw date that a
/// freeze sets; no other operation reads it.
pub open spec fn transition(op: Operation, task: TaskView, until: int) -> TaskView {
    match op {
        Operation::Warm => warmed(task),
        Operation::Burn => burned(task),
        Operation::Cool => cooled(task),
        Operation::Freeze => frozen(task, until),
    }
}

/// A result that names a place, with the place as a number.
pub open spec fn placed(r: Result<usize, Error>) -> Result<int, Error> {
    match r {
        Ok(i) => Ok(i as int),
        Err(e) => Err(e),
    }
}

/// A life-cycle command on the task `id`, on the day `today`: the collection
/// is swept, the first task with the id is looked up, and the operation is
/// applied to it if its state allows. The result is the collection
/// afterwards, and the place of the task or the reason why nothing was done
/// beyond the sweep. `until` is the thaw date that a freeze sets; no other
/// operation reads it.
pub open spec fn operate(
    op: Operation,
    tasks: Seq<TaskView>,
    id: u32,
    today: int,
    until: int,
) -> (Seq<TaskView>, Result<int, Error>) {
    let swept = sweep(tasks, today);
    match index_of(swept, id) {
        None => (swept, Err(Error::TaskNotFound { id })),
        Some(i) => if allows(op, swept[i].state) {
            (swept.update(i, transition(op, swept[i], until)), Ok(i))
        } else {
            (swept, Err(refusal(op, swept[i])))
        },
    }
}

/// Sweeps, looks the task up and applies the operation.
fn run(op: Operation, tasks: &mut Vec<Task>, id: u32, today: Date, until: Date) -> (r: Result<
    usize,
    Error,
>)
    ensures
        views(final(tasks)@) == operate(op, views(old(tasks)@), id, today@, until@).0,
        placed(r) == operate(op, views(old(tasks)@), id, today@, until@).1,
{
    auto_warm(tasks.as_mut_slice(), today);
    let ghost swept = tasks@;
    match find_task(tasks.as_slice(), id) {
        None => Err(Error::TaskNotFound { id }),
        Some(i) => {
            let done = match op {
                Operation::Warm => warm(&mut tasks[i]),
                Operation::Burn => burn(&mut tasks[i]),
                Operation::Cool => cool(&mut tasks[i]),
                Operation::Freeze => freeze(&mut tasks[i], until),
            };
            match done {
                Ok(()) => {
                    proof {
                        assert(views(tasks@) =~= views(swept).update(
                            i as int,
                            transition(op, views(swept)[i as int], until@),
                        ));
                    }
                    Ok(i)
                },
                Err(e) => {
                    proof {
                        assert(tasks@ =~= swept);
                    }
                    Err(e)
                },
            }
        },
    }
}

/// Makes the task `id` ready to be worked on.
pub fn cmd_warm(tasks: &mut Vec<Task>, id: u32, today: Date) -> (r: Result<usize, Error>)
    ensures
        views(final(tasks)@) == operate(Operation::Warm, views(old(tasks)@), id, today@, today@).0,
        placed(r) == operate(Operation::Warm, views(old(tasks)@), id, today@, today@).1,
{
    run(Operation::Warm, tasks, id, today, today)
}

/// Completes the task `id`.
pub fn cmd_burn(tasks: &mut Vec<Task>, id: u32, today: Date) -> (r: Result<usize, Error>)
    ensures
        views(final(tasks)@) == operate(Operation::Burn, views(old(tasks)@), id, today@, today@).0,
        placed(r) == operate(Operation::Burn, views(old(tasks)@), id, today@, today@).1,
{
    run(Operation::Burn, tasks, id, today, today)
}

/// Takes the completion of the task `id` back.
pub fn cmd_cool(tasks: &mut Vec<Task>, id: u32, today: Date) -> (r: Result<usize, Error>)
    ensures
        views(final(tasks)@) == operate(Operation::Cool, views(old(tasks)@), id, today@, today@).0,
        placed(r) == operate(Operation::Cool, views(old(tasks)@), id, today@, today@).1,
{
    run(Operation::Cool, tasks, id, today, today)
}

/// The day until which a freeze lasts: the day that the specification stands
/// for, or, where none is given, `default_days` days after `today`.
pub open spec fn freeze_until(spec: Option<Seq<char>>, today: int, default_days: u32) -> Option<
    int,
> {
    match spec {
        Some(s) => resolve(s, today),
        None => if today + default_days <= DAY_MAX {
            Some(today + default_days)
        } else {
            None
        },
    }
}

/// The freeze command: after the sweep the task is looked up, then the thaw
/// date is worked out, then the task is frozen until that date.
pub open spec fn freeze_outcome(
    tasks: Seq<TaskView>,
    id: u32,
    spec: Option<Seq<char>>,
    today: int,
    default_days: u32,
) -> (Seq<TaskView>, Result<int, Error>) {
    let swept = sweep(tasks, today);
    match index_of(swept, id) {
        None => (swept, Err(Error::TaskNotFound { id })),
        Some(i) => match freeze_until(spec, today, default_days) {
            None => (swept, Err(Error::InvalidDateSpec)),
            Some(until) => (swept.update(i, frozen(swept[i], until)), Ok(i)),
        },
    }
}

/// Puts the task `id` on ice until the day that `spec` stands for, or for
/// `default_days` days where no specification is given.
pub fn cmd_freeze(
    tasks: &mut Vec<Task>,
    id: u32,
    spec: Option<&str>,
    today: Date,
    default_days: u32,
) -> (r: Result<usize, Error>)
    ensures
        views(final(tasks)@) == freeze_outcome(
            views(old(tasks)@),
            id,
            text_of(spec),
            today@,
            default_days,
        ).0,
        placed(r) == freeze_outcome(
            views(old(tasks)@),
            id,
            text_of(spec),
            today@,
            default_days,
        ).1,
{
    auto_warm(tasks.as_mut_slice(), today);
    let ghost swept = tasks@;
    let i: usize = match find_task(tasks.as_slice(), id) {
        Some(i) => i,
        None => {
            return Err(Error::TaskNotFound { id });
        },
    };
    let until: Date = match spec {
        Some(text) => match parse_date_spec(text, today) {
            Ok(date) => date,
            Err(e) => {
                return Err(e);
            },
        },
        None => match today.checked_add_days(default_days as u64) {
            Some(date) => date,
            None => {
                return Err(Error::InvalidDateSpec);
            },
        },
    };
    let _ = freeze(&mut tasks[i], until);
    proof {
        assert(views(tasks@) =~= views(swept).update(
            i as int,
            frozen(views(swept)[i as int], until@),
        ));
    }
    Ok(i)
}

/// What an optional date specification stands for: no date where none is
/// given, and an error where the one given stands for no date.
pub open spec fn optional_date(spec: Option<Seq<char>>, today: int) -> Result<Option<int>, Error> {
    match spec {
        None => Ok(None),
        Some(s) => match resolve(s, today) {
            Some(day) => Ok(Some(day)),
            None => Err(Error::InvalidDateSpec),
        },
    }
}

/// Reads a date specification that may be absent.
fn parse_optional(spec: Option<&str>, today: Date) -> (r: Result<Option<Date>, Error>)
    ensures
        optional_date(text_of(spec), today@) == match r {
            Ok(date) => Ok(day_of(date)),
            Err(e) => Err(e),
        },
{
    match spec {
        None => Ok(None),
        Some(text) => match parse_date_spec(text, today) {
            Ok(date) => Ok(Some(date)),
            Err(e) => Err(e),
        },
    }
}

/// The task that `add` makes: it gets the next id, starts iced if it has a
/// thaw date and melted if not, and is dated `today`.
pub open spec fn new_task(
    tasks: Seq<TaskView>,
    title: Seq<char>,
    description: Option<Seq<char>>,
    thaw: Option<int>,
    due: Option<int>,
    today: int,
) -> TaskView {
    TaskView {
        id: (max_id(tasks) + 1) as u32,
        title,
        description: match description {
            Some(text) => text,
            None => Seq::empty(),
        },
        state: if thaw is Some {
            TaskState::Iced
        } else {
            TaskState::Melted
        },
        thaw_date: thaw,
        due_date: due,
        created_at: today,
    }
}

/// The add command: both dates are worked out, the thaw date first, and the
/// new task is put at the end. Where a date specification stands for no
/// date the collection stays as it is.
pub open spec fn add_outcome(
    tasks: Seq<TaskView>,
    title: Seq<char>,
    description: Option<Seq<char>>,
    thaw_spec: Option<Seq<char>>,
    due_spec: Option<Seq<char>>,
    today: int,
) -> (Seq<TaskView>, Result<u32, Error>) {
    match optional_date(thaw_spec, today) {
        Err(e) => (tasks, Err(e)),
        Ok(thaw) => match optional_date(due_spec, today) {
            Err(e) => (tasks, Err(e)),
            Ok(due) => (
                tasks.push(new_task(tasks, title, description, thaw, due, today)),
                Ok((max_id(tasks) + 1) as u32),
            ),
        },
    }
}

/// Adds a task and returns its id. The collection is not swept.
pub fn cmd_add(
    tasks: &mut Vec<Task>,
    title: &str,
    description: Option<&str>,
    thaw_date_spec: Option<&str>,
    due_date_spec: Option<&str>,
    today: Date,
) -> (r: Result<u32, Error>)
    requires
        has_free_id(views(old(tasks)@)),
    ensures
        views(final(tasks)@) == add_outcome(
            views(old(tasks)@),
            title@,
            text_of(description),
            text_of(thaw_date_spec),
            text_of(due_date_spec),
            today@,
        ).0,
        r == add_outcome(
            views(old(tasks)@),
            title@,
            text_of(description),
            text_of(thaw_date_spec),
            text_of(due_date_spec),
            today@,
        ).1,
        r is Err ==> final(tasks)@ == old(tasks)@,
{
    let id: u32 = TaskStore::next_id(tasks.as_slice());
    let thaw_date: Option<Date> = match parse_optional(thaw_date_spec, today) {
        Ok(date) => date,
        Err(e) => {
            return Err(e);
        },
    };
    let due_date: Option<Date> = match parse_optional(due_date_spec, today) {
        Ok(date) => date,
        Err(e) => {
            return Err(e);
        },
    };
    let state: TaskState = match thaw_date {
        Some(_) => TaskState::Iced,
        None => TaskState::Melted,
    };
    let description: String = match description {
        Some(text) => text.to_owned(),
        None => String::new(),
    };
    let task = Task {
        id,
        title: title.to_owned(),
        description,
        state,
        thaw_date,
        due_date,
        created_at: today,
    };
    tasks.push(task);
    proof {
        assert(views(tasks@) =~= views(old(tasks)@).push(task@));
    }
    Ok(id)
}

/// A task after an edit: each text and date that is given replaces the old
/// one. The state stays.
pub open spec fn edited(
    task: TaskView,
    title: Option<Seq<char>>,
    description: Option<Seq<char>>,
    thaw: Option<int>,
    due: Option<int>,
) -> TaskView {
    TaskView {
        title: match title {
            Some(text) => text,
            None => task.title,
        },
        description: match description {
            Some(text) => text,
            None => task.description,
        },
        thaw_date: if thaw is Some {
            thaw
        } else {
            task.thaw_date
        },
        due_date: if due is Some {
            due
        } else {
            task.due_date
        },
        ..task
    }
}

/// The edit command: after the sweep the task is looked up, then both dates
/// are worked out, the thaw date first, and only then is the task changed.
pub open spec fn edit_outcome(
    tasks: Seq<TaskView>,
    id: u32,
    title: Option<Seq<char>>,
    description: Option<Seq<char>>,
    thaw_spec: Option<Seq<char>>,
    due_spec: Option<Seq<char>>,
    today: int,
) -> (Seq<TaskView>, Result<int, Error>) {
    let swept = sweep(tasks, today);
    match index_of(swept, id) {
        None => (swept, Err(Error::TaskNotFound { id })),
        Some(i) => match optional_date(thaw_spec, today) {
            Err(e) => (swept, Err(e)),
            Ok(thaw) => match optional_date(due_spec, today) {
                Err(e) => (swept, Err(e)),
                Ok(due) => (
                    swept.update(i, edited(swept[i], title, description, thaw, due)),
                    Ok(i),
                ),
            },
        },
    }
}

/// Changes the texts and dates of the task `id` that are given.
pub fn cmd_edit(
    tasks: &mut Vec<Task>,
    id: u32,
    new_title: Option<&str>,
    new_description: Option<&str>,
    new_thaw_date: Option<&str>,
    new_due_date: Option<&str>,
    today: Date,
) -> (r: Result<usize, Error>)
    ensures
        views(final(tasks)@) == edit_outcome(
            views(old(tasks)@),
            id,
            text_of(new_title),
            text_of(new_description),
            text_of(new_thaw_date),
            text_of(new_due_date),
            today@,
        ).0,
        placed(r) == edit_outcome(
            views(old(tasks)@),
            id,
            text_of(new_title),
            text_of(new_description),
            text_of(new_thaw_date),
            text_of(new_due_date),
            today@,
        ).1,
{
    auto_warm(tasks.as_mut_slice(), today);
    let ghost swept = tasks@;
    let i: usize = match find_task(tasks.as_slice(), id) {
        Some(i) => i,
        None => {
            return Err(Error::TaskNotFound { id });
        },
    };
    let thaw_date: Option<Date> = match parse_optional(new_thaw_date, today) {
        Ok(date) => date,
        Err(e) => {
            return Err(e);
        },
    };
    let due_date: Option<Date> = match parse_optional(new_due_date, today) {
        Ok(date) => date,
        Err(e) => {
            return Err(e);
        },
    };
    if let Some(title) = new_title {
        tasks[i].title = title.to_owned();
    }
    if let Some(description) = new_description {
        tasks[i].description = description.to_owned();
    }
    if thaw_date.is_some() {
        tasks[i].thaw_date = thaw_date;
    }
    if due_date.is_some() {
        tasks[i].due_date = due_date;
    }
    proof {
        assert(views(tasks@) =~= views(swept).update(
            i as int,
            edited(
                views(swept)[i as int],
                text_of(new_title),
                text_of(new_description),
                day_of(thaw_date),
                day_of(due_date),
            ),
        ));
    }
    Ok(i)
}

/// The show command: the collection is swept and the task looked up.
pub open spec fn show_outcome(tasks: Seq<TaskView>, id: u32, today: int) -> (
    Seq<TaskView>,
    Result<int, Error>,
) {
    let swept = sweep(tasks, today);
    match index_of(swept, id) {
        None => (swept, Err(Error::TaskNotFound { id })),
        Some(i) => (swept, Ok(i)),
    }
}

/// Sweeps the collection and returns the place of the task `id`.
pub fn cmd_show(tasks: &mut Vec<Task>, id: u32, today: Date) -> (r: Result<usize, Error>)
    ensures
        views(final(tasks)@) == show_outcome(views(old(tasks)@), id, today@).0,
        placed(r) == show_outcome(views(old(tasks)@), id, today@).1,
{
    auto_warm(tasks.as_mut_slice(), today);
    match find_task(tasks.as_slice(), id) {
        Some(i) => Ok(i),
        None => Err(Error::TaskNotFound { id }),
    }
}

/// Whether a list shows a task in the state `state`: every task where all
/// are asked for, else the iced ones where those are asked for, else the
/// melting and the melted ones.
pub open spec fn shown(state: TaskState, iced: bool, all: bool) -> bool {
    if all {
        true
    } else if iced {
        state == TaskState::Iced
    } else {
        state == TaskState::Melting || state == TaskState::Melted
    }
}

/// The places of the tasks that a list shows, in the order of the
/// collection.
pub open spec fn listed(tasks: Seq<TaskView>, iced: bool, all: bool) -> Seq<int>
    decreases tasks.len(),
{
    if tasks.len() == 0 {
        Seq::empty()
    } else if shown(tasks.last().state, iced, all) {
        listed(tasks.drop_last(), iced, all).push(tasks.len() - 1)
    } else {
        listed(tasks.drop_last(), iced, all)
    }
}

/// A list names places of the collection in rising order, each of a task
/// that is shown, and leaves no such task out.
pub proof fn listed_is_exact(tasks: Seq<TaskView>, iced: bool, all: bool)
    ensures
        forall|k: int|
            0 <= k < listed(tasks, iced, all).len() ==> 0 <= (#[trigger] listed(
                tasks,
                iced,
                all,
            )[k]) < tasks.len() && shown(tasks[listed(tasks, iced, all)[k]].state, iced, all),
        forall|j: int, k: int|
            0 <= j < k < listed(tasks, iced, all).len() ==> listed(tasks, iced, all)[j] < listed(
                tasks,
                iced,
                all,
            )[k],
        forall|i: int|
            0 <= i < tasks.len() && shown(tasks[i].state, iced, all) ==> listed(
                tasks,
                iced,
                all,
            ).contains(i),
    decreases tasks.len(),
{
    if tasks.len() > 0 {
        let rest = listed(tasks.drop_last(), iced, all);
        let rows = listed(tasks, iced, all);
        listed_is_exact(tasks.drop_last(), iced, all);
        assert forall|k: int| 0 <= k < rest.len() implies rows[k] == rest[k] && rest[k]
            < tasks.len() - 1 && tasks.drop_last()[rest[k]] == tasks[rest[k]] by {}
        assert forall|i: int|
            0 <= i < tasks.len() && shown(tasks[i].state, iced, all) implies rows.contains(i) by {
            if i < tasks.len() - 1 {
                assert(tasks.drop_last()[i] == tasks[i]);
                assert(rest.contains(i));
                let k = choose|k: int| 0 <= k < rest.len() && rest[k] == i;
                assert(rows[k] == i);
            } else {
                assert(rows[rows.len() - 1] == i);
            }
        }
    }
}

/// The places held in a vector, as numbers.
pub open spec fn places(rows: Seq<usize>) -> Seq<int> {
    rows.map_values(|i: usize| i as int)
}

/// Whether a list shows a task in the state `state`.
pub fn is_shown(state: TaskState, iced: bool, all: bool) -> (r: bool)
    ensures
        r == shown(state, iced, all),
{
    if all {
        true
    } else if iced {
        state == TaskState::Iced
    } else {
        state == TaskState::Melting || state == TaskState::Melted
    }
}

/// Sweeps the collection and returns the places of the tasks to show, in the
/// order of the collection, with the number of tasks that the sweep melted.
pub fn cmd_list(tasks: &mut Vec<Task>, iced: bool, all: bool, today: Date) -> (r: (
    Vec<usize>,
    usize,
))
    ensures
        views(final(tasks)@) == sweep(views(old(tasks)@), today@),
        places(r.0@) == listed(sweep(views(old(tasks)@), today@), iced, all),
        r.1 == due_count(views(old(tasks)@), today@),
{
    let melted: usize = auto_warm(tasks.as_mut_slice(), today);
    let mut rows: Vec<usize> = Vec::new();
    let mut i: usize = 0;
    while i < tasks.len()
        invariant
            i <= tasks@.len(),
            places(rows@) == listed(views(tasks@.subrange(0, i as int)), iced, all),
        decreases tasks@.len() - i,
    {
        proof {
            let before = views(tasks@.subrange(0, i as int));
            let after = views(tasks@.subrange(0, i + 1));
            assert(after.drop_last() =~= before);
            assert(after.last() == tasks@[i as int]@);
        }
        if is_shown(tasks[i].state, iced, all) {
            let ghost earlier = rows@;
            rows.push(i);
            proof {
                assert(places(rows@) =~= places(earlier).push(i as int));
            }
        }
        i = i + 1;
    }
    proof {
        assert(tasks@.subrange(0, tasks@.len() as int) =~= tasks@);
    }
    (rows, melted)
}

/// What a command did.
#[derive(Debug)]
pub enum Outcome {
    /// A task was added under this id.
    Added { id: u32 },
    /// The task at this place was edited.
    Updated { index: usize },
    /// The task at this place is to be shown.
    Shown { index: usize },
    /// The tasks at these places are to be listed, in this order.
    Listed { rows: Vec<usize> },
    /// The task at this place was warmed.
    Warmed { index: usize },
    /// The task at this place was burned.
    Burned { index: usize },
    /// The task at this place was cooled.
    Cooled { index: usize },
    /// The task at this place was frozen.
    Frozen { index: usize },
}

/// What a command did, with places as numbers.
pub enum OutcomeView {
    Added { id: u32 },
    Updated { index: int },
    Shown { index: int },
    Listed { rows: Seq<int> },
    Warmed { index: int },
    Burned { index: int },
    Cooled { index: int },
    Frozen { index: int },
}

impl View for Outcome {
    type V = OutcomeView;

    open spec fn view(&self) -> OutcomeView {
        match *self {
            Outcome::Added { id } => OutcomeView::Added { id },
            Outcome::Updated { index } => OutcomeView::Updated { index: index as int },
            Outcome::Shown { index } => OutcomeView::Shown { index: index as int },
            Outcome::Listed { rows } => OutcomeView::Listed { rows: places(rows@) },
            Outcome::Warmed { index } => OutcomeView::Warmed { index: index as int },
            Outcome::Burned { index } => OutcomeView::Burned { index: index as int },
            Outcome::Cooled { index } => OutcomeView::Cooled { index: index as int },
            Outcome::Frozen { index } => OutcomeView::Frozen { index: index as int },
        }
    }
}

/// The end of a command: what it did or why it did nothing, and whether the
/// collection is to be saved.
#[derive(Debug)]
pub struct Report {
    pub outcome: Result<Outcome, Error>,
    pub save: bool,
}

/// The text of a string that may be absent.
pub open spec fn opt_text(text: Option<String>) -> Option<Seq<char>> {
    match text {
        Some(t) => Some(t@),
        None => None,
    }
}

/// Borrows the text of a string that may be absent.
fn as_text(text: &Option<String>) -> (r: Option<&str>)
    ensures
        text_of(r) == opt_text(*text),
{
    match text {
        Some(t) => Some(t.as_str()),
        None => None,
    }
}

/// What a command leaves behind: the collection, what is reported, and
/// whether the collection is to be saved.
///
/// A list is saved only where its sweep melted a task. A show is saved in
/// any case, since its sweep is kept even where the task is not found. Every
/// other command is saved where it succeeded.
pub open spec fn executed(command: Commands, tasks: Seq<TaskView>, today: int, default_days: u32) -> (
    Seq<TaskView>,
    Result<OutcomeView, Error>,
    bool,
) {
    match command {
        Commands::Add { title, description, thaw_date, due_date } => {
            let o = add_outcome(
                tasks,
                title@,
                opt_text(description),
                opt_text(thaw_date),
                opt_text(due_date),
                today,
            );
            (
                o.0,
                match o.1 {
                    Ok(id) => Ok(OutcomeView::Added { id }),
                    Err(e) => Err(e),
                },
                o.1 is Ok,
            )
        },
        Commands::Edit { id, title, description, thaw_date, due_date } => {
            let o = edit_outcome(
                tasks,
                id,
                opt_text(title),
                opt_text(description),
                opt_text(thaw_date),
                opt_text(due_date),
                today,
            );
            (
                o.0,
                match o.1 {
                    Ok(index) => Ok(OutcomeView::Updated { index }),
                    Err(e) => Err(e),
                },
                o.1 is Ok,
            )
        },
        Commands::Show { id } => {
            let o = show_outcome(tasks, id, today);
            (
                o.0,
                match o.1 {
                    Ok(index) => Ok(OutcomeView::Shown { index }),
                    Err(e) => Err(e),
                },
                true,
            )
        },
        Commands::List { iced, all } => (
            sweep(tasks, today),
            Ok(OutcomeView::Listed { rows: listed(sweep(tasks, today), iced, all) }),
            due_count(tasks, today) > 0,
        ),
        Commands::Warm { id } => {
            let o = operate(Operation::Warm, tasks, id, today, today);
            (
                o.0,
                match o.1 {
                    Ok(index) => Ok(OutcomeView::Warmed { index }),
                    Err(e) => Err(e),
                },
                o.1 is Ok,
            )
        },
        Commands::Burn { id } => {
            let o = operate(Operation::Burn, tasks, id, today, today);
            (
                o.0,
                match o.1 {
                    Ok(index) => Ok(OutcomeView::Burned { index }),
                    Err(e) => Err(e),
                },
                o.1 is Ok,
            )
        },
        Commands::Cool { id } => {
            let o = operate(Operation::Cool, tasks, id, today, today);
            (
                o.0,
                match o.1 {
                    Ok(index) => Ok(OutcomeView::Cooled { index }),
                    Err(e) => Err(e),
                },
                o.1 is Ok,
            )
        },
        Commands::Freeze { id, thaw_date } => {
            let o = freeze_outcome(tasks, id, opt_text(thaw_date), today, default_days);
            (
                o.0,
                match o.1 {
                    Ok(index) => Ok(OutcomeView::Frozen { index }),
                    Err(e) => Err(e),
                },
                o.1 is Ok,
            )
        },
    }
}

/// What is reported, with places as numbers.
pub open spec fn reported(outcome: Result<Outcome, Error>) -> Result<OutcomeView, Error> {
    match outcome {
        Ok(o) => Ok(o@),
        Err(e) => Err(e),
    }
}

/// Carries out one command on the collection, on the day `today`.
pub fn execute(command: &Commands, tasks: &mut Vec<Task>, today: Date, config: &Config) -> (report:
    Report)
    requires
        command is Add ==> has_free_id(views(old(tasks)@)),
    ensures
        views(final(tasks)@) == executed(
            *command,
            views(old(tasks)@),
            today@,
            config.defaults.thaw_days,
        ).0,
        reported(report.outcome) == executed(
            *command,
            views(old(tasks)@),
            today@,
            config.defaults.thaw_days,
        ).1,
        report.save == executed(
            *command,
            views(old(tasks)@),
            today@,
            config.defaults.thaw_days,
        ).2,
{
    match command {
        Commands::Add { title, description, thaw_date, due_date } => {
            match cmd_add(
                tasks,
                title.as_str(),
                as_text(description),
                as_text(thaw_date),
                as_text(due_date),
                today,
            ) {
                Ok(id) => Report { outcome: Ok(Outcome::Added { id }), save: true },
                Err(e) => Report { outcome: Err(e), save: false },
            }
        },
        Commands::Edit { id, title, description, thaw_date, due_date } => {
            match cmd_edit(
                tasks,
                *id,
                as_text(title),
                as_text(description),
                as_text(thaw_date),
                as_text(due_date),
                today,
            ) {
                Ok(index) => Report { outcome: Ok(Outcome::Updated { index }), save: true },
                Err(e) => Report { outcome: Err(e), save: false },
            }
        },
        Commands::Show { id } => {
            match cmd_show(tasks, *id, today) {
                Ok(index) => Report { outcome: Ok(Outcome::Shown { index }), save: true },
                Err(e) => Report { outcome: Err(e), save: true },
            }
        },
        Commands::List { iced, all } => {
            let (rows, melted) = cmd_list(tasks, *iced, *all, today);
            Report { outcome: Ok(Outcome::Listed { rows }), save: melted > 0 }
        },
        Commands::Warm { id } => {
            match cmd_warm(tasks, *id, today) {
                Ok(index) => Report { outcome: Ok(Outcome::Warmed { index }), save: true },
                Err(e) => Report { outcome: Err(e), save: false },
            }
        },
        Commands::Burn { id } => {
            match cmd_burn(tasks, *id, today) {
                Ok(index) => Report { outcome: Ok(Outcome::Burned { index }), save: true },
                Err(e) => Report { outcome: Err(e), save: false },
            }
        },
        Commands::Cool { id } => {
            match cmd_cool(tasks, *id, today) {
                Ok(index) => Report { outcome: Ok(Outcome::Cooled { index }), save: true },
                Err(e) => Report { outcome: Err(e), save: false },
            }
        },
        Commands::Freeze { id, thaw_date } => {
            match cmd_freeze(tasks, *id, as_text(thaw_date), today, config.defaults.thaw_days) {
                Ok(index) => Report { outcome: Ok(Outcome::Frozen { index }), save: true },
                Err(e) => Report { outcome: Err(e), save: false },
            }
        },
    }
}

/// Every command but `add` acts on the swept collection: on a collection
/// that was swept on the same day it leaves and reports what it leaves and
/// reports on the collection as it was before that sweep.
pub proof fn commands_sweep_first(
    command: Commands,
    tasks: Seq<TaskView>,
    today: int,
    default_days: u32,
)
    requires
        command !is Add,
    ensures
        executed(command, sweep(tasks, today), today, default_days).0 == executed(
            command,
            tasks,
            today,
            default_days,
        ).0,
        executed(command, sweep(tasks, today), today, default_days).1 == executed(
            command,
            tasks,
            today,
            default_days,
        ).1,
{
    crate::state::sweep_is_idempotent(tasks, today);
}

/// Whether no two tasks of a collection have the same id.
pub open spec fn unique_ids(tasks: Seq<TaskView>) -> bool {
    forall|i: int, j: int| 0 <= i < j < tasks.len() ==> tasks[i].id != tasks[j].id
}

/// Whether every id of a collection is 1 or more.
pub open spec fn positive_ids(tasks: Seq<TaskView>) -> bool {
    forall|i: int| 0 <= i < tasks.len() ==> (#[trigger] tasks[i]).id >= 1
}

/// Whether every task of a collection is well-formed.
pub open spec fn all_well_formed(tasks: Seq<TaskView>) -> bool {
    forall|i: int| 0 <= i < tasks.len() ==> (#[trigger] tasks[i]).well_formed()
}

/// No command takes a task away or moves one, and none changes the id of a
/// task or the day it was made. Only `add` makes the collection longer, by
/// one task. If the ids were unique they still are, if they were 1 or more
/// they still are, and if every iced task had a thaw date every iced task
/// still has one.
pub proof fn commands_keep_the_collection_sound(
    command: Commands,
    tasks: Seq<TaskView>,
    today: int,
    default_days: u32,
)
    requires
        command is Add ==> has_free_id(tasks),
    ensures
        ({
            let after = executed(command, tasks, today, default_days).0;
            &&& after.len() == tasks.len() || (command is Add && after.len() == tasks.len() + 1)
            &&& forall|i: int|
                0 <= i < tasks.len() ==> (#[trigger] after[i]).id == tasks[i].id
                    && after[i].created_at == tasks[i].created_at
            &&& unique_ids(tasks) ==> unique_ids(after)
            &&& positive_ids(tasks) ==> positive_ids(after)
            &&& all_well_formed(tasks) ==> all_well_formed(after)
        }),
{
    let swept = sweep(tasks, today);
    let after = executed(command, tasks, today, default_days).0;
    max_id_is_the_largest(tasks);
    match command {
        Commands::Add { .. } => {},
        Commands::Edit { id, .. } => {
            index_of_is_first(swept, id);
        },
        Commands::Show { id } => {
            index_of_is_first(swept, id);
        },
        Commands::List { .. } => {},
        Commands::Warm { id } => {
            index_of_is_first(swept, id);
        },
        Commands::Burn { id } => {
            index_of_is_first(swept, id);
        },
        Commands::Cool { id } => {
            index_of_is_first(swept, id);
        },
        Commands::Freeze { id, .. } => {
            index_of_is_first(swept, id);
        },
    }
    assert forall|i: int| 0 <= i < tasks.len() implies (#[trigger] after[i]).id == tasks[i].id
        && after[i].created_at == tasks[i].created_at by {
        assert(swept[i].id == tasks[i].id);
    }
    if unique_ids(tasks) {
        assert forall|i: int, j: int| 0 <= i < j < after.len() implies after[i].id
            != after[j].id by {
            if j < tasks.len() {
                assert(after[i].id == tasks[i].id);
                assert(after[j].id == tasks[j].id);
            } else {
                assert(after[i].id == tasks[i].id);
                assert(tasks[i].id <= max_id(tasks));
            }
        }
    }
    if positive_ids(tasks) {
        assert forall|i: int| 0 <= i < after.len() implies (#[trigger] after[i]).id >= 1 by {
            if i < tasks.len() {
                assert(tasks[i].id >= 1);
            }
        }
    }
    if all_well_formed(tasks) {
        assert forall|i: int| 0 <= i < after.len() implies (#[trigger] after[i]).well_formed() by {
            if i < tasks.len() {
                assert(tasks[i].well_formed());
                assert(swept[i] == crate::state::melt(tasks[i], today));
            }
        }
    }
}

} // verus!
