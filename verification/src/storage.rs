//! The store of tasks: where it lies, and which id the next task gets.
//!
//! Reading and writing the file is the caller's part.

use crate::config::{has_tilde_backslash, text_of, tilde_expansion, Config};
use crate::error::Error;
use crate::models::{views, Task, TaskView};
use vstd::prelude::*;

verus! {

/// A store of tasks in one file.
#[derive(Debug)]
pub struct TaskStore {
    path: String,
}

impl View for TaskStore {
    type V = Seq<char>;

    closed spec fn view(&self) -> Seq<char> {
        self.path@
    }
}

/// The largest id in a collection; 0 for an empty one.
pub open spec fn max_id(tasks: Seq<TaskView>) -> nat
    decreases tasks.len(),
{
    if tasks.len() == 0 {
        0
    } else if tasks.last().id > max_id(tasks.drop_last()) {
        tasks.last().id as nat
    } else {
        max_id(tasks.drop_last())
    }
}

/// Whether an id above every id of the collection exists.
pub open spec fn has_free_id(tasks: Seq<TaskView>) -> bool {
    forall|i: int| 0 <= i < tasks.len() ==> (#[trigger] tasks[i]).id < u32::MAX
}

/// The largest id of a collection is above no id of the collection, and it
/// is the id of one of its tasks unless it is 0.
pub proof fn max_id_is_the_largest(tasks: Seq<TaskView>)
    ensures
        forall|i: int| 0 <= i < tasks.len() ==> (#[trigger] tasks[i]).id <= max_id(tasks),
        max_id(tasks) == 0 || exists|i: int|
            0 <= i < tasks.len() && (#[trigger] tasks[i]).id == max_id(tasks),
    decreases tasks.len(),
{
    if tasks.len() > 0 {
        let rest = tasks.drop_last();
        max_id_is_the_largest(rest);
        assert forall|i: int| 0 <= i < tasks.len() implies (#[trigger] tasks[i]).id <= max_id(
            tasks,
        ) by {
            if i < tasks.len() - 1 {
                assert(rest[i] == tasks[i]);
            }
        }
        if max_id(tasks) != 0 {
            if tasks.last().id > max_id(rest) {
                assert(tasks[tasks.len() - 1].id == max_id(tasks));
            } else {
                let i = choose|i: int| 0 <= i < rest.len() && (#[trigger] rest[i]).id == max_id(rest);
                assert(tasks[i].id == max_id(tasks));
            }
        }
    }
}

impl TaskStore {
    /// The store that the settings name.
    pub fn from_config(config: &Config, home: Option<&str>) -> (r: Result<TaskStore, Error>)
        ensures
            config.storage.data_file is Some || home is Some ==> r is Ok,
            config.storage.data_file is None && home is None ==> r is Err && r->Err_0
                == Error::NoHomeDirectory,
            config.storage.data_file matches Some(file) ==> (!has_tilde_backslash(file@) ==> r is Ok
                && r->Ok_0@ == tilde_expansion(file@, text_of(home))),
    {
        match config.data_file_path(home) {
            Ok(path) => Ok(TaskStore { path }),
            Err(e) => Err(e),
        }
    }

    /// The store in the file at `path`.
    pub fn new_with_path(path: String) -> (store: TaskStore)
        ensures
            store@ == path@,
    {
        TaskStore { path }
    }

    /// The path of the store's file.
    pub fn path(&self) -> (path: &str)
        ensures
            path@ == self@,
    {
        self.path.as_str()
    }

    /// The id for the next task: one more than the largest id in use, and 1
    /// for an empty collection. So it is above every id in use, and the
    /// smallest such id. The collection must not hold the largest id that
    /// there is.
    pub fn next_id(tasks: &[Task]) -> (id: u32)
        requires
            has_free_id(views(tasks@)),
        ensures
            id == max_id(views(tasks@)) + 1,
            forall|i: int| 0 <= i < tasks@.len() ==> (#[trigger] tasks@[i]).id < id,
            id == 1 || exists|i: int| 0 <= i < tasks@.len() && (#[trigger] tasks@[i]).id + 1 == id,
    {
        let mut max: u32 = 0;
        let mut i: usize = 0;
        while i < tasks.len()
            invariant
                i <= tasks@.len(),
                has_free_id(views(tasks@)),
                forall|j: int| 0 <= j < i ==> (#[trigger] tasks@[j]).id <= max,
                max == 0 || exists|j: int| 0 <= j < i && (#[trigger] tasks@[j]).id == max,
                max == max_id(views(tasks@.subrange(0, i as int))),
            decreases tasks@.len() - i,
        {
            proof {
                let before = views(tasks@.subrange(0, i as int));
                let after = views(tasks@.subrange(0, i + 1));
                assert(after.drop_last() =~= before);
                assert(after.last() == tasks@[i as int]@);
                assert(views(tasks@)[i as int].id < u32::MAX);
            }
            if tasks[i].id > max {
                max = tasks[i].id;
            }
            i = i + 1;
        }
        proof {
            assert(tasks@.subrange(0, tasks@.len() as int) =~= tasks@);
            if max != 0 {
                let j = choose|j: int| 0 <= j < tasks@.len() && (#[trigger] tasks@[j]).id == max;
                assert(tasks@[j].id + 1 == max + 1);
                assert(views(tasks@)[j].id < u32::MAX);
            }
        }
        max + 1
    }
}

} // verus!
