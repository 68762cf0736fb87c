//! The ordered collection of tasks and its operations.

use crate::task::{Task, TaskView};
use vstd::prelude::*;

verus! {

/// The error of an operation that was given a position at which the list
/// holds no task: `index` is what was asked for, `len` how many tasks there
/// were.
#[derive(Debug, Clone, Copy, PartialEq, Eq, Structural)]
pub struct IndexOutOfRange {
    pub index: usize,
    pub len: usize,
}

/// Whether `index` names a task of `tasks`.
pub open spec fn in_range(tasks: Seq<TaskView>, index: int) -> bool {
    0 <= index < tasks.len()
}

/// The error with which an operation on `tasks` answers `index`.
pub open spec fn out_of_range(tasks: Seq<TaskView>, index: usize) -> IndexOutOfRange {
    IndexOutOfRange { index, len: tasks.len() as usize }
}

/// How an operation that needs a task at `index` ends: well where `tasks`
/// holds one there, with the error where it does not.
pub open spec fn checked(tasks: Seq<TaskView>, index: usize) -> Result<(), IndexOutOfRange> {
    if in_range(tasks, index as int) {
        Ok(())
    } else {
        Err(out_of_range(tasks, index))
    }
}

/// `tasks` with the completion flag of the task at `index` set to `status`;
/// `tasks` itself where there is no such task.
pub open spec fn with_status(tasks: Seq<TaskView>, index: int, status: bool) -> Seq<TaskView> {
    if in_range(tasks, index) {
        tasks.update(index, tasks[index].with_done(status))
    } else {
        tasks
    }
}

/// `tasks` without the task at `index`, the later ones moved one place
/// down; `tasks` itself where there is no such task.
pub open spec fn without(tasks: Seq<TaskView>, index: int) -> Seq<TaskView> {
    if in_range(tasks, index) {
        tasks.remove(index)
    } else {
        tasks
    }
}

/// `tasks` with the text of the task at `index` replaced by `description`;
/// `tasks` itself where there is no such task.
pub open spec fn with_text(tasks: Seq<TaskView>, index: int, description: Seq<char>) -> Seq<
    TaskView,
> {
    if in_range(tasks, index) {
        tasks.update(index, tasks[index].with_description(description))
    } else {
        tasks
    }
}

/// `tasks` followed by a fresh task with the text `description`.
pub open spec fn with_new(tasks: Seq<TaskView>, description: Seq<char>) -> Seq<TaskView> {
    tasks.push(TaskView::fresh(description))
}

/// What a listing of `tasks` shows: for each task, in order, its position,
/// its text and its completion flag.
pub open spec fn listing(tasks: Seq<TaskView>) -> Seq<(usize, Seq<char>, bool)> {
    Seq::new(tasks.len(), |i: int| (i as usize, tasks[i].description, tasks[i].done))
}

/// Why the stored tasks could not be brought back: the store could not be
/// read, or what it held was not a list of tasks.
#[derive(Debug, Clone, Copy, PartialEq, Eq, Structural)]
pub enum LoadError {
    Io,
    Format,
}

/// `TodoList` contains a list of tasks and provides functionality to manipulate them.
pub struct TodoList {
    pub tasks: Vec<Task>,
}

impl View for TodoList {
    type V = Seq<TaskView>;

    open spec fn view(&self) -> Seq<TaskView> {
        self.tasks.deep_view()
    }
}

impl TodoList {
    /// Creates a `TodoList` from the outcome of an attempt to load the stored
    /// tasks: the loaded list where that succeeded, an empty list where it
    /// failed, for whichever reason.
    pub fn new(loaded: Result<TodoList, LoadError>) -> (list: TodoList)
        ensures
            loaded matches Ok(stored) ==> list == stored,
            loaded is Err ==> list@ == Seq::<TaskView>::empty(),
    {
        match loaded {
            Ok(stored) => stored,
            Err(_) => TodoList { tasks: Vec::new() },
        }
    }

    /// Adds a new task with the given activity name, not done, at the end of
    /// the list.
    pub fn add_task(&mut self, activity: String)
        ensures
            final(self)@ == with_new(old(self)@, activity@),
            final(self)@.len() == old(self)@.len() + 1,
            !final(self)@.last().done,
    {
        let new_task = Task::new(activity);
        self.tasks.push(new_task);
        assert(self@ =~= with_new(old(self)@, activity@));
    }

    /// Lists all tasks in order: the position, the text and the completion
    /// flag of each. The list is not changed.
    pub fn list_tasks(&self) -> (entries: Vec<(usize, String, bool)>)
        ensures
            entries.deep_view() == listing(self@),
    {
        let mut entries: Vec<(usize, String, bool)> = Vec::new();
        let mut index: usize = 0;
        while index < self.tasks.len()
            invariant
                index <= self.tasks.len(),
                entries.len() == index,
                forall|i: int|
                    0 <= i < index ==> (#[trigger] entries@[i]).deep_view() == listing(self@)[i],
            decreases self.tasks.len() - index,
        {
            let task = &self.tasks[index];
            entries.push((index, task.task.clone(), task.done));
            index += 1;
        }
        assert(entries.deep_view() =~= listing(self@));
        entries
    }

    /// Gets the task at `index`, or the error where there is none.
    pub fn get_task(&self, index: usize) -> (found: Result<&Task, IndexOutOfRange>)
        ensures
            match found {
                Ok(task) => {
                    &&& in_range(self@, index as int)
                    &&& *task == self.tasks[index as int]
                    &&& task@ == self@[index as int]
                },
                Err(error) => checked(self@, index) == Err::<(), IndexOutOfRange>(error),
            },
    {
        if index < self.tasks.len() {
            Ok(&self.tasks[index])
        } else {
            Err(IndexOutOfRange { index, len: self.tasks.len() })
        }
    }

    /// Removes the task at `index`; the tasks behind it move one place down.
    /// Where there is no such task the list is left as it is and the error
    /// says so.
    pub fn remove_task(&mut self, index: usize) -> (outcome: Result<(), IndexOutOfRange>)
        ensures
            outcome == checked(old(self)@, index),
            final(self)@ == without(old(self)@, index as int),
    {
        if index < self.tasks.len() {
            self.tasks.remove(index);
            assert(self@ =~= without(old(self)@, index as int));
            Ok(())
        } else {
            Err(IndexOutOfRange { index, len: self.tasks.len() })
        }
    }

    /// Replaces the name of the task at `index` by `new_name`. Where there
    /// is no such task the list is left as it is and the error says so.
    pub fn edit_task(&mut self, index: usize, new_name: String) -> (outcome: Result<
        (),
        IndexOutOfRange,
    >)
        ensures
            outcome == checked(old(self)@, index),
            final(self)@ == with_text(old(self)@, index as int, new_name@),
    {
        if index < self.tasks.len() {
            let task = &mut self.tasks[index];
            task.edit_activity_name(new_name);
            assert(self@ =~= with_text(old(self)@, index as int, new_name@));
            Ok(())
        } else {
            Err(IndexOutOfRange { index, len: self.tasks.len() })
        }
    }

    /// Sets the completion flag of the task at `index` to `status` and
    /// returns `true`. Where there is no such task the list is left as it
    /// is and the result is `false`: no error is raised.
    pub fn mark_task_status(&mut self, index: usize, status: bool) -> (marked: bool)
        ensures
            marked == in_range(old(self)@, index as int),
            final(self)@ == with_status(old(self)@, index as int, status),
    {
        if index < self.tasks.len() {
            let task = &mut self.tasks[index];
            if status {
                task.mark_done();
            } else {
                task.mark_undone();
            }
            assert(self@ =~= with_status(old(self)@, index as int, status));
            true
        } else {
            false
        }
    }
}

} // verus!
