//! A single to-do item.

use vstd::prelude::*;

verus! {

/// What a task is, mathematically: its text and whether it has been completed.
pub struct TaskView {
    pub description: Seq<char>,
    pub done: bool,
}

impl TaskView {
    /// A task that has just been created: the given text, not yet done.
    pub open spec fn fresh(description: Seq<char>) -> TaskView {
        TaskView { description, done: false }
    }

    /// The same task with its completion flag set to `done`.
    pub open spec fn with_done(self, done: bool) -> TaskView {
        TaskView { description: self.description, done }
    }

    /// The same task with its text replaced by `description`.
    pub open spec fn with_description(self, description: Seq<char>) -> TaskView {
        TaskView { description, done: self.done }
    }
}

/// `Task` represents a single task in the to-do list with its status.
#[derive(Debug)]
pub struct Task {
    pub task: String,
    pub done: bool,
}

impl View for Task {
    type V = TaskView;

    open spec fn view(&self) -> TaskView {
        TaskView { description: self.task@, done: self.done }
    }
}

impl DeepView for Task {
    type V = TaskView;

    open spec fn deep_view(&self) -> TaskView {
        self@
    }
}

impl Clone for Task {
    fn clone(&self) -> (copy: Task)
        ensures
            copy@ == self@,
    {
        Task { task: self.task.clone(), done: self.done }
    }
}

impl Task {
    /// Creates a new `Task` with the given activity name, not done.
    pub fn new(activity: String) -> (task: Task)
        ensures
            task@ == TaskView::fresh(activity@),
    {
        Task { task: activity, done: false }
    }

    /// Marks the task as done. The text is untouched.
    pub fn mark_done(&mut self)
        ensures
            final(self)@ == old(self)@.with_done(true),
    {
        self.done = true;
    }

    /// Marks the task as not done. The text is untouched.
    pub fn mark_undone(&mut self)
        ensures
            final(self)@ == old(self)@.with_done(false),
    {
        self.done = false;
    }

    /// Replaces the activity name of the task. The completion flag is untouched.
    pub fn edit_activity_name(&mut self, new_name: String)
        ensures
            final(self)@ == old(self)@.with_description(new_name@),
    {
        self.task = new_name;
    }
}

} // verus!
