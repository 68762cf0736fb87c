//! The requests a user can make of a to-do list, and what each of them does.
//!
//! A front end turns its input into a [`Command`], hands it to
//! [`TodoList::execute`], shows the [`Reply`] and, where
//! [`Command::persists`] says so, writes the list back to its store.

use crate::task::TaskView;
use crate::todo_list::{in_range, listing, with_new, with_status, with_text, without, TodoList};
use vstd::prelude::*;

verus! {

/// One request to the list.
#[derive(Debug)]
pub enum Command {
    /// Append a task with this text.
    Add { task: String },
    /// Show every task.
    List,
    /// Show the task at `index`.
    Get { index: usize },
    /// Delete the task at `index`.
    Remove { index: usize },
    /// Set the completion flag of the task at `index`.
    MarkStatus { index: usize, status: bool },
    /// Replace the text of the task at `index`.
    Edit { index: usize, new_name: String },
    /// Anything that is none of the above.
    Unknown,
}

/// What the front end is to tell the user after a command.
#[derive(Debug)]
pub enum Reply {
    /// A task with this text was appended.
    Added { task: String },
    /// The tasks, in order: position, text, completion flag.
    Listed { entries: Vec<(usize, String, bool)> },
    /// The task that was asked for.
    Found { index: usize, task: String, done: bool },
    /// The task was deleted.
    Removed,
    /// The task's completion flag now has this value.
    Marked { done: bool },
    /// The task at `index` now has the text `new_name`.
    Edited { index: usize, new_name: String },
    /// There is no task at the position given.
    InvalidIndex,
    /// The command was not understood.
    InvalidCommand,
    /// Nothing is to be said.
    Silent,
}

/// A command with its texts as sequences of characters.
pub enum CommandView {
    Add { task: Seq<char> },
    List,
    Get { index: usize },
    Remove { index: usize },
    MarkStatus { index: usize, status: bool },
    Edit { index: usize, new_name: Seq<char> },
    Unknown,
}

/// A reply with its texts as sequences of characters.
pub enum ReplyView {
    Added { task: Seq<char> },
    Listed { entries: Seq<(usize, Seq<char>, bool)> },
    Found { index: usize, task: Seq<char>, done: bool },
    Removed,
    Marked { done: bool },
    Edited { index: usize, new_name: Seq<char> },
    InvalidIndex,
    InvalidCommand,
    Silent,
}

impl View for Command {
    type V = CommandView;

    open spec fn view(&self) -> CommandView {
        match *self {
            Command::Add { task } => CommandView::Add { task: task@ },
            Command::List => CommandView::List,
            Command::Get { index } => CommandView::Get { index },
            Command::Remove { index } => CommandView::Remove { index },
            Command::MarkStatus { index, status } => CommandView::MarkStatus { index, status },
            Command::Edit { index, new_name } => CommandView::Edit { index, new_name: new_name@ },
            Command::Unknown => CommandView::Unknown,
        }
    }
}

impl View for Reply {
    type V = ReplyView;

    open spec fn view(&self) -> ReplyView {
        match *self {
            Reply::Added { task } => ReplyView::Added { task: task@ },
            Reply::Listed { entries } => ReplyView::Listed { entries: entries.deep_view() },
            Reply::Found { index, task, done } => ReplyView::Found { index, task: task@, done },
            Reply::Removed => ReplyView::Removed,
            Reply::Marked { done } => ReplyView::Marked { done },
            Reply::Edited { index, new_name } => ReplyView::Edited { index, new_name: new_name@ },
            Reply::InvalidIndex => ReplyView::InvalidIndex,
            Reply::InvalidCommand => ReplyView::InvalidCommand,
            Reply::Silent => ReplyView::Silent,
        }
    }
}

impl CommandView {
    /// Whether the list is written back to its store after this command:
    /// after every command that is there to change the list, whether or not
    /// it found a task to change.
    pub open spec fn persists(self) -> bool {
        self is Add || self is Remove || self is MarkStatus || self is Edit
    }

    /// The list that this command leaves behind when it is given `tasks`.
    pub open spec fn effect(self, tasks: Seq<TaskView>) -> Seq<TaskView> {
        match self {
            CommandView::Add { task } => with_new(tasks, task),
            CommandView::Remove { index } => without(tasks, index as int),
            CommandView::MarkStatus { index, status } => with_status(tasks, index as int, status),
            CommandView::Edit { index, new_name } => with_text(tasks, index as int, new_name),
            CommandView::List | CommandView::Get { .. } | CommandView::Unknown => tasks,
        }
    }

    /// What this command answers when it is given `tasks`.
    pub open spec fn reply(self, tasks: Seq<TaskView>) -> ReplyView {
        match self {
            CommandView::Add { task } => ReplyView::Added { task },
            CommandView::List => ReplyView::Listed { entries: listing(tasks) },
            CommandView::Get { index } => if in_range(tasks, index as int) {
                ReplyView::Found {
                    index,
                    task: tasks[index as int].description,
                    done: tasks[index as int].done,
                }
            } else {
                ReplyView::InvalidIndex
            },
            CommandView::Remove { index } => if in_range(tasks, index as int) {
                ReplyView::Removed
            } else {
                ReplyView::InvalidIndex
            },
            CommandView::MarkStatus { index, status } => if in_range(tasks, index as int) {
                ReplyView::Marked { done: status }
            } else {
                ReplyView::Silent
            },
            CommandView::Edit { index, new_name } => if in_range(tasks, index as int) {
                ReplyView::Edited { index, new_name }
            } else {
                ReplyView::InvalidIndex
            },
            CommandView::Unknown => ReplyView::InvalidCommand,
        }
    }
}

impl Command {
    /// Whether the list is to be written back to its store after this
    /// command.
    pub fn persists(&self) -> (save: bool)
        ensures
            save == self@.persists(),
    {
        match self {
            Command::Add { .. } => true,
            Command::Remove { .. } => true,
            Command::MarkStatus { .. } => true,
            Command::Edit { .. } => true,
            Command::List => false,
            Command::Get { .. } => false,
            Command::Unknown => false,
        }
    }
}

impl TodoList {
    /// Carries out one command: exactly one operation of the list, or none
    /// for a command that was not understood.
    pub fn execute(&mut self, command: Command) -> (reply: Reply)
        ensures
            final(self)@ == command@.effect(old(self)@),
            reply@ == command@.reply(old(self)@),
    {
        match command {
            Command::Add { task } => {
                let shown = task.clone();
                self.add_task(task);
                Reply::Added { task: shown }
            },
            Command::List => Reply::Listed { entries: self.list_tasks() },
            Command::Get { index } => match self.get_task(index) {
                Ok(found) => Reply::Found { index, task: found.task.clone(), done: found.done },
                Err(_) => Reply::InvalidIndex,
            },
            Command::Remove { index } => match self.remove_task(index) {
                Ok(()) => Reply::Removed,
                Err(_) => Reply::InvalidIndex,
            },
            Command::MarkStatus { index, status } => if self.mark_task_status(index, status) {
                Reply::Marked { done: status }
            } else {
                Reply::Silent
            },
            Command::Edit { index, new_name } => {
                let shown = new_name.clone();
                match self.edit_task(index, new_name) {
                    Ok(()) => Reply::Edited { index, new_name: shown },
                    Err(_) => Reply::InvalidIndex,
                }
            },
            Command::Unknown => Reply::InvalidCommand,
        }
    }
}

} // verus!
