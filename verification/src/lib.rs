//! A to-do list: short text tasks kept in insertion order, each either
//! pending or done, addressed by their zero-based position.

pub mod command;
pub mod laws;
pub mod task;
pub mod todo_list;

pub use command::{Command, CommandView, Reply, ReplyView};
pub use task::{Task, TaskView};
pub use todo_list::{IndexOutOfRange, LoadError, TodoList};
