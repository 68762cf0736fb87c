//! What holds of the list's operations, whatever the list and the arguments.
//!
//! Each statement is made over the functions on sequences of [`TaskView`]
//! in which the contracts of [`crate::TodoList`] are written.

use crate::command::CommandView;
use crate::task::TaskView;
use crate::todo_list::{
    checked, in_range, out_of_range, with_new, with_status, with_text, without, IndexOutOfRange,
};
use vstd::prelude::*;

verus! {

/// `tasks` after one task has been added for each text of `names`, in order.
pub open spec fn with_all_new(tasks: Seq<TaskView>, names: Seq<Seq<char>>) -> Seq<TaskView>
    decreases names.len(),
{
    if names.len() == 0 {
        tasks
    } else {
        with_new(with_all_new(tasks, names.drop_last()), names.last())
    }
}

/// Marking a task done and then not done leaves a task that is not done and
/// has the text it had: a task that was not done is back as it was.
pub proof fn law_mark_round_trip(task: TaskView)
    ensures
        !task.with_done(true).with_done(false).done,
        task.with_done(true).with_done(false).description == task.description,
        !task.done ==> task.with_done(true).with_done(false) == task,
{
}

/// Marking is idempotent, and so is editing: doing either a second time
/// with the same argument changes nothing.
pub proof fn law_task_updates_idempotent(task: TaskView, done: bool, description: Seq<char>)
    ensures
        task.with_done(done).with_done(done) == task.with_done(done),
        task.with_description(description).with_description(description) == task.with_description(
            description,
        ),
{
}

/// Adding a task makes the list longer by exactly one; the new task is the
/// last, has the given text and is not done; the others are as they were.
pub proof fn law_add_appends(tasks: Seq<TaskView>, description: Seq<char>)
    ensures
        with_new(tasks, description).len() == tasks.len() + 1,
        with_new(tasks, description).last() == TaskView::fresh(description),
        !with_new(tasks, description).last().done,
        forall|k: int| 0 <= k < tasks.len() ==> with_new(tasks, description)[k] == tasks[k],
{
}

/// After any number of additions the list is longer by that number: the
/// tasks that were there are where they were, and behind them stand the new
/// ones in the order in which they were added, each with its text and not
/// done.
pub proof fn law_adds_append(tasks: Seq<TaskView>, names: Seq<Seq<char>>)
    ensures
        with_all_new(tasks, names).len() == tasks.len() + names.len(),
        forall|k: int| 0 <= k < tasks.len() ==> with_all_new(tasks, names)[k] == tasks[k],
        forall|k: int|
            0 <= k < names.len() ==> #[trigger] with_all_new(tasks, names)[tasks.len() + k]
                == TaskView::fresh(names[k]),
        forall|k: int|
            0 <= k < names.len() ==> !(#[trigger] with_all_new(tasks, names)[tasks.len() + k]).done,
    decreases names.len(),
{
    if names.len() > 0 {
        law_adds_append(tasks, names.drop_last());
    }
}

/// Removing the task at a valid position makes the list shorter by one: the
/// tasks before that position are as they were, and each task behind it
/// stands one place lower.
pub proof fn law_remove_shifts(tasks: Seq<TaskView>, index: int)
    requires
        in_range(tasks, index),
    ensures
        without(tasks, index).len() == tasks.len() - 1,
        forall|k: int| 0 <= k < index ==> without(tasks, index)[k] == tasks[k],
        forall|k: int| index < k < tasks.len() ==> without(tasks, index)[k - 1] == tasks[k],
{
}

/// Editing the task at a valid position changes the text of that task and
/// nothing else: its completion flag, the length of the list and every other
/// task are as they were.
pub proof fn law_edit_is_local(tasks: Seq<TaskView>, index: int, description: Seq<char>)
    requires
        in_range(tasks, index),
    ensures
        with_text(tasks, index, description).len() == tasks.len(),
        with_text(tasks, index, description)[index].description == description,
        with_text(tasks, index, description)[index].done == tasks[index].done,
        forall|k: int|
            0 <= k < tasks.len() && k != index ==> with_text(tasks, index, description)[k]
                == tasks[k],
{
}

/// Marking the task at a valid position changes the completion flag of that
/// task and nothing else.
pub proof fn law_mark_is_local(tasks: Seq<TaskView>, index: int, status: bool)
    requires
        in_range(tasks, index),
    ensures
        with_status(tasks, index, status).len() == tasks.len(),
        with_status(tasks, index, status)[index].done == status,
        with_status(tasks, index, status)[index].description == tasks[index].description,
        forall|k: int|
            0 <= k < tasks.len() && k != index ==> with_status(tasks, index, status)[k]
                == tasks[k],
{
}

/// Marking a task done and then not done, through the list, leaves every
/// text as it was and that task not done.
pub proof fn law_mark_status_round_trip(tasks: Seq<TaskView>, index: int)
    requires
        in_range(tasks, index),
    ensures
        with_status(with_status(tasks, index, true), index, false) == with_status(
            tasks,
            index,
            false,
        ),
        !tasks[index].done ==> with_status(with_status(tasks, index, true), index, false) == tasks,
{
    assert(with_status(with_status(tasks, index, true), index, false) =~= with_status(
        tasks,
        index,
        false,
    ));
    if !tasks[index].done {
        assert(with_status(tasks, index, false) =~= tasks);
    }
}

/// A position at which the list holds no task, which is every position of an
/// empty list, is answered with the error that names the position and the
/// length, and leaves the list as it is under each operation that takes one.
pub proof fn law_out_of_range_is_no_op(
    tasks: Seq<TaskView>,
    index: usize,
    status: bool,
    description: Seq<char>,
)
    requires
        index >= tasks.len(),
    ensures
        checked(tasks, index) == Err::<(), IndexOutOfRange>(out_of_range(tasks, index)),
        without(tasks, index as int) == tasks,
        with_status(tasks, index as int, status) == tasks,
        with_text(tasks, index as int, description) == tasks,
{
}

/// Every position is out of range for an empty list.
pub proof fn law_empty_list_has_no_position(tasks: Seq<TaskView>, index: usize)
    requires
        tasks.len() == 0,
    ensures
        checked(tasks, index) is Err,
{
}

/// A position is either answered with a task or with the error, never both:
/// the error comes exactly for the positions from the length on.
pub proof fn law_checked_is_exact(tasks: Seq<TaskView>, index: usize)
    ensures
        checked(tasks, index) is Ok <==> index < tasks.len(),
        checked(tasks, index) is Err <==> index >= tasks.len(),
{
}

/// A command after which the list is not written back has not changed it,
/// and no command but an addition ever makes the list longer.
pub proof fn law_unsaved_commands_change_nothing(command: CommandView, tasks: Seq<TaskView>)
    ensures
        !command.persists() ==> command.effect(tasks) == tasks,
        !(command is Add) ==> command.effect(tasks).len() <= tasks.len(),
{
}

} // verus!
