use todo_list::{IndexOutOfRange, LoadError, Task, TodoList};

fn empty() -> TodoList {
    TodoList::new(Err(LoadError::Io))
}

fn list_of(names: &[&str]) -> TodoList {
    let mut list = empty();
    for name in names {
        list.add_task(name.to_string());
    }
    list
}

fn names_of(list: &TodoList) -> Vec<String> {
    list.tasks.iter().map(|task| task.task.clone()).collect()
}

fn flags_of(list: &TodoList) -> Vec<bool> {
    list.tasks.iter().map(|task| task.done).collect()
}

#[test]
fn new_falls_back_to_empty_when_the_store_cannot_be_read() {
    let list = TodoList::new(Err(LoadError::Io));
    assert!(list.tasks.is_empty());
}

#[test]
fn new_falls_back_to_empty_when_the_store_is_malformed() {
    let list = TodoList::new(Err(LoadError::Format));
    assert!(list.tasks.is_empty());
}

#[test]
fn new_keeps_what_was_loaded() {
    let mut done = Task::new("Second".to_string());
    done.mark_done();
    let stored = TodoList { tasks: vec![Task::new("First".to_string()), done] };
    let list = TodoList::new(Ok(stored));
    assert_eq!(names_of(&list), vec!["First", "Second"]);
    assert_eq!(flags_of(&list), vec![false, true]);
}

#[test]
fn add_task_to_todo_list() {
    let mut list = TodoList::new(Ok(list_of(&["One", "Two", "Three"])));
    list.add_task("New Task".to_string());
    assert_eq!(list.tasks.len(), 4);
    assert_eq!(list.tasks[3].task, "New Task");
    assert!(!list.tasks[3].done);
}

#[test]
fn each_add_makes_the_list_one_longer() {
    let mut list = empty();
    let names = ["a", "b", "", "b", "e"];
    for (count, name) in names.iter().enumerate() {
        assert_eq!(list.tasks.len(), count);
        list.add_task(name.to_string());
        assert_eq!(list.tasks.len(), count + 1);
        assert_eq!(list.tasks[count].task, *name);
        assert!(!list.tasks[count].done);
    }
    assert_eq!(names_of(&list), vec!["a", "b", "", "b", "e"]);
    assert_eq!(flags_of(&list), vec![false; 5]);
}

#[test]
fn add_after_marking_leaves_the_marked_task_alone() {
    let mut list = list_of(&["a"]);
    list.mark_task_status(0, true);
    list.add_task("b".to_string());
    assert_eq!(flags_of(&list), vec![true, false]);
}

#[test]
fn add_then_list_on_empty_store() {
    let mut list = empty();
    list.add_task("Buy milk".to_string());
    assert_eq!(list.list_tasks(), vec![(0, "Buy milk".to_string(), false)]);
}

#[test]
fn list_tasks_of_empty_store_is_empty() {
    let list = empty();
    assert_eq!(list.list_tasks(), Vec::<(usize, String, bool)>::new());
}

#[test]
fn list_tasks_numbers_in_order_and_can_be_repeated() {
    let mut list = list_of(&["A", "B", "C"]);
    list.mark_task_status(1, true);
    let expected = vec![
        (0, "A".to_string(), false),
        (1, "B".to_string(), true),
        (2, "C".to_string(), false),
    ];
    assert_eq!(list.list_tasks(), expected);
    assert_eq!(list.list_tasks(), expected);
    assert_eq!(names_of(&list), vec!["A", "B", "C"]);
}

#[test]
fn mark_then_get_yields_the_done_task() {
    let mut list = list_of(&["Buy milk"]);
    assert!(list.mark_task_status(0, true));
    let task = list.get_task(0).unwrap();
    assert_eq!(task.task, "Buy milk");
    assert!(task.done);
}

#[test]
fn get_task_at_each_position() {
    let list = list_of(&["A", "B", "C"]);
    assert_eq!(list.get_task(0).unwrap().task, "A");
    assert_eq!(list.get_task(1).unwrap().task, "B");
    assert_eq!(list.get_task(2).unwrap().task, "C");
}

#[test]
fn get_task_out_of_range() {
    let list = list_of(&["A", "B", "C"]);
    assert_eq!(list.get_task(3).unwrap_err(), IndexOutOfRange { index: 3, len: 3 });
    assert_eq!(
        list.get_task(usize::MAX).unwrap_err(),
        IndexOutOfRange { index: usize::MAX, len: 3 }
    );
    assert_eq!(names_of(&list), vec!["A", "B", "C"]);
}

#[test]
fn get_task_on_empty_store() {
    let list = empty();
    assert_eq!(list.get_task(0).unwrap_err(), IndexOutOfRange { index: 0, len: 0 });
}

#[test]
fn remove_task_from_todo_list() {
    let mut list = TodoList::new(Ok(list_of(&["One", "Two", "Three"])));
    list.add_task("Task to be removed".to_string());
    assert_eq!(list.remove_task(3), Ok(()));
    assert_eq!(list.tasks.len(), 3);
    assert_eq!(names_of(&list), vec!["One", "Two", "Three"]);
}

#[test]
fn remove_out_of_range_leaves_store_unchanged() {
    let mut list = list_of(&["Buy milk"]);
    assert_eq!(list.remove_task(5), Err(IndexOutOfRange { index: 5, len: 1 }));
    assert_eq!(list.tasks.len(), 1);
    assert_eq!(list.tasks[0].task, "Buy milk");
    assert!(!list.tasks[0].done);
}

#[test]
fn remove_middle_keeps_order() {
    let mut list = list_of(&["A", "B", "C"]);
    assert_eq!(list.remove_task(1), Ok(()));
    assert_eq!(names_of(&list), vec!["A", "C"]);
}

#[test]
fn remove_shifts_later_tasks_down() {
    let mut list = list_of(&["a", "b", "c", "d", "e"]);
    list.mark_task_status(3, true);
    assert_eq!(list.remove_task(2), Ok(()));
    assert_eq!(list.tasks.len(), 4);
    assert_eq!(names_of(&list), vec!["a", "b", "d", "e"]);
    assert_eq!(flags_of(&list), vec![false, false, true, false]);
}

#[test]
fn remove_first_and_last() {
    let mut list = list_of(&["a", "b", "c"]);
    assert_eq!(list.remove_task(0), Ok(()));
    assert_eq!(names_of(&list), vec!["b", "c"]);
    assert_eq!(list.remove_task(1), Ok(()));
    assert_eq!(names_of(&list), vec!["b"]);
    assert_eq!(list.remove_task(0), Ok(()));
    assert!(list.tasks.is_empty());
}

#[test]
fn remove_at_length_is_out_of_range() {
    let mut list = list_of(&["a", "b"]);
    assert_eq!(list.remove_task(2), Err(IndexOutOfRange { index: 2, len: 2 }));
    assert_eq!(names_of(&list), vec!["a", "b"]);
}

#[test]
fn remove_on_empty_store() {
    let mut list = empty();
    assert_eq!(list.remove_task(0), Err(IndexOutOfRange { index: 0, len: 0 }));
    assert!(list.tasks.is_empty());
}

#[test]
fn mark_task_status_in_todo_list() {
    let mut list = empty();
    list.add_task("Task to be marked".to_string());
    list.mark_task_status(0, true);
    assert!(list.tasks[0].done);
}

#[test]
fn mark_then_unmark_restores_the_list() {
    let mut list = list_of(&["a", "b", "c"]);
    assert!(list.mark_task_status(1, true));
    assert_eq!(flags_of(&list), vec![false, true, false]);
    assert!(list.mark_task_status(1, false));
    assert_eq!(flags_of(&list), vec![false, false, false]);
    assert_eq!(names_of(&list), vec!["a", "b", "c"]);
}

#[test]
fn mark_changes_one_flag_only() {
    let mut list = list_of(&["a", "b", "c"]);
    assert!(list.mark_task_status(2, true));
    assert!(list.mark_task_status(0, true));
    assert!(list.mark_task_status(0, true));
    assert_eq!(flags_of(&list), vec![true, false, true]);
    assert_eq!(names_of(&list), vec!["a", "b", "c"]);
}

#[test]
fn mark_out_of_range_is_silent_and_changes_nothing() {
    let mut list = list_of(&["a", "b"]);
    list.mark_task_status(1, true);
    assert!(!list.mark_task_status(2, true));
    assert!(!list.mark_task_status(7, false));
    assert_eq!(flags_of(&list), vec![false, true]);
    assert_eq!(names_of(&list), vec!["a", "b"]);
    let mut none = empty();
    assert!(!none.mark_task_status(0, true));
    assert!(none.tasks.is_empty());
}

#[test]
fn edit_task_in_todo_list() {
    let mut list = empty();
    list.add_task("Old Task Name".to_string());
    assert_eq!(list.edit_task(0, "New Task Name".to_string()), Ok(()));
    assert_eq!(list.tasks[0].task, "New Task Name");
}

#[test]
fn edit_changes_one_text_only() {
    let mut list = list_of(&["a", "b", "c"]);
    list.mark_task_status(1, true);
    list.mark_task_status(2, true);
    assert_eq!(list.edit_task(1, "B".to_string()), Ok(()));
    assert_eq!(names_of(&list), vec!["a", "B", "c"]);
    assert_eq!(flags_of(&list), vec![false, true, true]);
    assert_eq!(list.edit_task(0, String::new()), Ok(()));
    assert_eq!(names_of(&list), vec!["", "B", "c"]);
    assert_eq!(flags_of(&list), vec![false, true, true]);
}

#[test]
fn edit_out_of_range_leaves_store_unchanged() {
    let mut list = list_of(&["a", "b"]);
    assert_eq!(
        list.edit_task(2, "x".to_string()),
        Err(IndexOutOfRange { index: 2, len: 2 })
    );
    assert_eq!(names_of(&list), vec!["a", "b"]);
    let mut none = empty();
    assert_eq!(
        none.edit_task(0, "x".to_string()),
        Err(IndexOutOfRange { index: 0, len: 0 })
    );
    assert!(none.tasks.is_empty());
}

#[test]
fn positions_follow_removals() {
    let mut list = list_of(&["a", "b", "c"]);
    assert_eq!(list.remove_task(0), Ok(()));
    assert_eq!(list.get_task(0).unwrap().task, "b");
    assert_eq!(list.edit_task(1, "C".to_string()), Ok(()));
    assert_eq!(names_of(&list), vec!["b", "C"]);
    assert_eq!(list.get_task(2).unwrap_err(), IndexOutOfRange { index: 2, len: 2 });
}
