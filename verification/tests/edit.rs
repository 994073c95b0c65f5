use lastodo::edit::{TaskEditMode, TaskEditState};
use lastodo::status::KanbanStatus;
use lastodo::task::{Task, TaskField};

fn session() -> TaskEditState {
    TaskEditState::open(Task {
        id: 3,
        title: "ab".to_string(),
        kanban_status: KanbanStatus::Doing,
        description: "c".to_string(),
        due: 100,
    })
}

#[test]
fn a_session_opens_on_the_title_with_nothing_changed() {
    let s = session();
    assert_eq!(s.currently_editing, Some(TaskField::Title));
    assert_eq!(s.task.id, 3);
    assert_eq!(s.task.title, "ab");
    assert_eq!(s.task.description, "c");
    assert_eq!(s.task.due, 100);
    assert_eq!(s.original_status, KanbanStatus::Doing);
    assert!(!s.is_new_task);
    assert!(!s.has_changed);
    assert_eq!(s.mode, TaskEditMode::Normal);
}

#[test]
fn a_session_on_a_new_task_opens_empty() {
    let s = TaskEditState::open_new(11);
    assert_eq!(s.currently_editing, Some(TaskField::Title));
    assert_eq!(s.task, Task::empty(11));
    assert_eq!(s.original_status, KanbanStatus::Todo);
    assert!(s.is_new_task);
    assert!(!s.has_changed);
    assert_eq!(s.mode, TaskEditMode::Normal);
}

#[test]
fn typing_appends_to_the_title() {
    let mut s = session();
    s.type_char('c');
    assert_eq!(s.task.title, "abc");
    assert_eq!(s.task.description, "c");
    assert!(s.has_changed);
}

#[test]
fn typing_appends_to_the_description() {
    let mut s = session();
    s.next_field();
    s.type_char('d');
    s.type_char('é');
    assert_eq!(s.task.title, "ab");
    assert_eq!(s.task.description, "cdé");
    assert!(s.has_changed);
}

#[test]
fn typing_on_the_due_date_does_nothing() {
    let mut s = session();
    s.prev_field();
    assert_eq!(s.currently_editing, Some(TaskField::Due));
    s.type_char('1');
    s.backspace();
    assert_eq!(s, TaskEditState { currently_editing: Some(TaskField::Due), ..session() });
}

#[test]
fn typing_on_no_field_does_nothing() {
    let mut s = session();
    s.currently_editing = None;
    s.type_char('x');
    s.backspace();
    s.set_due(5);
    assert_eq!(s, TaskEditState { currently_editing: None, ..session() });
}

#[test]
fn backspace_removes_the_last_character() {
    let mut s = session();
    s.backspace();
    assert_eq!(s.task.title, "a");
    assert!(s.has_changed);
    s.backspace();
    assert_eq!(s.task.title, "");
    s.backspace();
    assert_eq!(s.task.title, "");
    assert_eq!(s.task.description, "c");
}

#[test]
fn backspace_on_an_empty_text_changes_nothing() {
    let mut s = TaskEditState::open_new(1);
    s.backspace();
    assert_eq!(s, TaskEditState::open_new(1));
    s.next_field();
    s.backspace();
    assert!(!s.has_changed);
}

#[test]
fn set_due_works_on_the_due_date_only() {
    let mut s = session();
    s.set_due(7);
    assert_eq!(s, session());
    s.prev_field();
    s.set_due(100);
    assert!(!s.has_changed);
    s.set_due(7);
    assert_eq!(s.task.due, 7);
    assert!(s.has_changed);
}

#[test]
fn fields_cycle_forward() {
    let mut s = session();
    s.next_field();
    assert_eq!(s.currently_editing, Some(TaskField::Description));
    s.next_field();
    assert_eq!(s.currently_editing, Some(TaskField::Due));
    s.next_field();
    assert_eq!(s.currently_editing, Some(TaskField::Title));
    s.next_field();
    assert_eq!(s.currently_editing, Some(TaskField::Description));
}

#[test]
fn fields_cycle_backward() {
    let mut s = session();
    s.prev_field();
    assert_eq!(s.currently_editing, Some(TaskField::Due));
    s.prev_field();
    assert_eq!(s.currently_editing, Some(TaskField::Description));
    s.prev_field();
    assert_eq!(s.currently_editing, Some(TaskField::Title));
}

#[test]
fn from_no_field_the_cycle_starts_at_the_title() {
    let mut s = session();
    s.currently_editing = None;
    s.next_field();
    assert_eq!(s.currently_editing, Some(TaskField::Title));
    s.currently_editing = None;
    s.prev_field();
    assert_eq!(s.currently_editing, Some(TaskField::Title));
}

#[test]
fn cycling_fields_changes_nothing_else() {
    let mut s = session();
    s.next_field();
    s.next_field();
    s.next_field();
    assert_eq!(s, session());
    s.prev_field();
    s.next_field();
    assert_eq!(s, session());
}

#[test]
fn a_copy_of_a_session_equals_it() {
    let mut s = session();
    s.type_char('!');
    s.next_field();
    let copy = s.clone();
    assert_eq!(copy, s);
    assert_eq!(copy.task.title, "ab!");
    assert_eq!(copy.currently_editing, Some(TaskField::Description));
}
