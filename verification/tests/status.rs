use lastodo::status::KanbanStatus;
use lastodo::task::TaskField;

const ALL: [KanbanStatus; 5] = [
    KanbanStatus::Todo,
    KanbanStatus::Partial,
    KanbanStatus::Doing,
    KanbanStatus::Done,
    KanbanStatus::Blocked,
];

#[test]
fn all_lists_the_statuses_in_the_order_of_the_workflow() {
    assert_eq!(KanbanStatus::all(), ALL);
    let all = KanbanStatus::all();
    for i in 0..5 {
        assert_eq!(all[i].next(), all[(i + 1) % 5]);
    }
}

#[test]
fn next_follows_the_workflow() {
    assert_eq!(KanbanStatus::Todo.next(), KanbanStatus::Partial);
    assert_eq!(KanbanStatus::Partial.next(), KanbanStatus::Doing);
    assert_eq!(KanbanStatus::Doing.next(), KanbanStatus::Done);
    assert_eq!(KanbanStatus::Done.next(), KanbanStatus::Blocked);
}

#[test]
fn next_wraps_from_blocked_to_todo() {
    assert_eq!(KanbanStatus::Blocked.next(), KanbanStatus::Todo);
}

#[test]
fn prev_goes_back_through_the_workflow() {
    assert_eq!(KanbanStatus::Blocked.prev(), KanbanStatus::Done);
    assert_eq!(KanbanStatus::Done.prev(), KanbanStatus::Doing);
    assert_eq!(KanbanStatus::Doing.prev(), KanbanStatus::Partial);
    assert_eq!(KanbanStatus::Partial.prev(), KanbanStatus::Todo);
}

#[test]
fn prev_wraps_from_todo_to_blocked() {
    assert_eq!(KanbanStatus::Todo.prev(), KanbanStatus::Blocked);
}

#[test]
fn next_and_prev_undo_each_other() {
    for s in ALL {
        assert_eq!(s.next().prev(), s);
        assert_eq!(s.prev().next(), s);
    }
}

#[test]
fn five_steps_lead_round_the_cycle() {
    for s in ALL {
        assert_eq!(s.next().next().next().next().next(), s);
        assert_eq!(s.prev().prev().prev().prev().prev(), s);
        assert_ne!(s.next(), s);
        assert_ne!(s.next().next(), s);
        assert_ne!(s.next().next().next(), s);
        assert_ne!(s.next().next().next().next(), s);
    }
}

#[test]
fn the_default_status_is_todo() {
    assert_eq!(KanbanStatus::default(), KanbanStatus::Todo);
}

#[test]
fn statuses_are_named_for_display() {
    assert_eq!(KanbanStatus::Todo.to_string(), "Todo");
    assert_eq!(KanbanStatus::Partial.to_string(), "Partial");
    assert_eq!(KanbanStatus::Doing.to_string(), "Doing");
    assert_eq!(KanbanStatus::Done.to_string(), "Done");
    assert_eq!(KanbanStatus::Blocked.to_string(), "Blocked");
}

#[test]
fn task_fields_can_be_told_apart() {
    assert_ne!(TaskField::Title, TaskField::Description);
    assert_ne!(TaskField::Description, TaskField::Due);
    assert_ne!(TaskField::Due, TaskField::Title);
}
