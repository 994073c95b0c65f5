use lastodo::board::Board;
use lastodo::status::KanbanStatus;
use lastodo::task::Task;

const ALL: [KanbanStatus; 5] = [
    KanbanStatus::Todo,
    KanbanStatus::Partial,
    KanbanStatus::Doing,
    KanbanStatus::Done,
    KanbanStatus::Blocked,
];

fn task(id: u64, title: &str, status: KanbanStatus) -> Task {
    Task {
        id,
        title: title.to_string(),
        kanban_status: status,
        description: format!("about {}", title),
        due: 1_700_000_000 + id as i64,
    }
}

fn titles(board: &Board, status: KanbanStatus) -> Vec<String> {
    board.column(status).iter().map(|t| t.title.clone()).collect()
}

fn sample() -> Board {
    let mut board = Board::new();
    assert_eq!(board.add_task(task(1, "a", KanbanStatus::Todo)), Some(0));
    assert_eq!(board.add_task(task(2, "b", KanbanStatus::Todo)), Some(1));
    assert_eq!(board.add_task(task(3, "c", KanbanStatus::Todo)), Some(2));
    assert_eq!(board.add_task(task(4, "d", KanbanStatus::Done)), Some(0));
    board
}

#[test]
fn a_new_board_has_five_empty_columns() {
    let board = Board::new();
    for s in ALL {
        assert_eq!(board.len(s), 0);
        assert!(board.column(s).is_empty());
        assert_eq!(board.get(s, 0), None);
    }
}

#[test]
fn add_task_appends_to_the_column_of_the_status() {
    let board = sample();
    assert_eq!(titles(&board, KanbanStatus::Todo), vec!["a", "b", "c"]);
    assert_eq!(titles(&board, KanbanStatus::Done), vec!["d"]);
    assert_eq!(board.len(KanbanStatus::Todo), 3);
    assert_eq!(board.len(KanbanStatus::Partial), 0);
    assert_eq!(board.len(KanbanStatus::Doing), 0);
    assert_eq!(board.len(KanbanStatus::Done), 1);
    assert_eq!(board.len(KanbanStatus::Blocked), 0);
}

#[test]
fn add_task_keeps_every_field() {
    let mut board = Board::new();
    let t = task(9, "keep", KanbanStatus::Blocked);
    assert_eq!(board.add_task(t.clone()), Some(0));
    assert_eq!(board.get(KanbanStatus::Blocked, 0), Some(t));
}

#[test]
fn add_task_refuses_an_identifier_twice() {
    let mut board = sample();
    assert_eq!(board.add_task(task(2, "again", KanbanStatus::Doing)), None);
    assert_eq!(board.len(KanbanStatus::Doing), 0);
    assert_eq!(titles(&board, KanbanStatus::Todo), vec!["a", "b", "c"]);
}

#[test]
fn get_copies_the_task_at_a_position() {
    let board = sample();
    assert_eq!(board.get(KanbanStatus::Todo, 1), Some(task(2, "b", KanbanStatus::Todo)));
    assert_eq!(board.get(KanbanStatus::Todo, 3), None);
    assert_eq!(board.get(KanbanStatus::Doing, 0), None);
}

#[test]
fn find_gives_the_position_of_an_identifier() {
    let board = sample();
    assert_eq!(board.find(KanbanStatus::Todo, 1), Some(0));
    assert_eq!(board.find(KanbanStatus::Todo, 3), Some(2));
    assert_eq!(board.find(KanbanStatus::Todo, 4), None);
    assert_eq!(board.find(KanbanStatus::Done, 4), Some(0));
    assert_eq!(board.find(KanbanStatus::Doing, 1), None);
}

#[test]
fn contains_id_looks_at_every_column() {
    let board = sample();
    assert!(board.contains_id(1));
    assert!(board.contains_id(4));
    assert!(!board.contains_id(5));
    assert!(!Board::new().contains_id(0));
}

#[test]
fn replace_task_in_the_same_column_keeps_the_position() {
    let mut board = sample();
    let mut t = task(2, "b changed", KanbanStatus::Todo);
    t.due = 42;
    assert_eq!(board.replace_task(KanbanStatus::Todo, t.clone()), Some(1));
    assert_eq!(titles(&board, KanbanStatus::Todo), vec!["a", "b changed", "c"]);
    assert_eq!(board.get(KanbanStatus::Todo, 1), Some(t));
    assert_eq!(titles(&board, KanbanStatus::Done), vec!["d"]);
}

#[test]
fn replace_task_with_another_status_moves_the_task() {
    let mut board = sample();
    let t = task(2, "b moved", KanbanStatus::Done);
    assert_eq!(board.replace_task(KanbanStatus::Todo, t.clone()), Some(1));
    assert_eq!(titles(&board, KanbanStatus::Todo), vec!["a", "c"]);
    assert_eq!(titles(&board, KanbanStatus::Done), vec!["d", "b moved"]);
    assert_eq!(board.get(KanbanStatus::Done, 1), Some(t));
    assert!(board.contains_id(2));
    assert_eq!(board.find(KanbanStatus::Todo, 2), None);
}

#[test]
fn replace_task_into_an_empty_column() {
    let mut board = sample();
    let t = task(4, "d", KanbanStatus::Doing);
    assert_eq!(board.replace_task(KanbanStatus::Done, t), Some(0));
    assert_eq!(board.len(KanbanStatus::Done), 0);
    assert_eq!(titles(&board, KanbanStatus::Doing), vec!["d"]);
}

#[test]
fn replace_task_without_the_identifier_changes_nothing() {
    let mut board = sample();
    assert_eq!(board.replace_task(KanbanStatus::Todo, task(7, "x", KanbanStatus::Todo)), None);
    assert_eq!(board.replace_task(KanbanStatus::Done, task(1, "x", KanbanStatus::Done)), None);
    assert_eq!(titles(&board, KanbanStatus::Todo), vec!["a", "b", "c"]);
    assert_eq!(titles(&board, KanbanStatus::Done), vec!["d"]);
}

#[test]
fn tasks_are_found_by_identifier_not_by_their_fields() {
    let mut board = Board::new();
    let mut first = task(1, "same", KanbanStatus::Todo);
    let mut second = task(2, "same", KanbanStatus::Todo);
    first.due = 5;
    second.due = 5;
    assert_eq!(board.add_task(first), Some(0));
    assert_eq!(board.add_task(second), Some(1));
    let mut edited = task(2, "other", KanbanStatus::Todo);
    edited.due = 5;
    assert_eq!(board.replace_task(KanbanStatus::Todo, edited), Some(1));
    assert_eq!(titles(&board, KanbanStatus::Todo), vec!["same", "other"]);
}

#[test]
fn an_empty_task_has_nothing_filled_in() {
    let t = Task::empty(7);
    assert_eq!(t.id, 7);
    assert_eq!(t.title, "");
    assert_eq!(t.description, "");
    assert_eq!(t.due, 0);
    assert_eq!(t.kanban_status, KanbanStatus::Todo);
    assert_eq!(Task::default(), Task::empty(0));
}
