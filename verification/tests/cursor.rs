use lastodo::board::Board;
use lastodo::cursor::{navigate, CurrentTask, Direction};
use lastodo::status::KanbanStatus;
use lastodo::task::Task;

fn at(status: KanbanStatus, index: usize) -> Option<CurrentTask> {
    Some(CurrentTask { status, index })
}

/// A board with 3 tasks in Todo, 1 in Partial, none in Doing, 4 in Done and
/// 2 in Blocked.
fn sample() -> Board {
    let mut board = Board::new();
    let mut id = 0;
    for (status, count) in [
        (KanbanStatus::Todo, 3),
        (KanbanStatus::Partial, 1),
        (KanbanStatus::Doing, 0),
        (KanbanStatus::Done, 4),
        (KanbanStatus::Blocked, 2),
    ] {
        for _ in 0..count {
            let mut t = Task::empty(id);
            t.kanban_status = status;
            assert!(board.add_task(t).is_some());
            id += 1;
        }
    }
    board
}

#[test]
fn a_column_move_keeps_the_position_where_it_can() {
    let board = sample();
    assert_eq!(
        navigate(&board, at(KanbanStatus::Blocked, 1), Direction::PrevColumn),
        at(KanbanStatus::Done, 1)
    );
    assert_eq!(
        navigate(&board, at(KanbanStatus::Blocked, 0), Direction::NextColumn),
        at(KanbanStatus::Todo, 0)
    );
    assert_eq!(
        navigate(&board, at(KanbanStatus::Todo, 2), Direction::PrevColumn),
        at(KanbanStatus::Blocked, 1)
    );
}

#[test]
fn a_column_move_clamps_to_the_last_task() {
    let board = sample();
    assert_eq!(
        navigate(&board, at(KanbanStatus::Todo, 2), Direction::NextColumn),
        at(KanbanStatus::Partial, 0)
    );
    assert_eq!(
        navigate(&board, at(KanbanStatus::Done, 3), Direction::NextColumn),
        at(KanbanStatus::Blocked, 1)
    );
    assert_eq!(
        navigate(&board, at(KanbanStatus::Blocked, 1), Direction::NextColumn),
        at(KanbanStatus::Todo, 1)
    );
}

#[test]
fn a_column_move_into_an_empty_column_selects_nothing() {
    let board = sample();
    assert_eq!(navigate(&board, at(KanbanStatus::Partial, 0), Direction::NextColumn), None);
    assert_eq!(navigate(&board, at(KanbanStatus::Done, 2), Direction::PrevColumn), None);
}

#[test]
fn without_a_selection_no_move_selects_anything() {
    let board = sample();
    for d in [Direction::PrevColumn, Direction::NextColumn, Direction::PrevRow, Direction::NextRow] {
        assert_eq!(navigate(&board, None, d), None);
    }
}

#[test]
fn a_row_move_steps_within_the_column() {
    let board = sample();
    assert_eq!(
        navigate(&board, at(KanbanStatus::Done, 1), Direction::NextRow),
        at(KanbanStatus::Done, 2)
    );
    assert_eq!(
        navigate(&board, at(KanbanStatus::Done, 1), Direction::PrevRow),
        at(KanbanStatus::Done, 0)
    );
}

#[test]
fn a_row_move_goes_round_at_the_ends() {
    let board = sample();
    assert_eq!(
        navigate(&board, at(KanbanStatus::Done, 3), Direction::NextRow),
        at(KanbanStatus::Done, 0)
    );
    assert_eq!(
        navigate(&board, at(KanbanStatus::Done, 0), Direction::PrevRow),
        at(KanbanStatus::Done, 3)
    );
    assert_eq!(
        navigate(&board, at(KanbanStatus::Partial, 0), Direction::NextRow),
        at(KanbanStatus::Partial, 0)
    );
    assert_eq!(
        navigate(&board, at(KanbanStatus::Partial, 0), Direction::PrevRow),
        at(KanbanStatus::Partial, 0)
    );
}

#[test]
fn as_many_next_rows_as_the_column_is_long_lead_back() {
    let board = sample();
    for status in [KanbanStatus::Todo, KanbanStatus::Partial, KanbanStatus::Done, KanbanStatus::Blocked] {
        let k = board.len(status);
        for start in 0..k {
            let mut cursor = at(status, start);
            for step in 1..=k {
                cursor = navigate(&board, cursor, Direction::NextRow);
                assert_eq!(cursor, at(status, (start + step) % k));
            }
            assert_eq!(cursor, at(status, start));
        }
    }
}

#[test]
fn next_row_and_prev_row_undo_each_other() {
    let board = sample();
    for status in [KanbanStatus::Todo, KanbanStatus::Partial, KanbanStatus::Done, KanbanStatus::Blocked] {
        for start in 0..board.len(status) {
            let there = navigate(&board, at(status, start), Direction::NextRow);
            assert_eq!(navigate(&board, there, Direction::PrevRow), at(status, start));
            let back = navigate(&board, at(status, start), Direction::PrevRow);
            assert_eq!(navigate(&board, back, Direction::NextRow), at(status, start));
        }
    }
}

#[test]
fn a_row_move_in_an_empty_column_does_nothing() {
    let board = sample();
    assert_eq!(
        navigate(&board, at(KanbanStatus::Doing, 0), Direction::NextRow),
        at(KanbanStatus::Doing, 0)
    );
    assert_eq!(
        navigate(&board, at(KanbanStatus::Doing, 0), Direction::PrevRow),
        at(KanbanStatus::Doing, 0)
    );
}

#[test]
fn a_row_move_from_beyond_the_column_counts_round_its_length() {
    let board = sample();
    assert_eq!(
        navigate(&board, at(KanbanStatus::Todo, 7), Direction::NextRow),
        at(KanbanStatus::Todo, 2)
    );
    assert_eq!(
        navigate(&board, at(KanbanStatus::Todo, 7), Direction::PrevRow),
        at(KanbanStatus::Todo, 0)
    );
    assert_eq!(
        navigate(&board, at(KanbanStatus::Todo, usize::MAX), Direction::NextRow),
        at(KanbanStatus::Todo, ((usize::MAX % 3) + 1) % 3)
    );
}

#[test]
fn no_sequence_of_moves_leaves_the_board() {
    let board = sample();
    let moves = [Direction::NextRow, Direction::NextColumn, Direction::PrevRow, Direction::PrevColumn];
    // every sequence of six moves, from every task of the board
    for status in [KanbanStatus::Todo, KanbanStatus::Partial, KanbanStatus::Done, KanbanStatus::Blocked] {
        for start in 0..board.len(status) {
            for code in 0..4096usize {
                let mut cursor = at(status, start);
                let mut rest = code;
                for _ in 0..6 {
                    cursor = navigate(&board, cursor, moves[rest % 4]);
                    rest /= 4;
                    if let Some(c) = cursor {
                        assert!(c.index < board.len(c.status));
                    }
                }
            }
        }
    }
}
