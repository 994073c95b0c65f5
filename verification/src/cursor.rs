//! The cursor that marks one task of the board, and how it moves.

use crate::board::{board_wf, Board, BoardView};
use crate::status::KanbanStatus;
use vstd::arithmetic::div_mod::{
    lemma_add_mod_noop, lemma_mod_add_multiples_vanish, lemma_mod_bound, lemma_mod_self_0,
    lemma_mod_sub_multiples_vanish, lemma_mod_twice, lemma_small_mod,
};
use vstd::prelude::*;

verus! {

/// The place of the highlighted task: its column and its position there.
/// Where no task is highlighted there is no `CurrentTask` at all.
#[derive(Clone, Copy, Debug, PartialEq, Eq, Structural)]
pub struct CurrentTask {
    pub status: KanbanStatus,
    pub index: usize,
}

/// The four ways in which the cursor can be asked to move.
#[derive(Clone, Copy, Debug, PartialEq, Eq, Structural)]
pub enum Direction {
    PrevColumn,
    NextColumn,
    PrevRow,
    NextRow,
}

/// Whether the cursor, if it marks anything, marks a task that is there.
pub open spec fn selects(b: BoardView, cursor: Option<CurrentTask>) -> bool {
    cursor matches Some(c) ==> c.index < b[c.status].len()
}

/// The cursor after it has moved into the column of `status` from the
/// position `position` of another column: on the same position if the column
/// reaches that far, else on the column's last task; on nothing if the
/// column is empty.
pub open spec fn enter_column(b: BoardView, status: KanbanStatus, position: usize) -> Option<
    CurrentTask,
> {
    let k = b[status].len();
    if k == 0 {
        None
    } else if position < k {
        Some(CurrentTask { status, index: position })
    } else {
        Some(CurrentTask { status, index: (k - 1) as usize })
    }
}

/// The cursor after it has moved `by` rows within its column, counted round
/// the column's length. In an empty column it stays as it is.
pub open spec fn row_step(b: BoardView, c: CurrentTask, by: int) -> CurrentTask {
    let k = b[c.status].len() as int;
    if k == 0 {
        c
    } else {
        CurrentTask { status: c.status, index: ((c.index + by) % k) as usize }
    }
}

/// The cursor after one move over the board `b`.
pub open spec fn navigate_spec(b: BoardView, cursor: Option<CurrentTask>, direction: Direction) -> Option<
    CurrentTask,
> {
    match cursor {
        None => None,
        Some(c) => match direction {
            Direction::PrevColumn => enter_column(b, c.status.spec_prev(), c.index),
            Direction::NextColumn => enter_column(b, c.status.spec_next(), c.index),
            Direction::PrevRow => Some(row_step(b, c, -1)),
            Direction::NextRow => Some(row_step(b, c, 1)),
        },
    }
}

/// The cursor after the moves of `moves`, made one after the other.
pub open spec fn navigate_all(b: BoardView, cursor: Option<CurrentTask>, moves: Seq<Direction>) -> Option<
    CurrentTask,
>
    decreases moves.len(),
{
    if moves.len() == 0 {
        cursor
    } else {
        navigate_spec(b, navigate_all(b, cursor, moves.drop_last()), moves.last())
    }
}

/// The cursor after `n` moves to the next row.
pub open spec fn next_rows(b: BoardView, cursor: Option<CurrentTask>, n: nat) -> Option<CurrentTask>
    decreases n,
{
    if n == 0 {
        cursor
    } else {
        navigate_spec(b, next_rows(b, cursor, (n - 1) as nat), Direction::NextRow)
    }
}

proof fn lemma_mod_step(x: int, by: int, k: int)
    requires
        k > 0,
    ensures
        ((x % k) + by) % k == (x + by) % k,
{
    lemma_add_mod_noop(x % k, by, k);
    lemma_add_mod_noop(x, by, k);
    lemma_mod_twice(x, k);
}

proof fn lemma_mod_next(q: int, k: int)
    requires
        0 <= q < k,
    ensures
        (q + 1) % k == if q + 1 == k {
            0
        } else {
            q + 1
        },
{
    if q + 1 == k {
        lemma_mod_self_0(k);
    } else {
        lemma_small_mod((q + 1) as nat, k as nat);
    }
}

proof fn lemma_mod_prev(q: int, k: int)
    requires
        0 <= q < k,
    ensures
        (q - 1) % k == if q == 0 {
            k - 1
        } else {
            q - 1
        },
{
    if q == 0 {
        lemma_mod_sub_multiples_vanish(k - 1, k);
        lemma_small_mod((k - 1) as nat, k as nat);
    } else {
        lemma_small_mod((q - 1) as nat, k as nat);
    }
}

/// Moves the cursor once over the board. A move to the column before or
/// after keeps the position where the column is long enough, stops at the
/// column's end where it is not, and leaves nothing marked where the column
/// is empty. A move to the row before or after stays in the column and goes
/// round at its ends. With nothing marked, nothing is marked afterwards.
pub fn navigate(board: &Board, cursor: Option<CurrentTask>, direction: Direction) -> (r: Option<
    CurrentTask,
>)
    requires
        board.wf(),
    ensures
        r == navigate_spec(board@, cursor, direction),
        selects(board@, cursor) ==> selects(board@, r),
{
    let c = match cursor {
        None => {
            return None;
        },
        Some(c) => c,
    };
    match direction {
        Direction::PrevColumn => enter(board, c.status.prev(), c.index),
        Direction::NextColumn => enter(board, c.status.next(), c.index),
        Direction::PrevRow => {
            let k = board.len(c.status);
            if k == 0 {
                Some(c)
            } else {
                let q = c.index % k;
                proof {
                    lemma_mod_step(c.index as int, -1, k as int);
                    lemma_mod_prev(q as int, k as int);
                }
                let index = if q == 0 {
                    k - 1
                } else {
                    q - 1
                };
                Some(CurrentTask { status: c.status, index })
            }
        },
        Direction::NextRow => {
            let k = board.len(c.status);
            if k == 0 {
                Some(c)
            } else {
                let q = c.index % k;
                proof {
                    lemma_mod_step(c.index as int, 1, k as int);
                    lemma_mod_next(q as int, k as int);
                }
                let index = if q + 1 == k {
                    0
                } else {
                    q + 1
                };
                Some(CurrentTask { status: c.status, index })
            }
        },
    }
}

fn enter(board: &Board, status: KanbanStatus, position: usize) -> (r: Option<CurrentTask>)
    requires
        board.wf(),
    ensures
        r == enter_column(board@, status, position),
        selects(board@, r),
{
    let k = board.len(status);
    if k == 0 {
        None
    } else if position < k {
        Some(CurrentTask { status, index: position })
    } else {
        Some(CurrentTask { status, index: k - 1 })
    }
}

/// A move never leaves the board: from a cursor that marks nothing or a task
/// that is there, every move leads to a cursor that marks nothing or a task
/// that is there.
pub proof fn lemma_navigate_selects(b: BoardView, cursor: Option<CurrentTask>, direction: Direction)
    requires
        board_wf(b),
        selects(b, cursor),
    ensures
        selects(b, navigate_spec(b, cursor, direction)),
{
    if let Some(c) = cursor {
        let k = b[c.status].len() as int;
        assert(b[c.status].len() <= usize::MAX);
        assert(b[c.status.spec_prev()].len() <= usize::MAX);
        assert(b[c.status.spec_next()].len() <= usize::MAX);
        if k > 0 {
            lemma_mod_bound(c.index + 1, k);
            lemma_mod_bound(c.index - 1, k);
        }
    }
}

/// However many moves are made, and in whatever directions, the cursor
/// never leaves the board.
pub proof fn lemma_navigation_bounded(b: BoardView, cursor: Option<CurrentTask>, moves: Seq<Direction>)
    requires
        board_wf(b),
        selects(b, cursor),
    ensures
        selects(b, navigate_all(b, cursor, moves)),
    decreases moves.len(),
{
    if moves.len() > 0 {
        lemma_navigation_bounded(b, cursor, moves.drop_last());
        lemma_navigate_selects(b, navigate_all(b, cursor, moves.drop_last()), moves.last());
    }
}

/// A move into a column of `k` tasks from position `p` ends on position
/// `min(p, k - 1)`; a move into an empty column ends with nothing marked.
pub proof fn lemma_column_move_clamps(b: BoardView, c: CurrentTask, forward: bool)
    requires
        board_wf(b),
    ensures
        ({
            let direction = if forward {
                Direction::NextColumn
            } else {
                Direction::PrevColumn
            };
            let target = if forward {
                c.status.spec_next()
            } else {
                c.status.spec_prev()
            };
            let k = b[target].len();
            let r = navigate_spec(b, Some(c), direction);
            &&& k == 0 ==> r is None
            &&& k > 0 ==> r is Some && r->0.status == target && r->0.index == if c.index <= k - 1 {
                c.index as int
            } else {
                k - 1
            }
        }),
{
    assert(b[c.status.spec_prev()].len() <= usize::MAX);
    assert(b[c.status.spec_next()].len() <= usize::MAX);
}

proof fn lemma_next_rows(b: BoardView, c: CurrentTask, n: nat)
    requires
        board_wf(b),
        c.index < b[c.status].len(),
    ensures
        next_rows(b, Some(c), n) == Some(
            CurrentTask { status: c.status, index: ((c.index + n) % (b[c.status].len() as int)) as usize },
        ),
    decreases n,
{
    let k = b[c.status].len() as int;
    assert(b[c.status].len() <= usize::MAX);
    if n == 0 {
        lemma_small_mod(c.index as nat, k as nat);
    } else {
        lemma_next_rows(b, c, (n - 1) as nat);
        lemma_mod_bound(c.index + n - 1, k);
        lemma_mod_bound(c.index + n, k);
        lemma_mod_step(c.index + n - 1, 1, k);
    }
}

/// In a column of `k` tasks, `k` moves to the next row lead the cursor back
/// to where it started.
pub proof fn lemma_row_wraparound(b: BoardView, c: CurrentTask)
    requires
        board_wf(b),
        c.index < b[c.status].len(),
    ensures
        next_rows(b, Some(c), b[c.status].len()) == Some(c),
{
    let k = b[c.status].len();
    lemma_next_rows(b, c, k);
    lemma_mod_add_multiples_vanish(c.index as int, k as int);
    lemma_small_mod(c.index as nat, k);
}

/// A move to the next row and one to the row before undo each other, in
/// either order.
pub proof fn lemma_row_there_and_back(b: BoardView, c: CurrentTask)
    requires
        board_wf(b),
        c.index < b[c.status].len(),
    ensures
        navigate_spec(b, navigate_spec(b, Some(c), Direction::NextRow), Direction::PrevRow) == Some(c),
        navigate_spec(b, navigate_spec(b, Some(c), Direction::PrevRow), Direction::NextRow) == Some(c),
{
    let k = b[c.status].len() as int;
    let p = c.index as int;
    assert(b[c.status].len() <= usize::MAX);
    lemma_mod_bound(p + 1, k);
    lemma_mod_bound(p - 1, k);
    lemma_mod_step(p + 1, -1, k);
    lemma_mod_step(p - 1, 1, k);
    lemma_small_mod(p as nat, k as nat);
}

} // verus!
