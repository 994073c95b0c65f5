//! The board: one ordered list of tasks for each status.

use crate::columns::{entries, has_key, holds_at, index, index_mut, insert, new_map};
use crate::status::{lemma_status_index, KanbanStatus};
use crate::task::{task_views, Task, TaskView};
use indexmap::IndexMap;
use vstd::prelude::*;

verus! {

/// What a board holds: for each status the tasks of its column, in order.
pub type BoardView = Map<KanbanStatus, Seq<TaskView>>;

/// A board is well formed when it has a column for every status, each task
/// stands in the column of its own status, no identifier occurs twice on the
/// whole board, and a position in a column fits a machine word.
pub open spec fn board_wf(b: BoardView) -> bool {
    &&& forall|s: KanbanStatus| #[trigger] b.dom().contains(s)
    &&& forall|s: KanbanStatus| (#[trigger] b[s]).len() <= usize::MAX
    &&& forall|s: KanbanStatus, i: int|
        0 <= i < b[s].len() ==> (#[trigger] b[s][i]).kanban_status == s
    &&& forall|s1: KanbanStatus, s2: KanbanStatus, i: int, j: int|
        0 <= i < b[s1].len() && 0 <= j < b[s2].len() && (#[trigger] b[s1][i]).id == (
        #[trigger] b[s2][j]).id ==> s1 == s2 && i == j
}

/// Whether some task on the board has the identifier `id`.
pub open spec fn has_id(b: BoardView, id: u64) -> bool {
    exists|s: KanbanStatus, i: int| 0 <= i < b[s].len() && (#[trigger] b[s][i]).id == id
}

/// The board without any task.
pub open spec fn empty_board() -> BoardView {
    Map::new(|s: KanbanStatus| true, |s: KanbanStatus| Seq::<TaskView>::empty())
}

/// The board `b` with `task` appended to the column of the task's status.
pub open spec fn append_spec(b: BoardView, task: TaskView) -> BoardView {
    b.insert(task.kanban_status, b[task.kanban_status].push(task))
}

/// The first position from `start` on at which `col` holds a task with the
/// identifier `id`.
pub open spec fn position_from(col: Seq<TaskView>, id: u64, start: int) -> Option<int>
    decreases col.len() - start,
{
    if start < 0 || start >= col.len() {
        None
    } else if col[start].id == id {
        Some(start)
    } else {
        position_from(col, id, start + 1)
    }
}

/// The first position at which `col` holds a task with the identifier `id`.
pub open spec fn position_of(col: Seq<TaskView>, id: u64) -> Option<int> {
    position_from(col, id, 0)
}

/// The board after `task` has been written back over the task of the same
/// identifier in the column `original`. Where the task's status is still
/// `original` it takes the old task's place; where it has another status,
/// the old task leaves its column and `task` goes to the end of the column
/// of its new status. Without such a task in `original` nothing changes.
pub open spec fn replace_spec(b: BoardView, original: KanbanStatus, task: TaskView) -> BoardView {
    match position_of(b[original], task.id) {
        None => b,
        Some(i) => if task.kanban_status == original {
            b.insert(original, b[original].update(i, task))
        } else {
            b.insert(original, b[original].remove(i)).insert(
                task.kanban_status,
                b[task.kanban_status].push(task),
            )
        },
    }
}

/// The position in the column of its status at which `task` stands after
/// `replace_spec`, if it was written back at all.
pub open spec fn replaced_at(b: BoardView, original: KanbanStatus, task: TaskView) -> Option<int> {
    match position_of(b[original], task.id) {
        None => None,
        Some(i) => if task.kanban_status == original {
            Some(i)
        } else {
            Some(b[task.kanban_status].len() as int)
        },
    }
}

/// Whether `task` can be written back with `replace_spec`: the column
/// `original` holds a task with its identifier, and if the task moves to
/// another column, that column has room for it.
pub open spec fn can_replace(b: BoardView, original: KanbanStatus, task: TaskView) -> bool {
    &&& position_of(b[original], task.id) is Some
    &&& task.kanban_status != original ==> b[task.kanban_status].len() < usize::MAX
}

/// `position_from` finds the first task with the identifier at or after
/// `start`, and finds none only where there is none.
pub proof fn lemma_position_from(col: Seq<TaskView>, id: u64, start: int)
    requires
        0 <= start,
    ensures
        match position_from(col, id, start) {
            Some(i) => start <= i < col.len() && col[i].id == id && forall|j: int|
                start <= j < i ==> (#[trigger] col[j]).id != id,
            None => forall|j: int| start <= j < col.len() ==> (#[trigger] col[j]).id != id,
        },
    decreases col.len() - start,
{
    if start < col.len() && col[start].id != id {
        lemma_position_from(col, id, start + 1);
    }
}

/// On a well-formed board a task is found in a column exactly where it stands.
pub proof fn lemma_position_unique(b: BoardView, s: KanbanStatus, i: int)
    requires
        board_wf(b),
        0 <= i < b[s].len(),
    ensures
        position_of(b[s], b[s][i].id) == Some(i),
{
    lemma_position_from(b[s], b[s][i].id, 0);
}

/// Appending a task whose identifier is new, to the column of its status,
/// keeps a board well formed.
pub proof fn lemma_append_wf(b: BoardView, task: TaskView)
    requires
        board_wf(b),
        !has_id(b, task.id),
        b[task.kanban_status].len() < usize::MAX,
    ensures
        board_wf(append_spec(b, task)),
{
    let n = append_spec(b, task);
    let st = task.kanban_status;
    assert forall|s: KanbanStatus, i: int| 0 <= i < n[s].len() implies (#[trigger] n[s][i]).kanban_status
        == s by {
        if s == st && i < b[s].len() {
            assert(n[s][i] == b[s][i]);
        }
    }
    assert forall|s1: KanbanStatus, s2: KanbanStatus, i: int, j: int|
        0 <= i < n[s1].len() && 0 <= j < n[s2].len() && (#[trigger] n[s1][i]).id == (
        #[trigger] n[s2][j]).id implies s1 == s2 && i == j by {
        let old_i = !(s1 == st && i == b[st].len());
        let old_j = !(s2 == st && j == b[st].len());
        if old_i {
            assert(n[s1][i] == b[s1][i]);
        }
        if old_j {
            assert(n[s2][j] == b[s2][j]);
        }
    }
}

/// Writing a task back with `replace_spec` keeps a board well formed.
pub proof fn lemma_replace_wf(b: BoardView, original: KanbanStatus, task: TaskView)
    requires
        board_wf(b),
        can_replace(b, original, task),
    ensures
        board_wf(replace_spec(b, original, task)),
{
    lemma_position_from(b[original], task.id, 0);
    let n = replace_spec(b, original, task);
    let st = task.kanban_status;
    match position_of(b[original], task.id) {
        None => {},
        Some(p) => {
            if st == original {
                assert forall|s: KanbanStatus, i: int| 0 <= i < n[s].len() implies (
                #[trigger] n[s][i]).kanban_status == s by {
                    if !(s == st && i == p) {
                        assert(n[s][i] == b[s][i]);
                    }
                }
                assert forall|s1: KanbanStatus, s2: KanbanStatus, i: int, j: int|
                    0 <= i < n[s1].len() && 0 <= j < n[s2].len() && (#[trigger] n[s1][i]).id == (
                    #[trigger] n[s2][j]).id implies s1 == s2 && i == j by {
                    assert(n[s1][i].id == b[s1][i].id);
                    assert(n[s2][j].id == b[s2][j].id);
                }
            } else {
                let shift = |s: KanbanStatus, i: int| if s == original && i >= p { i + 1 } else { i };
                assert forall|s: KanbanStatus, i: int| 0 <= i < n[s].len() implies (
                #[trigger] n[s][i]).kanban_status == s by {
                    if !(s == st && i == b[st].len()) {
                        assert(n[s][i] == b[s][shift(s, i)]);
                    }
                }
                assert forall|s1: KanbanStatus, s2: KanbanStatus, i: int, j: int|
                    0 <= i < n[s1].len() && 0 <= j < n[s2].len() && (#[trigger] n[s1][i]).id == (
                    #[trigger] n[s2][j]).id implies s1 == s2 && i == j by {
                    let new_i = s1 == st && i == b[st].len();
                    let new_j = s2 == st && j == b[st].len();
                    if !new_i {
                        assert(n[s1][i] == b[s1][shift(s1, i)]);
                    }
                    if !new_j {
                        assert(n[s2][j] == b[s2][shift(s2, j)]);
                    }
                    if new_i && !new_j {
                        assert(b[s2][shift(s2, j)].id == b[original][p].id);
                    }
                    if new_j && !new_i {
                        assert(b[s1][shift(s1, i)].id == b[original][p].id);
                    }
                }
            }
        },
    }
}

/// After `replace_spec` the task stands where `replaced_at` says, and every
/// other task of the board is one that was there before.
pub proof fn lemma_replace_contents(b: BoardView, original: KanbanStatus, task: TaskView)
    requires
        board_wf(b),
        can_replace(b, original, task),
    ensures
        ({
            let n = replace_spec(b, original, task);
            let r = replaced_at(b, original, task)->0;
            &&& 0 <= r < n[task.kanban_status].len()
            &&& n[task.kanban_status][r] == task
            &&& forall|s: KanbanStatus, i: int|
                0 <= i < n[s].len() && !(s == task.kanban_status && i == r) ==> b[s].contains(
                    #[trigger] n[s][i],
                )
        }),
{
    lemma_position_from(b[original], task.id, 0);
    let n = replace_spec(b, original, task);
    let r = replaced_at(b, original, task)->0;
    let p = position_of(b[original], task.id)->0;
    assert forall|s: KanbanStatus, i: int|
        0 <= i < n[s].len() && !(s == task.kanban_status && i == r) implies b[s].contains(
        #[trigger] n[s][i]) by {
        let j = if task.kanban_status != original && s == original && i >= p {
            i + 1
        } else {
            i
        };
        assert(b[s][j] == n[s][i]);
    }
}

/// `replace_spec` loses no task: every task of the board but the one that
/// was written over is still there, in the column in which it was.
pub proof fn lemma_replace_keeps_others(b: BoardView, original: KanbanStatus, task: TaskView)
    requires
        board_wf(b),
        can_replace(b, original, task),
    ensures
        forall|s: KanbanStatus, j: int|
            0 <= j < b[s].len() && (#[trigger] b[s][j]).id != task.id ==> replace_spec(
                b,
                original,
                task,
            )[s].contains(b[s][j]),
{
    lemma_position_from(b[original], task.id, 0);
    let n = replace_spec(b, original, task);
    let p = position_of(b[original], task.id)->0;
    assert forall|s: KanbanStatus, j: int|
        0 <= j < b[s].len() && (#[trigger] b[s][j]).id != task.id implies n[s].contains(b[s][j]) by {
        let i = if task.kanban_status != original && s == original && j > p {
            j - 1
        } else {
            j
        };
        assert(n[s][i] == b[s][j]);
    }
}

/// Writing a task back over itself changes nothing.
pub proof fn lemma_replace_same(b: BoardView, s: KanbanStatus, i: int)
    requires
        board_wf(b),
        0 <= i < b[s].len(),
    ensures
        can_replace(b, s, b[s][i]),
        replace_spec(b, s, b[s][i]) == b,
        replaced_at(b, s, b[s][i]) == Some(i),
{
    lemma_position_unique(b, s, i);
    assert(b[s].update(i, b[s][i]) =~= b[s]);
    assert(b.insert(s, b[s]) =~= b);
}

/// The board. Its columns are kept in an `IndexMap` keyed by status, in the
/// order of the workflow.
pub struct Board {
    columns: IndexMap<KanbanStatus, Vec<Task>>,
}

impl View for Board {
    type V = BoardView;

    closed spec fn view(&self) -> BoardView {
        Map::new(
            |s: KanbanStatus| true,
            |s: KanbanStatus| task_views(entries(self.columns)[s.index()].1),
        )
    }
}

impl Board {
    /// The map holds the five statuses as its keys, in the order of the
    /// workflow.
    pub closed spec fn keyed(&self) -> bool {
        &&& entries(self.columns).len() == 5
        &&& forall|i: int| 0 <= i < 5 ==> (#[trigger] entries(self.columns)[i]).0 == KanbanStatus::at(i)
    }

    /// The board is valid: its map is keyed as it should be and what it
    /// holds is well formed.
    pub open spec fn wf(&self) -> bool {
        self.keyed() && board_wf(self@)
    }

    proof fn lemma_keyed(&self, status: KanbanStatus)
        requires
            self.keyed(),
        ensures
            has_key(self.columns, status),
            forall|i: int, tasks: Seq<Task>| #[trigger]
                holds_at(self.columns, i, status, tasks) ==> i == status.index(),
            self@[status] == task_views(entries(self.columns)[status.index()].1),
    {
        lemma_status_index(status);
        assert(entries(self.columns)[status.index()].0 == status);
        assert forall|i: int, tasks: Seq<Task>| #[trigger]
            holds_at(self.columns, i, status, tasks) implies i == status.index() by {
            assert(entries(self.columns)[i].0 == KanbanStatus::at(i));
        }
    }

    /// A board with all five columns empty.
    pub fn new() -> (r: Board)
        ensures
            r.wf(),
            r@ == empty_board(),
    {
        let mut columns = new_map();
        let _ = insert(&mut columns, KanbanStatus::Todo, Vec::new());
        let _ = insert(&mut columns, KanbanStatus::Partial, Vec::new());
        let _ = insert(&mut columns, KanbanStatus::Doing, Vec::new());
        let _ = insert(&mut columns, KanbanStatus::Done, Vec::new());
        let _ = insert(&mut columns, KanbanStatus::Blocked, Vec::new());
        let r = Board { columns };
        proof {
            assert forall|s: KanbanStatus| #[trigger] r@[s] == Seq::<TaskView>::empty() by {
                lemma_status_index(s);
                assert(entries(r.columns)[s.index()].1 == Seq::<Task>::empty());
                assert(r@[s] =~= Seq::<TaskView>::empty());
            }
            assert(r@ =~= empty_board());
        }
        r
    }

    /// The tasks of one column, in order.
    pub fn column(&self, status: KanbanStatus) -> (r: &Vec<Task>)
        requires
            self.wf(),
        ensures
            task_views(r@) == self@[status],
    {
        proof {
            self.lemma_keyed(status);
        }
        index(&self.columns, status)
    }

    /// The number of tasks in one column.
    pub fn len(&self, status: KanbanStatus) -> (r: usize)
        requires
            self.wf(),
        ensures
            r == self@[status].len(),
    {
        self.column(status).len()
    }

    /// A copy of the task at `position` in the column of `status`, if the
    /// column is that long.
    pub fn get(&self, status: KanbanStatus, position: usize) -> (r: Option<Task>)
        requires
            self.wf(),
        ensures
            position < self@[status].len() ==> r is Some && r->0@ == self@[status][position as int],
            position >= self@[status].len() ==> r is None,
    {
        let col = self.column(status);
        if position < col.len() {
            Some(col[position].clone())
        } else {
            None
        }
    }

    /// The position in the column of `status` of the task with the identifier
    /// `id`, if the column holds one.
    pub fn find(&self, status: KanbanStatus, id: u64) -> (r: Option<usize>)
        requires
            self.wf(),
        ensures
            match r {
                Some(i) => position_of(self@[status], id) == Some(i as int),
                None => position_of(self@[status], id) is None,
            },
    {
        let col = self.column(status);
        let mut i: usize = 0;
        while i < col.len()
            invariant
                0 <= i <= col.len(),
                task_views(col@) == self@[status],
                position_of(self@[status], id) == position_from(self@[status], id, i as int),
            decreases col.len() - i,
        {
            if col[i].id == id {
                return Some(i);
            }
            i += 1;
        }
        None
    }

    /// Whether some task on the board has the identifier `id`.
    pub fn contains_id(&self, id: u64) -> (r: bool)
        requires
            self.wf(),
        ensures
            r == has_id(self@, id),
    {
        let mut status = KanbanStatus::Todo;
        let mut n: usize = 0;
        while n < 5
            invariant
                0 <= n <= 5,
                self.wf(),
                n < 5 ==> status == KanbanStatus::at(n as int),
                forall|s: KanbanStatus, i: int|
                    s.index() < n && 0 <= i < self@[s].len() ==> (#[trigger] self@[s][i]).id != id,
            decreases 5 - n,
        {
            let found = self.find(status, id);
            proof {
                lemma_position_from(self@[status], id, 0);
            }
            if found.is_some() {
                return true;
            }
            status = status.next();
            n += 1;
        }
        proof {
            assert forall|s: KanbanStatus, i: int| 0 <= i < self@[s].len() implies (
            #[trigger] self@[s][i]).id != id by {
                lemma_status_index(s);
            }
        }
        false
    }

    /// The tasks of one column, to be changed in place. What the column holds
    /// when the reference is given back is what the board then holds under
    /// `status`; the other columns stay as they are.
    fn column_mut(&mut self, status: KanbanStatus) -> (col: &mut Vec<Task>)
        requires
            old(self).keyed(),
        ensures
            task_views(col@) == old(self)@[status],
            final(self).keyed(),
            final(self)@ == old(self)@.insert(status, task_views(final(col)@)),
    {
        proof {
            self.lemma_keyed(status);
        }
        let ghost before = entries(self.columns);
        let col = index_mut(&mut self.columns, status);
        proof {
            let k = status.index();
            let after = before.update(k, (status, final(col)@));
            assert(entries(after_borrow(self.columns)) == after);
            assert forall|i: int| 0 <= i < 5 implies (#[trigger] after[i]).0 == KanbanStatus::at(i) by {
                assert(before[i].0 == KanbanStatus::at(i));
            }
            assert forall|s: KanbanStatus| #[trigger]
                after_borrow(*self)@[s] == old(self)@.insert(status, task_views(final(col)@))[s] by {
                lemma_status_index(s);
            }
            assert(after_borrow(*self)@ =~= old(self)@.insert(status, task_views(final(col)@)));
        }
        col
    }

    /// Appends `task` to the column of its status.
    pub(crate) fn append(&mut self, task: Task)
        requires
            old(self).wf(),
            !has_id(old(self)@, task.id),
            old(self)@[task.kanban_status].len() < usize::MAX,
        ensures
            final(self).wf(),
            final(self)@ == append_spec(old(self)@, task@),
    {
        proof {
            lemma_append_wf(self@, task@);
        }
        let col = self.column_mut(task.kanban_status);
        proof {
            assert(task_views(col@.push(task)) =~= task_views(col@).push(task@));
        }
        col.push(task);
    }

    /// Appends `task` to the column of its status, unless a task with the same
    /// identifier is on the board already or the column is full. Returns the
    /// position that the task has taken.
    pub fn add_task(&mut self, task: Task) -> (r: Option<usize>)
        requires
            old(self).wf(),
        ensures
            final(self).wf(),
            r is Some <==> !has_id(old(self)@, task.id) && old(self)@[task.kanban_status].len()
                < usize::MAX,
            r is Some ==> final(self)@ == append_spec(old(self)@, task@) && r->0 == old(
                self,
            )@[task.kanban_status].len(),
            r is None ==> final(self)@ == old(self)@,
    {
        let n = self.len(task.kanban_status);
        if n == usize::MAX || self.contains_id(task.id) {
            None
        } else {
            self.append(task);
            Some(n)
        }
    }

    /// Writes `task` back over the task of the same identifier in the column
    /// `original`, and moves it to the end of the column of its own status if
    /// that is another one. Returns the position at which the task then
    /// stands in the column of its status, or `None`, with the board
    /// unchanged, if `original` holds no task with that identifier or the
    /// column that the task would move to is full.
    pub fn replace_task(&mut self, original: KanbanStatus, task: Task) -> (r: Option<usize>)
        requires
            old(self).wf(),
        ensures
            final(self).wf(),
            r is Some <==> can_replace(old(self)@, original, task@),
            r is Some ==> final(self)@ == replace_spec(old(self)@, original, task@) && Some(
                r->0 as int,
            ) == replaced_at(old(self)@, original, task@),
            r is None ==> final(self)@ == old(self)@,
    {
        let status = task.kanban_status;
        let found = self.find(original, task.id);
        match found {
            None => None,
            Some(p) => {
                proof {
                    lemma_position_from(self@[original], task.id, 0);
                }
                if status == original {
                    proof {
                        lemma_replace_wf(self@, original, task@);
                    }
                    let col = self.column_mut(original);
                    proof {
                        assert(task_views(col@.update(p as int, task)) =~= task_views(col@).update(
                            p as int,
                            task@,
                        ));
                    }
                    col.set(p, task);
                    Some(p)
                } else {
                    let n = self.len(status);
                    if n == usize::MAX {
                        return None;
                    }
                    proof {
                        lemma_replace_wf(self@, original, task@);
                    }
                    let col = self.column_mut(original);
                    proof {
                        assert(task_views(col@.remove(p as int)) =~= task_views(col@).remove(p as int));
                    }
                    let _ = col.remove(p);
                    let col = self.column_mut(status);
                    proof {
                        assert(task_views(col@.push(task)) =~= task_views(col@).push(task@));
                    }
                    col.push(task);
                    Some(n)
                }
            },
        }
    }
}

} // verus!
