//! What holds of the state machine in every state.

use crate::app::{CurrentScreen, Key};
use crate::board::{
    lemma_append_wf, lemma_replace_contents, lemma_replace_same, lemma_replace_wf, replaced_at,
};
use crate::cursor::{lemma_navigate_selects, CurrentTask, Direction};
use crate::edit::{lemma_typed_all, lemma_typed_all_keeps, EditView, TaskEditMode};
use crate::model::{all_characters, spelled, unsaved_message, AppView};
use crate::status::KanbanStatus;
use crate::task::TaskView;
use vstd::prelude::*;

verus! {

/// The state in which the application starts is consistent.
pub proof fn lemma_demo_wf(due: i64)
    ensures
        AppView::demo(due).wf(),
{
    let v = AppView::demo(due);
    let b = v.task_list;
    assert forall|s: KanbanStatus, i: int| 0 <= i < b[s].len() implies i == 0 && (s
        == KanbanStatus::Todo || s == KanbanStatus::Partial) && (#[trigger] b[s][i]).id == s.index() by {
    }
}

/// Moving the cursor keeps the state consistent.
pub proof fn lemma_moved_wf(v: AppView, direction: Direction)
    requires
        v.wf(),
    ensures
        v.moved(direction).wf(),
{
    lemma_navigate_selects(v.task_list, v.cur_task, direction);
}

/// Opening an edit session keeps the state consistent.
pub proof fn lemma_entered_edit_wf(v: AppView)
    requires
        v.wf(),
    ensures
        v.entered_edit().wf(),
{
    let n = v.entered_edit();
    if v.current_screen == CurrentScreen::Main {
        match v.cur_task {
            Some(c) => {
                let t = v.task_list[c.status][c.index as int];
                assert(t.kanban_status == c.status);
                assert(t.id < v.next_id);
            },
            None => {
                if v.next_id < u64::MAX {
                    assert forall|s: KanbanStatus, i: int| 0 <= i < n.task_list[s].len() implies (
                    #[trigger] n.task_list[s][i]).id < n.next_id by {
                        assert(v.task_list[s][i].id < v.next_id);
                    }
                }
            },
        }
    }
}

/// Saving keeps the state consistent.
pub proof fn lemma_saved_wf(v: AppView)
    requires
        v.wf(),
    ensures
        v.saved().wf(),
{
    let n = v.saved();
    if let Some(e) = v.currently_editing_task {
        if v.save_error() is None {
            let st = e.task.kanban_status;
            if e.is_new_task {
                lemma_append_wf(v.task_list, e.task);
                let k = v.task_list[st].len() as int;
                assert forall|s: KanbanStatus, i: int| 0 <= i < n.task_list[s].len() implies (
                #[trigger] n.task_list[s][i]).id < n.next_id by {
                    if !(s == st && i == k) {
                        assert(n.task_list[s][i] == v.task_list[s][i]);
                    }
                }
                assert(n.task_list[st][k] == e.task);
            } else {
                lemma_replace_wf(v.task_list, e.original_status, e.task);
                lemma_replace_contents(v.task_list, e.original_status, e.task);
                let r = replaced_at(v.task_list, e.original_status, e.task)->0;
                assert forall|s: KanbanStatus, i: int| 0 <= i < n.task_list[s].len() implies (
                #[trigger] n.task_list[s][i]).id < n.next_id by {
                    if !(s == st && i == r) {
                        let j = v.task_list[s].index_of(n.task_list[s][i]);
                        assert(v.task_list[s][j].id < v.next_id);
                    }
                }
            }
        }
    }
}

/// Closing or discarding the session keeps the state consistent.
pub proof fn lemma_quit_wf(v: AppView)
    requires
        v.wf(),
    ensures
        v.quit_edit().wf(),
        v.force_quit().wf(),
{
}

/// Whether a change to a session leaves alone which task the session works
/// on, and marks the session as changed whenever it changes the task.
pub open spec fn keeps_session(change: spec_fn(EditView) -> EditView) -> bool {
    forall|e: EditView|
        {
            let n = #[trigger] change(e);
            &&& n.task.id == e.task.id
            &&& n.is_new_task == e.is_new_task
            &&& n.original_status == e.original_status
            &&& n.has_changed || (n.task == e.task && !e.has_changed)
        }
}

/// A change to the session that leaves alone which task it works on, and
/// marks what it changes, keeps the state consistent. Typing, erasing,
/// setting the due date and changing field or mode are such changes.
pub proof fn lemma_session_change_wf(v: AppView, change: spec_fn(EditView) -> EditView)
    requires
        v.wf(),
        keeps_session(change),
    ensures
        v.with_session(change).wf(),
{
    if let Some(e) = v.currently_editing_task {
        let n = change(e);
        assert(n.task.id == e.task.id);
    }
}

/// Every key leads from a consistent state to a consistent state.
pub proof fn lemma_step_wf(v: AppView, key: Key)
    requires
        v.wf(),
    ensures
        v.step(key).wf(),
{
    lemma_moved_wf(v, Direction::PrevColumn);
    lemma_moved_wf(v, Direction::NextColumn);
    lemma_moved_wf(v, Direction::PrevRow);
    lemma_moved_wf(v, Direction::NextRow);
    lemma_entered_edit_wf(v);
    lemma_saved_wf(v);
}

/// However many keys are pressed, the state stays consistent: the cursor
/// marks nothing or a task that is there, and the board stays well formed.
pub proof fn lemma_run_wf(v: AppView, keys: Seq<Key>)
    requires
        v.wf(),
    ensures
        v.run(keys).wf(),
    decreases keys.len(),
{
    if keys.len() > 0 {
        lemma_run_wf(v, keys.drop_last());
        lemma_step_wf(v.run(keys.drop_last()), keys.last());
    }
}

/// A session on a task of the board that is not marked as changed can be
/// saved, and saving it leaves every column of the board, and so every field
/// of every task, as it was.
pub proof fn lemma_save_unchanged(v: AppView)
    requires
        v.wf(),
        v.currently_editing_task is Some,
        !v.currently_editing_task->0.is_new_task,
        !v.currently_editing_task->0.has_changed,
    ensures
        v.save_error() is None,
        v.saved().task_list == v.task_list,
        v.saved().cur_task == v.cur_task,
{
    let c = v.cur_task->0;
    lemma_replace_same(v.task_list, c.status, c.index as int);
}

/// Opening a session on the task under the cursor and saving it at once
/// leaves the board as it was.
pub proof fn lemma_open_and_save_unchanged(v: AppView)
    requires
        v.wf(),
        v.current_screen == CurrentScreen::Main,
        v.cur_task is Some,
    ensures
        v.entered_edit().save_error() is None,
        v.entered_edit().saved().task_list == v.task_list,
        v.step(Key::Char('i')).step(Key::Char('w')).task_list == v.task_list,
{
    lemma_entered_edit_wf(v);
    lemma_save_unchanged(v.entered_edit());
}

/// With unsaved changes a session refuses to close: the screen stays
/// `Editing`, the session and the board stay as they are, and the message
/// says why.
pub proof fn lemma_quit_guarded(v: AppView)
    requires
        v.currently_editing_task is Some,
        v.currently_editing_task->0.has_changed,
    ensures
        v.quit_edit() == (AppView { message: unsaved_message(), ..v }),
        v.current_screen == CurrentScreen::Editing ==> v.quit_edit().current_screen
            == CurrentScreen::Editing,
{
}

/// Without unsaved changes a session closes when asked to.
pub proof fn lemma_quit_clean(v: AppView)
    requires
        v.currently_editing_task is Some,
        !v.currently_editing_task->0.has_changed,
    ensures
        v.quit_edit().current_screen == CurrentScreen::Main,
        v.quit_edit().currently_editing_task is None,
        v.quit_edit().task_list == v.task_list,
{
}

/// Discarding a session always leads back to the main screen and leaves the
/// board as it was, whether or not the session held changes.
pub proof fn lemma_force_quit(v: AppView)
    ensures
        v.force_quit().current_screen == CurrentScreen::Main,
        v.force_quit().currently_editing_task is None,
        v.force_quit().task_list == v.task_list,
        v.force_quit().cur_task == v.cur_task,
{
}

/// Whatever key is pressed during a session, if the session's copy of the
/// task is another one afterwards, the session is marked as changed.
pub proof fn lemma_changes_mark_the_session(v: AppView, key: Key)
    requires
        v.current_screen == CurrentScreen::Editing,
        v.currently_editing_task is Some,
        v.step(key).currently_editing_task is Some,
        v.step(key).currently_editing_task->0.task != v.currently_editing_task->0.task,
    ensures
        v.step(key).currently_editing_task->0.has_changed,
{
}

/// While a session is open, only saving changes the board: typing, erasing,
/// changing field or mode, and closing or discarding the session leave it
/// as it was.
pub proof fn lemma_editing_keeps_board(v: AppView, key: Key)
    requires
        v.current_screen == CurrentScreen::Editing,
        !(v.currently_editing_task is Some && v.currently_editing_task->0.mode
            == TaskEditMode::Normal && key == Key::Char('w')),
    ensures
        v.step(key).task_list == v.task_list,
{
}

/// Saving a session on a new task adds exactly that task, at the end of the
/// column of its status, and puts the cursor on it; no other column changes.
pub proof fn lemma_new_task_saved(v: AppView)
    requires
        v.wf(),
        v.currently_editing_task is Some,
        v.currently_editing_task->0.is_new_task,
        v.save_error() is None,
    ensures
        ({
            let task = v.currently_editing_task->0.task;
            let status = task.kanban_status;
            let n = v.saved();
            &&& n.task_list[status] == v.task_list[status].push(task)
            &&& forall|s: KanbanStatus| s != status ==> n.task_list[s] == v.task_list[s]
            &&& n.cur_task == Some(
                CurrentTask { status, index: v.task_list[status].len() as usize },
            )
            &&& n.task_list[status][n.cur_task->0.index as int] == task
            &&& !n.currently_editing_task->0.has_changed
            &&& n.current_screen == v.current_screen
        }),
{
}

/// While the session reads keys as text, character keys type the text that
/// they spell into the session, and change nothing else.
pub proof fn lemma_typing(v: AppView, keys: Seq<Key>)
    requires
        v.current_screen == CurrentScreen::Editing,
        v.currently_editing_task is Some,
        v.currently_editing_task->0.mode == TaskEditMode::Insert,
        all_characters(keys),
    ensures
        v.run(keys) == v.with_session(|e: EditView| e.typed_all(spelled(keys))),
    decreases keys.len(),
{
    if keys.len() > 0 {
        let front = keys.drop_last();
        lemma_typing(v, front);
        lemma_typed_all_keeps(v.currently_editing_task->0, spelled(front));
        assert(keys.last() is Char);
        assert(spelled(keys).drop_last() =~= spelled(front));
        assert(spelled(keys).last() == keys.last()->Char_0);
    }
}

/// With nothing under the cursor, opening a session, typing a title and
/// saving adds exactly one task to the board: a task with that title and
/// nothing else filled in, at the end of `Todo`, with the cursor on it.
pub proof fn lemma_new_task_created(v: AppView, title: Seq<Key>)
    requires
        v.wf(),
        v.current_screen == CurrentScreen::Main,
        v.cur_task is None,
        v.next_id < u64::MAX,
        v.task_list[KanbanStatus::Todo].len() < usize::MAX,
        all_characters(title),
    ensures
        ({
            let task = TaskView { title: spelled(title), ..TaskView::empty(v.next_id) };
            let todo = v.task_list[KanbanStatus::Todo];
            let n = v.step(Key::Char('i')).step(Key::Char('i')).run(title).step(Key::Esc).step(
                Key::Char('w'),
            );
            &&& n.task_list == v.task_list.insert(KanbanStatus::Todo, todo.push(task))
            &&& n.cur_task == Some(
                CurrentTask { status: KanbanStatus::Todo, index: todo.len() as usize },
            )
            &&& n.current_screen == CurrentScreen::Editing
            &&& !n.currently_editing_task->0.has_changed
            &&& n.wf()
        }),
{
    let opened = v.step(Key::Char('i')).step(Key::Char('i'));
    let fresh = EditView::open_new(v.next_id).in_mode(TaskEditMode::Insert);
    assert(opened.currently_editing_task == Some(fresh));
    lemma_typing(opened, title);
    lemma_typed_all(fresh, spelled(title));
    assert(Seq::<char>::empty() + spelled(title) =~= spelled(title));
    let typed = opened.run(title);
    let ready = typed.step(Key::Esc);
    lemma_step_wf(v, Key::Char('i'));
    lemma_step_wf(v.step(Key::Char('i')), Key::Char('i'));
    lemma_run_wf(opened, title);
    lemma_step_wf(typed, Key::Esc);
    lemma_step_wf(ready, Key::Char('w'));
}

} // verus!
