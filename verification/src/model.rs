//! The state of the application as plain values, and its transitions.

use crate::app::{CurrentScreen, Key};
use crate::board::{
    append_spec, board_wf, can_replace, empty_board, has_id, replace_spec, replaced_at, BoardView,
};
use crate::cursor::{navigate_spec, selects, CurrentTask, Direction};
use crate::edit::{EditView, TaskEditMode};
use crate::status::KanbanStatus;
use crate::task::TaskView;
use vstd::prelude::*;

verus! {

/// The message shown when an edit session with unsaved changes is asked to
/// close.
pub open spec fn unsaved_message() -> Seq<char> {
    "You have unsaved changes. Use 'w' to save or 'x' to discard."@
}

/// The error of a save without an edit session.
pub open spec fn not_editing_message() -> Seq<char> {
    "No task is currently being edited."@
}

/// The error of a save into a column that cannot take another task.
pub open spec fn column_full_message() -> Seq<char> {
    "The column is full."@
}

/// The message shown when no identifier is left for a new task.
pub open spec fn no_identifier_message() -> Seq<char> {
    "No more tasks can be created."@
}

/// The text that the character keys among `keys` spell, in order.
pub open spec fn spelled(keys: Seq<Key>) -> Seq<char>
    decreases keys.len(),
{
    if keys.len() == 0 {
        Seq::empty()
    } else {
        match keys.last() {
            Key::Char(c) => spelled(keys.drop_last()).push(c),
            _ => spelled(keys.drop_last()),
        }
    }
}

/// Whether every key of `keys` is a character key.
pub open spec fn all_characters(keys: Seq<Key>) -> bool {
    forall|i: int| 0 <= i < keys.len() ==> #[trigger] keys[i] is Char
}

/// The whole state of the application.
pub struct AppView {
    /// The highlighted task, if any.
    pub cur_task: Option<CurrentTask>,
    pub task_list: BoardView,
    pub current_screen: CurrentScreen,
    /// The edit session, which exists exactly while the screen is `Editing`.
    pub currently_editing_task: Option<EditView>,
    /// The one-line message for the user.
    pub message: Seq<char>,
    /// Whether the application has been asked to stop.
    pub exit: bool,
    /// The identifier that the next new task receives.
    pub next_id: u64,
}

impl AppView {
    /// The state is consistent: the board is well formed, the cursor marks
    /// nothing or a task that is there, a session exists exactly while
    /// editing, every identifier in use lies below `next_id`, a session on a
    /// new task holds an identifier that the board does not, and a session
    /// on a task of the board works on the task under the cursor, which its
    /// copy equals as long as the session is not marked as changed.
    pub open spec fn wf(self) -> bool {
        &&& board_wf(self.task_list)
        &&& selects(self.task_list, self.cur_task)
        &&& self.current_screen == CurrentScreen::Editing <==> self.currently_editing_task is Some
        &&& forall|s: KanbanStatus, i: int|
            0 <= i < self.task_list[s].len() ==> (#[trigger] self.task_list[s][i]).id < self.next_id
        &&& match self.currently_editing_task {
            None => true,
            Some(e) => {
                &&& e.task.id < self.next_id
                &&& e.is_new_task ==> !has_id(self.task_list, e.task.id)
                &&& !e.is_new_task ==> self.edits_selected(e)
            },
        }
    }

    /// Whether the session `e` works on the task under the cursor: the
    /// cursor marks a task of the column that the session took its task
    /// from, with the same identifier, and equal to the session's copy
    /// unless that is marked as changed.
    pub open spec fn edits_selected(self, e: EditView) -> bool {
        match self.cur_task {
            None => false,
            Some(c) => {
                &&& c.status == e.original_status
                &&& c.index < self.task_list[c.status].len()
                &&& self.task_list[c.status][c.index as int].id == e.task.id
                &&& !e.has_changed ==> self.task_list[c.status][c.index as int] == e.task
            },
        }
    }

    /// The state in which the application starts: one demonstration task
    /// in `Todo` and one in `Partial`, both due at `due`, the cursor on the
    /// first.
    pub open spec fn demo(due: i64) -> AppView {
        let first = TaskView {
            id: 0,
            title: "Task 1"@,
            kanban_status: KanbanStatus::Todo,
            description: "This is a task"@,
            due,
        };
        let second = TaskView {
            id: 1,
            title: "Task 2"@,
            kanban_status: KanbanStatus::Partial,
            description: "This is another task"@,
            due,
        };
        AppView {
            cur_task: Some(CurrentTask { status: KanbanStatus::Todo, index: 0 }),
            task_list: append_spec(append_spec(empty_board(), first), second),
            current_screen: CurrentScreen::Main,
            currently_editing_task: None,
            message: Seq::empty(),
            exit: false,
            next_id: 2,
        }
    }

    /// The state after the cursor has been asked to move. It only moves on
    /// the main screen.
    pub open spec fn moved(self, direction: Direction) -> AppView {
        if self.current_screen == CurrentScreen::Main {
            AppView { cur_task: navigate_spec(self.task_list, self.cur_task, direction), ..self }
        } else {
            self
        }
    }

    /// The state after an edit session has been asked for on the main
    /// screen. With a task under the cursor the session opens on a copy of
    /// it. With nothing under the cursor it opens on a new, empty task, which
    /// takes the next identifier; if none is left, only a message is set.
    pub open spec fn entered_edit(self) -> AppView {
        if self.current_screen != CurrentScreen::Main {
            self
        } else {
            match self.cur_task {
                Some(c) => AppView {
                    current_screen: CurrentScreen::Editing,
                    currently_editing_task: Some(
                        EditView::open(self.task_list[c.status][c.index as int]),
                    ),
                    ..self
                },
                None => if self.next_id < u64::MAX {
                    AppView {
                        current_screen: CurrentScreen::Editing,
                        currently_editing_task: Some(EditView::open_new(self.next_id)),
                        next_id: (self.next_id + 1) as u64,
                        ..self
                    }
                } else {
                    AppView { message: no_identifier_message(), ..self }
                },
            }
        }
    }

    /// Why the session cannot be saved, if it cannot: there is none, or the
    /// column that its task goes to is full.
    pub open spec fn save_error(self) -> Option<Seq<char>> {
        match self.currently_editing_task {
            None => Some(not_editing_message()),
            Some(e) => if e.is_new_task {
                if self.task_list[e.task.kanban_status].len() < usize::MAX {
                    None
                } else {
                    Some(column_full_message())
                }
            } else {
                if can_replace(self.task_list, e.original_status, e.task) {
                    None
                } else {
                    Some(column_full_message())
                }
            },
        }
    }

    /// The state after the session has been saved, where it can be. A new
    /// task goes to the end of the column of its status. A task of the board
    /// is found again by its identifier and replaced; if its status has
    /// changed, it moves to the end of the column of its new status. The
    /// cursor then marks the saved task, and the session stays open with
    /// nothing left to save.
    pub open spec fn saved(self) -> AppView {
        match self.currently_editing_task {
            None => self,
            Some(e) => if self.save_error() is Some {
                self
            } else if e.is_new_task {
                AppView {
                    cur_task: Some(
                        CurrentTask {
                            status: e.task.kanban_status,
                            index: self.task_list[e.task.kanban_status].len() as usize,
                        },
                    ),
                    task_list: append_spec(self.task_list, e.task),
                    currently_editing_task: Some(e.saved()),
                    ..self
                }
            } else {
                AppView {
                    cur_task: Some(
                        CurrentTask {
                            status: e.task.kanban_status,
                            index: replaced_at(self.task_list, e.original_status, e.task)->0 as usize,
                        },
                    ),
                    task_list: replace_spec(self.task_list, e.original_status, e.task),
                    currently_editing_task: Some(e.saved()),
                    ..self
                }
            },
        }
    }

    /// The state after the save key: saved where that is possible, else with
    /// the reason as the message.
    pub open spec fn save_attempted(self) -> AppView {
        match self.save_error() {
            None => self.saved(),
            Some(reason) => AppView { message: reason, ..self },
        }
    }

    /// The state after the session has been asked to close. With unsaved
    /// changes it stays open and a message says so; without, it ends and the
    /// main screen returns.
    pub open spec fn quit_edit(self) -> AppView {
        match self.currently_editing_task {
            Some(e) if e.has_changed => AppView { message: unsaved_message(), ..self },
            _ => self.force_quit(),
        }
    }

    /// The state after the session has been discarded: it ends, whatever it
    /// held, and the main screen returns. The board is as it was.
    pub open spec fn force_quit(self) -> AppView {
        AppView { current_screen: CurrentScreen::Main, currently_editing_task: None, ..self }
    }

    /// The state with the session, if there is one, replaced by `change` of
    /// it.
    pub open spec fn with_session(self, change: spec_fn(EditView) -> EditView) -> AppView {
        match self.currently_editing_task {
            None => self,
            Some(e) => AppView { currently_editing_task: Some(change(e)), ..self },
        }
    }

    /// The state after a key on the main screen.
    pub open spec fn main_step(self, key: Key) -> AppView {
        if key == Key::Char('q') {
            AppView { exit: true, ..self }
        } else if key == Key::Char('h') {
            self.moved(Direction::PrevColumn)
        } else if key == Key::Char('l') {
            self.moved(Direction::NextColumn)
        } else if key == Key::Char('j') {
            self.moved(Direction::PrevRow)
        } else if key == Key::Char('k') {
            self.moved(Direction::NextRow)
        } else if key == Key::Char('i') {
            self.entered_edit()
        } else {
            self
        }
    }

    /// The state after a key in an edit session that reads keys as commands.
    pub open spec fn normal_step(self, key: Key) -> AppView {
        if key == Key::Char('i') {
            self.with_session(|e: EditView| e.in_mode(TaskEditMode::Insert))
        } else if key == Key::Char('w') {
            self.save_attempted()
        } else if key == Key::Char('q') {
            self.quit_edit()
        } else if key == Key::Char('x') {
            self.force_quit()
        } else if key == Key::Tab {
            self.with_session(|e: EditView| e.forward())
        } else if key == Key::BackTab {
            self.with_session(|e: EditView| e.backward())
        } else {
            self
        }
    }

    /// The state after a key in an edit session that reads keys as text.
    pub open spec fn insert_step(self, key: Key) -> AppView {
        match key {
            Key::Esc => self.with_session(|e: EditView| e.in_mode(TaskEditMode::Normal)),
            Key::Backspace => self.with_session(|e: EditView| e.erased()),
            Key::Char(c) => self.with_session(|e: EditView| e.typed(c)),
            _ => self,
        }
    }

    /// The state after one key.
    pub open spec fn step(self, key: Key) -> AppView {
        match self.current_screen {
            CurrentScreen::Main => self.main_step(key),
            CurrentScreen::Editing => match self.currently_editing_task {
                None => self,
                Some(e) => match e.mode {
                    TaskEditMode::Normal => self.normal_step(key),
                    TaskEditMode::Insert => self.insert_step(key),
                },
            },
        }
    }

    /// The state after the keys of `keys`, one after the other.
    pub open spec fn run(self, keys: Seq<Key>) -> AppView
        decreases keys.len(),
    {
        if keys.len() == 0 {
            self
        } else {
            self.run(keys.drop_last()).step(keys.last())
        }
    }
}

} // verus!
