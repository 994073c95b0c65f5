//! The application: its state, and the controller that turns keys into
//! changes of it.

use crate::board::{has_id, Board};
use crate::clock::now_timestamp;
use crate::cursor::{navigate, CurrentTask, Direction};
use crate::edit::{EditView, TaskEditMode, TaskEditState};
use crate::laws::{
    lemma_demo_wf, lemma_entered_edit_wf, lemma_moved_wf, lemma_quit_wf, lemma_saved_wf,
    lemma_session_change_wf, lemma_step_wf,
};
use crate::model::AppView;
use crate::status::KanbanStatus;
use crate::task::Task;
use vstd::prelude::*;

verus! {

/// Which screen is shown, and so which keys mean what.
#[derive(Clone, Copy, Debug, PartialEq, Eq, Structural)]
pub enum CurrentScreen {
    Main,
    Editing,
}

impl Default for CurrentScreen {
    fn default() -> (r: CurrentScreen)
        ensures
            r == CurrentScreen::Main,
    {
        CurrentScreen::Main
    }
}

/// A key press, as far as the application tells keys apart.
#[derive(Clone, Copy, Debug, PartialEq, Eq, Structural)]
pub enum Key {
    Char(char),
    Tab,
    BackTab,
    Esc,
    Backspace,
    Other,
}

/// The application's state. It changes only through the functions of this
/// module, which keep it consistent.
pub struct App {
    cur_task: Option<CurrentTask>,
    task_list: Board,
    current_screen: CurrentScreen,
    currently_editing_task: Option<TaskEditState>,
    message: String,
    exit: bool,
    next_id: u64,
}

impl View for App {
    type V = AppView;

    closed spec fn view(&self) -> AppView {
        AppView {
            cur_task: self.cur_task,
            task_list: self.task_list@,
            current_screen: self.current_screen,
            currently_editing_task: match self.currently_editing_task {
                Some(e) => Some(e@),
                None => None,
            },
            message: self.message@,
            exit: self.exit,
            next_id: self.next_id,
        }
    }
}

impl App {
    /// The board's map is keyed as it should be.
    pub closed spec fn keyed(&self) -> bool {
        self.task_list.keyed()
    }

    /// The application is valid: its board is keyed as it should be and its
    /// state is consistent.
    pub open spec fn wf(&self) -> bool {
        self.keyed() && self@.wf()
    }

    /// The application as it starts, with its two demonstration tasks due
    /// now.
    pub fn new() -> (r: App)
        ensures
            r.wf(),
            exists|due: i64| r@ == AppView::demo(due),
    {
        App::with_demo_tasks(now_timestamp())
    }

    /// The application as it starts, with its two demonstration tasks due at
    /// `due`.
    pub fn with_demo_tasks(due: i64) -> (r: App)
        ensures
            r.wf(),
            r@ == AppView::demo(due),
    {
        let first = Task {
            id: 0,
            title: "Task 1".to_owned(),
            kanban_status: KanbanStatus::Todo,
            description: "This is a task".to_owned(),
            due,
        };
        let second = Task {
            id: 1,
            title: "Task 2".to_owned(),
            kanban_status: KanbanStatus::Partial,
            description: "This is another task".to_owned(),
            due,
        };
        let mut task_list = Board::new();
        task_list.append(first);
        assert(!has_id(task_list@, 1)) by {
            assert forall|s: KanbanStatus, i: int| 0 <= i < task_list@[s].len() implies (
            #[trigger] task_list@[s][i]).id != 1 by {
                assert(s == KanbanStatus::Todo && i == 0);
            }
        }
        task_list.append(second);
        proof {
            lemma_demo_wf(due);
        }
        App {
            cur_task: Some(CurrentTask { status: KanbanStatus::Todo, index: 0 }),
            task_list,
            current_screen: CurrentScreen::Main,
            currently_editing_task: None,
            message: String::new(),
            exit: false,
            next_id: 2,
        }
    }

    /// The place of the highlighted task, if a task is highlighted.
    pub fn cur_task(&self) -> (r: Option<CurrentTask>)
        ensures
            r == self@.cur_task,
    {
        self.cur_task
    }

    /// The board.
    pub fn task_list(&self) -> (r: &Board)
        ensures
            r@ == self@.task_list,
            self.wf() ==> r.wf(),
    {
        &self.task_list
    }

    /// The screen that is shown.
    pub fn current_screen(&self) -> (r: CurrentScreen)
        ensures
            r == self@.current_screen,
    {
        self.current_screen
    }

    /// The edit session, while there is one.
    pub fn currently_editing_task(&self) -> (r: Option<&TaskEditState>)
        ensures
            match r {
                Some(e) => self@.currently_editing_task == Some(e@),
                None => self@.currently_editing_task is None,
            },
    {
        self.currently_editing_task.as_ref()
    }

    /// The message for the user.
    pub fn message(&self) -> (r: &String)
        ensures
            r@ == self@.message,
    {
        &self.message
    }

    /// Whether the application has been asked to stop.
    pub fn exit(&self) -> (r: bool)
        ensures
            r == self@.exit,
    {
        self.exit
    }

    /// A copy of the highlighted task, if a task is highlighted.
    pub fn get_cur_task(&self) -> (r: Option<Task>)
        requires
            self.wf(),
        ensures
            match self@.cur_task {
                Some(c) => r is Some && r->0@ == self@.task_list[c.status][c.index as int],
                None => r is None,
            },
    {
        match self.cur_task {
            None => None,
            Some(c) => self.task_list.get(c.status, c.index),
        }
    }

    /// Moves the cursor, if the main screen is shown.
    pub fn move_cursor(&mut self, direction: Direction)
        requires
            old(self).wf(),
        ensures
            final(self).wf(),
            final(self)@ == old(self)@.moved(direction),
    {
        proof {
            lemma_moved_wf(self@, direction);
        }
        match self.current_screen {
            CurrentScreen::Main => {
                self.cur_task = navigate(&self.task_list, self.cur_task, direction);
            },
            CurrentScreen::Editing => {},
        }
    }

    /// Opens an edit session from the main screen: on a copy of the
    /// highlighted task, or on a new task if none is highlighted.
    pub fn enter_edit(&mut self)
        requires
            old(self).wf(),
        ensures
            final(self).wf(),
            final(self)@ == old(self)@.entered_edit(),
    {
        proof {
            lemma_entered_edit_wf(self@);
        }
        match self.current_screen {
            CurrentScreen::Editing => {},
            CurrentScreen::Main => {
                match self.get_cur_task() {
                    Some(task) => {
                        self.currently_editing_task = Some(TaskEditState::open(task));
                        self.current_screen = CurrentScreen::Editing;
                    },
                    None => {
                        if self.next_id < u64::MAX {
                            self.currently_editing_task = Some(TaskEditState::open_new(self.next_id));
                            self.current_screen = CurrentScreen::Editing;
                            self.next_id = self.next_id + 1;
                        } else {
                            self.message = "No more tasks can be created.".to_owned();
                        }
                    },
                }
            },
        }
    }

    /// Saves the edit session's task to the board. The session stays open.
    /// Fails, and changes nothing, if there is no session or the column that
    /// the task goes to is full; the error says which.
    pub fn save_task(&mut self) -> (r: Result<(), String>)
        requires
            old(self).wf(),
        ensures
            final(self).wf(),
            match r {
                Ok(_) => old(self)@.save_error() is None && final(self)@ == old(self)@.saved(),
                Err(reason) => old(self)@.save_error() == Some(reason@) && final(self)@ == old(
                    self,
                )@,
            },
    {
        proof {
            lemma_saved_wf(self@);
        }
        let (task, is_new_task, original_status) = match &self.currently_editing_task {
            None => {
                return Err("No task is currently being edited.".to_owned());
            },
            Some(e) => (e.task.clone(), e.is_new_task, e.original_status),
        };
        let status = task.kanban_status;
        let placed = if is_new_task {
            let n = self.task_list.len(status);
            if n < usize::MAX {
                self.task_list.append(task);
                Some(n)
            } else {
                None
            }
        } else {
            self.task_list.replace_task(original_status, task)
        };
        match placed {
            None => Err("The column is full.".to_owned()),
            Some(index) => {
                self.cur_task = Some(CurrentTask { status, index });
                match &mut self.currently_editing_task {
                    Some(e) => {
                        e.original_status = status;
                        e.is_new_task = false;
                        e.has_changed = false;
                    },
                    None => {},
                }
                Ok(())
            },
        }
    }

    /// Closes the edit session, unless it holds unsaved changes: then it
    /// stays open and the message says so.
    pub fn quit_editing(&mut self)
        ensures
            final(self)@ == old(self)@.quit_edit(),
            old(self).wf() ==> final(self).wf(),
    {
        proof {
            if self.wf() {
                lemma_quit_wf(self@);
            }
        }
        let has_changed = match &self.currently_editing_task {
            Some(e) => e.has_changed,
            None => false,
        };
        if has_changed {
            self.message = "You have unsaved changes. Use 'w' to save or 'x' to discard.".to_owned();
        } else {
            self.force_quit_editing();
        }
    }

    /// Discards the edit session, with whatever it holds.
    pub fn force_quit_editing(&mut self)
        ensures
            final(self)@ == old(self)@.force_quit(),
            old(self).wf() ==> final(self).wf(),
    {
        proof {
            if self.wf() {
                lemma_quit_wf(self@);
            }
        }
        self.currently_editing_task = None;
        self.current_screen = CurrentScreen::Main;
    }

    /// Moves the edit session on to the next field. Returns whether there
    /// is a session.
    pub fn next_field(&mut self) -> (r: bool)
        ensures
            final(self)@ == old(self)@.with_session(|e: EditView| e.forward()),
            old(self).wf() ==> final(self).wf(),
            r == old(self)@.currently_editing_task is Some,
    {
        proof {
            if self.wf() {
                lemma_session_change_wf(self@, |e: EditView| e.forward());
            }
        }
        match &mut self.currently_editing_task {
            Some(e) => {
                e.next_field();
                true
            },
            None => false,
        }
    }

    /// Moves the edit session back to the field before. Returns whether
    /// there is a session.
    pub fn prev_field(&mut self) -> (r: bool)
        ensures
            final(self)@ == old(self)@.with_session(|e: EditView| e.backward()),
            old(self).wf() ==> final(self).wf(),
            r == old(self)@.currently_editing_task is Some,
    {
        proof {
            if self.wf() {
                lemma_session_change_wf(self@, |e: EditView| e.backward());
            }
        }
        match &mut self.currently_editing_task {
            Some(e) => {
                e.prev_field();
                true
            },
            None => false,
        }
    }

    /// Sets how the edit session reads keys.
    pub fn set_mode(&mut self, mode: TaskEditMode)
        ensures
            final(self)@ == old(self)@.with_session(|e: EditView| e.in_mode(mode)),
            old(self).wf() ==> final(self).wf(),
    {
        proof {
            if self.wf() {
                lemma_session_change_wf(self@, |e: EditView| e.in_mode(mode));
            }
        }
        match &mut self.currently_editing_task {
            Some(e) => {
                e.mode = mode;
            },
            None => {},
        }
    }

    /// Types one character into the current field of the edit session.
    pub fn type_char(&mut self, c: char)
        ensures
            final(self)@ == old(self)@.with_session(|e: EditView| e.typed(c)),
            old(self).wf() ==> final(self).wf(),
    {
        proof {
            if self.wf() {
                lemma_session_change_wf(self@, |e: EditView| e.typed(c));
            }
        }
        match &mut self.currently_editing_task {
            Some(e) => {
                e.type_char(c);
            },
            None => {},
        }
    }

    /// Removes the last character of the current field of the edit session.
    pub fn backspace(&mut self)
        ensures
            final(self)@ == old(self)@.with_session(|e: EditView| e.erased()),
            old(self).wf() ==> final(self).wf(),
    {
        proof {
            if self.wf() {
                lemma_session_change_wf(self@, |e: EditView| e.erased());
            }
        }
        match &mut self.currently_editing_task {
            Some(e) => {
                e.backspace();
            },
            None => {},
        }
    }

    /// Sets the due date of the edit session's task, if the session stands
    /// on the due date.
    pub fn set_due(&mut self, due: i64)
        ensures
            final(self)@ == old(self)@.with_session(|e: EditView| e.rescheduled(due)),
            old(self).wf() ==> final(self).wf(),
    {
        proof {
            if self.wf() {
                lemma_session_change_wf(self@, |e: EditView| e.rescheduled(due));
            }
        }
        match &mut self.currently_editing_task {
            Some(e) => {
                e.set_due(due);
            },
            None => {},
        }
    }

    /// Handles one key press: on the main screen it moves the cursor, opens
    /// an edit session or asks to stop; in an edit session it is a command or
    /// a piece of text, by the session's mode.
    pub fn handle_key(&mut self, key: Key)
        requires
            old(self).wf(),
        ensures
            final(self).wf(),
            final(self)@ == old(self)@.step(key),
    {
        proof {
            lemma_step_wf(self@, key);
        }
        match self.current_screen {
            CurrentScreen::Main => self.handle_main_screen(key),
            CurrentScreen::Editing => {
                let mode = match &self.currently_editing_task {
                    Some(e) => e.mode,
                    None => {
                        return ;
                    },
                };
                match mode {
                    TaskEditMode::Normal => self.handle_normal_mode(key),
                    TaskEditMode::Insert => self.handle_insert_mode(key),
                }
            },
        }
    }

    fn handle_main_screen(&mut self, key: Key)
        requires
            old(self).wf(),
        ensures
            final(self)@ == old(self)@.main_step(key),
            final(self).keyed(),
    {
        match key {
            Key::Char(c) => {
                if c == 'q' {
                    self.exit = true;
                } else if c == 'h' {
                    self.move_cursor(Direction::PrevColumn);
                } else if c == 'l' {
                    self.move_cursor(Direction::NextColumn);
                } else if c == 'j' {
                    self.move_cursor(Direction::PrevRow);
                } else if c == 'k' {
                    self.move_cursor(Direction::NextRow);
                } else if c == 'i' {
                    self.enter_edit();
                }
            },
            _ => {},
        }
    }

    fn handle_normal_mode(&mut self, key: Key)
        requires
            old(self).wf(),
        ensures
            final(self)@ == old(self)@.normal_step(key),
            final(self).keyed(),
    {
        match key {
            Key::Char(c) => {
                if c == 'i' {
                    self.set_mode(TaskEditMode::Insert);
                } else if c == 'w' {
                    match self.save_task() {
                        Ok(_) => {},
                        Err(reason) => {
                            self.message = reason;
                        },
                    }
                } else if c == 'q' {
                    self.quit_editing();
                } else if c == 'x' {
                    self.force_quit_editing();
                }
            },
            Key::Tab => {
                let _ = self.next_field();
            },
            Key::BackTab => {
                let _ = self.prev_field();
            },
            _ => {},
        }
    }

    fn handle_insert_mode(&mut self, key: Key)
        requires
            old(self).wf(),
        ensures
            final(self)@ == old(self)@.insert_step(key),
            final(self).keyed(),
    {
        match key {
            Key::Esc => self.set_mode(TaskEditMode::Normal),
            Key::Backspace => self.backspace(),
            Key::Char(c) => self.type_char(c),
            _ => {},
        }
    }
}

} // verus!
