//! An edit session: the copy of a task that is being worked on, and what
//! typing does to it.

use crate::status::KanbanStatus;
use crate::task::{Task, TaskField, TaskView};
use vstd::prelude::*;

verus! {

/// How keys are read during an edit session: as commands, or as text.
#[derive(Clone, Copy, Debug, PartialEq, Eq, Structural)]
pub enum TaskEditMode {
    Normal,
    Insert,
}

/// An edit session. It works on a copy of the task, so that the board keeps
/// the task as it was until the session is saved.
#[derive(Debug, PartialEq, Eq)]
pub struct TaskEditState {
    /// The field that typing goes to, if any.
    pub currently_editing: Option<TaskField>,
    /// The copy of the task that the session works on.
    pub task: Task,
    /// The column in which the board holds the task.
    pub original_status: KanbanStatus,
    /// Whether the task is not on the board yet.
    pub is_new_task: bool,
    /// Whether the copy holds changes that have not been saved.
    pub has_changed: bool,
    pub mode: TaskEditMode,
}

/// What an edit session holds, with the task by its view.
pub struct EditView {
    pub currently_editing: Option<TaskField>,
    pub task: TaskView,
    pub original_status: KanbanStatus,
    pub is_new_task: bool,
    pub has_changed: bool,
    pub mode: TaskEditMode,
}

impl View for TaskEditState {
    type V = EditView;

    open spec fn view(&self) -> EditView {
        EditView {
            currently_editing: self.currently_editing,
            task: self.task@,
            original_status: self.original_status,
            is_new_task: self.is_new_task,
            has_changed: self.has_changed,
            mode: self.mode,
        }
    }
}

/// The field that follows `field` when fields are cycled forward. From no
/// field the cycle starts at the title.
pub open spec fn field_after(field: Option<TaskField>) -> Option<TaskField> {
    match field {
        Some(f) => Some(f.spec_next()),
        None => Some(TaskField::Title),
    }
}

/// The field that follows `field` when fields are cycled backward. From no
/// field the cycle starts at the title.
pub open spec fn field_before(field: Option<TaskField>) -> Option<TaskField> {
    match field {
        Some(f) => Some(f.spec_prev()),
        None => Some(TaskField::Title),
    }
}

impl EditView {
    /// A fresh session on a task of the board: on the title, in command
    /// mode, with nothing changed.
    pub open spec fn open(task: TaskView) -> EditView {
        EditView {
            currently_editing: Some(TaskField::Title),
            task,
            original_status: task.kanban_status,
            is_new_task: false,
            has_changed: false,
            mode: TaskEditMode::Normal,
        }
    }

    /// A fresh session on a new, empty task with the identifier `id`.
    pub open spec fn open_new(id: u64) -> EditView {
        EditView { is_new_task: true, ..EditView::open(TaskView::empty(id)) }
    }

    /// The text of the field that typing goes to, if that field holds text.
    pub open spec fn text(self) -> Option<Seq<char>> {
        match self.currently_editing {
            Some(TaskField::Title) => Some(self.task.title),
            Some(TaskField::Description) => Some(self.task.description),
            _ => None,
        }
    }

    /// The session with `text` in the field that typing goes to, marked as
    /// changed. Only meant for a field that holds text.
    pub open spec fn with_text(self, text: Seq<char>) -> EditView {
        match self.currently_editing {
            Some(TaskField::Title) => EditView {
                task: TaskView { title: text, ..self.task },
                has_changed: true,
                ..self
            },
            Some(TaskField::Description) => EditView {
                task: TaskView { description: text, ..self.task },
                has_changed: true,
                ..self
            },
            _ => self,
        }
    }

    /// The session after the character `c` has been typed: it is appended to
    /// the text of the current field. On the due date, or on no field, typing
    /// does nothing.
    pub open spec fn typed(self, c: char) -> EditView {
        match self.text() {
            Some(text) => self.with_text(text.push(c)),
            None => self,
        }
    }

    /// The session after the characters of `text` have been typed, one after
    /// the other.
    pub open spec fn typed_all(self, text: Seq<char>) -> EditView
        decreases text.len(),
    {
        if text.len() == 0 {
            self
        } else {
            self.typed_all(text.drop_last()).typed(text.last())
        }
    }

    /// The session after a backspace: the last character of the current
    /// field's text is gone. On an empty text, on the due date, or on no
    /// field, a backspace does nothing.
    pub open spec fn erased(self) -> EditView {
        match self.text() {
            Some(text) => if text.len() > 0 {
                self.with_text(text.drop_last())
            } else {
                self
            },
            None => self,
        }
    }

    /// The session after the due date has been set to `due`, which only
    /// happens while the session stands on the due date. The session counts
    /// as changed if the date is another one than before.
    pub open spec fn rescheduled(self, due: i64) -> EditView {
        if self.currently_editing == Some(TaskField::Due) && due != self.task.due {
            EditView { task: TaskView { due, ..self.task }, has_changed: true, ..self }
        } else {
            self
        }
    }

    /// The session on the next field.
    pub open spec fn forward(self) -> EditView {
        EditView { currently_editing: field_after(self.currently_editing), ..self }
    }

    /// The session on the field before.
    pub open spec fn backward(self) -> EditView {
        EditView { currently_editing: field_before(self.currently_editing), ..self }
    }

    /// The session in the given mode.
    pub open spec fn in_mode(self, mode: TaskEditMode) -> EditView {
        EditView { mode, ..self }
    }

    /// The session as it is after its task has been saved to the board.
    pub open spec fn saved(self) -> EditView {
        EditView {
            original_status: self.task.kanban_status,
            is_new_task: false,
            has_changed: false,
            ..self
        }
    }
}

impl Clone for TaskEditState {
    fn clone(&self) -> (r: TaskEditState)
        ensures
            r == *self,
    {
        TaskEditState {
            currently_editing: self.currently_editing,
            task: self.task.clone(),
            original_status: self.original_status,
            is_new_task: self.is_new_task,
            has_changed: self.has_changed,
            mode: self.mode,
        }
    }
}

impl TaskEditState {
    /// Opens a session on a copy of a task of the board.
    pub fn open(task: Task) -> (r: TaskEditState)
        ensures
            r@ == EditView::open(task@),
    {
        let original_status = task.kanban_status;
        TaskEditState {
            currently_editing: Some(TaskField::Title),
            task,
            original_status,
            is_new_task: false,
            has_changed: false,
            mode: TaskEditMode::Normal,
        }
    }

    /// Opens a session on a new, empty task with the identifier `id`.
    pub fn open_new(id: u64) -> (r: TaskEditState)
        ensures
            r@ == EditView::open_new(id),
    {
        TaskEditState {
            currently_editing: Some(TaskField::Title),
            task: Task::empty(id),
            original_status: KanbanStatus::Todo,
            is_new_task: true,
            has_changed: false,
            mode: TaskEditMode::Normal,
        }
    }

    /// Types one character into the current field.
    pub fn type_char(&mut self, c: char)
        ensures
            final(self)@ == old(self)@.typed(c),
            final(self)@.task != old(self)@.task ==> final(self)@.has_changed,
    {
        match self.currently_editing {
            Some(TaskField::Title) => {
                self.task.title.push(c);
                self.has_changed = true;
            },
            Some(TaskField::Description) => {
                self.task.description.push(c);
                self.has_changed = true;
            },
            _ => {},
        }
    }

    /// Removes the last character of the current field.
    pub fn backspace(&mut self)
        ensures
            final(self)@ == old(self)@.erased(),
            final(self)@.task != old(self)@.task ==> final(self)@.has_changed,
    {
        match self.currently_editing {
            Some(TaskField::Title) => {
                if self.task.title.pop().is_some() {
                    self.has_changed = true;
                }
            },
            Some(TaskField::Description) => {
                if self.task.description.pop().is_some() {
                    self.has_changed = true;
                }
            },
            _ => {},
        }
    }

    /// Sets the due date, if the session stands on it.
    pub fn set_due(&mut self, due: i64)
        ensures
            final(self)@ == old(self)@.rescheduled(due),
            final(self)@.task != old(self)@.task ==> final(self)@.has_changed,
    {
        match self.currently_editing {
            Some(TaskField::Due) => {
                if self.task.due != due {
                    self.task.due = due;
                    self.has_changed = true;
                }
            },
            _ => {},
        }
    }

    /// Moves on to the next field: title, description, due, title.
    pub fn next_field(&mut self)
        ensures
            final(self)@ == old(self)@.forward(),
    {
        self.currently_editing = match self.currently_editing {
            Some(TaskField::Title) => Some(TaskField::Description),
            Some(TaskField::Description) => Some(TaskField::Due),
            Some(TaskField::Due) => Some(TaskField::Title),
            None => Some(TaskField::Title),
        };
    }

    /// Moves back to the field before: title, due, description, title.
    pub fn prev_field(&mut self)
        ensures
            final(self)@ == old(self)@.backward(),
    {
        self.currently_editing = match self.currently_editing {
            Some(TaskField::Title) => Some(TaskField::Due),
            Some(TaskField::Description) => Some(TaskField::Title),
            Some(TaskField::Due) => Some(TaskField::Description),
            None => Some(TaskField::Title),
        };
    }
}

/// The fields form a cycle of length three: three steps forward, or three
/// steps back, lead from every field to itself, and a fourth step forward
/// from the title leads on to the description.
pub proof fn lemma_field_cycle(f: TaskField)
    ensures
        f.spec_next().spec_next().spec_next() == f,
        f.spec_prev().spec_prev().spec_prev() == f,
        f.spec_next() != f,
        f.spec_next().spec_next() != f,
        f.spec_next().spec_prev() == f,
        f.spec_prev().spec_next() == f,
        TaskField::Title.spec_next().spec_next().spec_next().spec_next() == TaskField::Description,
{
}

/// In a session, three steps forward lead back to the field one started
/// from, and nothing else of the session changes on the way.
pub proof fn lemma_session_field_cycle(e: EditView)
    requires
        e.currently_editing is Some,
    ensures
        e.forward().forward().forward() == e,
        e.backward().backward().backward() == e,
        e.forward().backward() == e,
        e.backward().forward() == e,
{
    lemma_field_cycle(e.currently_editing->0);
}

/// Typing changes the text of the current field and marks the session as
/// changed, and nothing else.
pub proof fn lemma_typed_all_keeps(e: EditView, text: Seq<char>)
    ensures
        ({
            let n = e.typed_all(text);
            &&& n.currently_editing == e.currently_editing
            &&& n.mode == e.mode
            &&& n.is_new_task == e.is_new_task
            &&& n.original_status == e.original_status
            &&& n.task.id == e.task.id
            &&& n.task.kanban_status == e.task.kanban_status
            &&& n.task.due == e.task.due
        }),
    decreases text.len(),
{
    if text.len() > 0 {
        lemma_typed_all_keeps(e, text.drop_last());
    }
}

/// Typing a text into a field that holds text appends the whole text to it,
/// and marks the session as changed unless the text was empty.
pub proof fn lemma_typed_all(e: EditView, text: Seq<char>)
    requires
        e.text() is Some,
    ensures
        e.typed_all(text) == if text.len() == 0 {
            e
        } else {
            e.with_text(e.text()->0 + text)
        },
    decreases text.len(),
{
    if text.len() > 0 {
        let front = text.drop_last();
        lemma_typed_all(e, front);
        assert((e.text()->0 + front).push(text.last()) =~= e.text()->0 + text);
        if front.len() == 0 {
            assert(e.text()->0.push(text.last()) =~= e.text()->0 + text);
        }
    }
}

/// Typing and erasing mark the session as changed whenever they change the
/// task at all.
pub proof fn lemma_changes_are_marked(e: EditView, c: char)
    ensures
        e.typed(c).task != e.task ==> e.typed(c).has_changed,
        e.erased().task != e.task ==> e.erased().has_changed,
        e.text() is Some ==> e.typed(c).has_changed && e.typed(c).text() == Some(e.text()->0.push(c)),
        e.text() is Some && e.text()->0.len() > 0 ==> e.erased().has_changed && e.erased().text()
            == Some(e.text()->0.drop_last()),
{
}

} // verus!
