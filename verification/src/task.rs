//! A task record and the fields of it that can be edited.

use crate::status::KanbanStatus;
use vstd::prelude::*;

verus! {

/// One unit of work. A task is known by its `id`, which it receives when it
/// is created and keeps for good; two tasks may agree in every other field.
#[derive(Debug, PartialEq, Eq)]
pub struct Task {
    pub id: u64,
    pub title: String,
    pub kanban_status: KanbanStatus,
    pub description: String,
    /// When the task is due, in seconds since the Unix epoch.
    pub due: i64,
}

/// What a task holds, with its texts as sequences of characters.
pub struct TaskView {
    pub id: u64,
    pub title: Seq<char>,
    pub kanban_status: KanbanStatus,
    pub description: Seq<char>,
    pub due: i64,
}

impl View for Task {
    type V = TaskView;

    open spec fn view(&self) -> TaskView {
        TaskView {
            id: self.id,
            title: self.title@,
            kanban_status: self.kanban_status,
            description: self.description@,
            due: self.due,
        }
    }
}

impl TaskView {
    /// The task with the given identifier and nothing filled in: no title, no
    /// description, due at the epoch, still to do.
    pub open spec fn empty(id: u64) -> TaskView {
        TaskView {
            id,
            title: Seq::empty(),
            kanban_status: KanbanStatus::Todo,
            description: Seq::empty(),
            due: 0,
        }
    }
}

impl Task {
    /// A task with the given identifier and nothing filled in.
    pub fn empty(id: u64) -> (r: Task)
        ensures
            r@ == TaskView::empty(id),
    {
        Task {
            id,
            title: String::new(),
            kanban_status: KanbanStatus::Todo,
            description: String::new(),
            due: 0,
        }
    }
}

impl Default for Task {
    /// The empty task with the identifier 0.
    fn default() -> (r: Task)
        ensures
            r@ == TaskView::empty(0),
    {
        Task::empty(0)
    }
}

impl Clone for Task {
    fn clone(&self) -> (r: Task)
        ensures
            r == *self,
    {
        Task {
            id: self.id,
            title: self.title.clone(),
            kanban_status: self.kanban_status,
            description: self.description.clone(),
            due: self.due,
        }
    }
}

/// The views of a sequence of tasks, in the same order.
pub open spec fn task_views(tasks: Seq<Task>) -> Seq<TaskView> {
    tasks.map_values(|t: Task| t@)
}

/// The fields of a task that an edit session can stand on.
#[derive(Clone, Copy, Debug, PartialEq, Eq, Structural)]
pub enum TaskField {
    Title,
    Description,
    Due,
}

impl TaskField {
    /// The field after this one: title, description, due, and title again.
    pub open spec fn spec_next(self) -> TaskField {
        match self {
            TaskField::Title => TaskField::Description,
            TaskField::Description => TaskField::Due,
            TaskField::Due => TaskField::Title,
        }
    }

    /// The field before this one: title, due, description, and title again.
    pub open spec fn spec_prev(self) -> TaskField {
        match self {
            TaskField::Title => TaskField::Due,
            TaskField::Description => TaskField::Title,
            TaskField::Due => TaskField::Description,
        }
    }

    /// Whether the field holds text that can be typed into.
    pub open spec fn is_text(self) -> bool {
        self != TaskField::Due
    }
}

} // verus!
