//! The commands of an edit session, one to a module.

pub mod force_quit_editing;
pub mod next_field;
pub mod prev_field;
pub mod quit_editing;
pub mod save_task;
