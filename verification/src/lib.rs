//! A kanban task board for the terminal: the board, the cursor that moves over
//! it, and the state machine that edits and saves tasks.

pub mod actions;
pub mod app;
pub mod board;
pub mod clock;
pub mod columns;
pub mod cursor;
pub mod edit;
pub mod laws;
pub mod model;
pub mod status;
pub mod task;
pub mod text;
