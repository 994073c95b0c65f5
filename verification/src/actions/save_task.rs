use crate::app::App;
use vstd::prelude::*;

verus! {

/// Saves the edit session's task to the board and leaves the session open,
/// with nothing left to save. A new task goes to the end of the column of
/// its status; a task of the board is found again by its identifier and
/// replaced. The cursor then marks the saved task. Fails, and changes
/// nothing, if there is no edit session or the column that the task goes to
/// is full; the error says which.
pub fn save_task(app: &mut App) -> (r: Result<(), String>)
    requires
        old(app).wf(),
    ensures
        final(app).wf(),
        match r {
            Ok(_) => old(app)@.save_error() is None && final(app)@ == old(app)@.saved(),
            Err(reason) => old(app)@.save_error() == Some(reason@) && final(app)@ == old(app)@,
        },
{
    app.save_task()
}

} // verus!
