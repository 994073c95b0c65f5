use crate::app::App;
use vstd::prelude::*;

verus! {

/// Closes the edit session and returns to the main screen, unless the
/// session holds unsaved changes: then nothing changes but the message,
/// which asks to save or discard. Never fails.
pub fn quit_editing(app: &mut App) -> (r: Result<(), String>)
    ensures
        r is Ok,
        final(app)@ == old(app)@.quit_edit(),
        old(app).wf() ==> final(app).wf(),
{
    app.quit_editing();
    Ok(())
}

} // verus!
