use crate::app::App;
use vstd::prelude::*;

verus! {

/// Discards the edit session, with whatever changes it holds, and returns
/// to the main screen. The board stays as it was. Never fails.
pub fn force_quit_editing(app: &mut App) -> (r: Result<(), String>)
    ensures
        r is Ok,
        final(app)@ == old(app)@.force_quit(),
        old(app).wf() ==> final(app).wf(),
{
    app.force_quit_editing();
    Ok(())
}

} // verus!
