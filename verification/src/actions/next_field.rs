use crate::app::App;
use crate::edit::EditView;
use crate::model::not_editing_message;
use vstd::prelude::*;

verus! {

/// Moves the edit session on to the next field: from the title to the
/// description, on to the due date, and back to the title. Fails, and
/// changes nothing, if there is no edit session.
pub fn next_field(app: &mut App) -> (r: Result<(), String>)
    ensures
        final(app)@ == old(app)@.with_session(|e: EditView| e.forward()),
        old(app).wf() ==> final(app).wf(),
        match r {
            Ok(_) => old(app)@.currently_editing_task is Some,
            Err(reason) => old(app)@.currently_editing_task is None && reason@
                == not_editing_message(),
        },
{
    if app.next_field() {
        Ok(())
    } else {
        Err("No task is currently being edited.".to_owned())
    }
}

} // verus!
