//! What the model says, said of its rows and threads.

use crate::model::{has_terminal, real_index_of, slot, Model, PanelState};
use vstd::prelude::*;

verus! {

/// A row shows the thread that stands at its place in the list of rows; there is
/// no thread behind the last row.
pub proof fn law_rows_show_their_threads(model: Model, row: int)
    ensures
        0 <= row < model.visible_indices@.len() ==> real_index_of(model, row) == Some(
            model.visible_indices@[row],
        ),
        row < 0 || row >= model.visible_indices@.len() ==> real_index_of(model, row) is None,
{
}

/// A terminal of the panel is that of a thread that the bridge has.
pub proof fn law_terminals_belong_to_threads(panel: PanelState, index: int)
    ensures
        has_terminal(panel, index) <==> (slot(panel, index) matches Some(thread)
            && thread.local_terminal),
{
}

} // verus!
