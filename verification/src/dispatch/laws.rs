//! What messages do, said of the selection and of what is asked for.

use crate::dirty::{Dirty, ScalarField};
use crate::dispatch::{folded, ComposeMsg, Msg, ThreadMsg, UiMsg};
use crate::effect::Effect;
use crate::model::Model;
use vstd::prelude::*;

verus! {

/// A row of the list that is selected is then the selected one, and a row that
/// the list does not have changes nothing. Nothing else of the model changes.
pub proof fn law_selected_row_is_selected(
    before: Model,
    row: usize,
    after: Model,
    effects: Seq<Effect>,
    dirty: Seq<Dirty>,
)
    requires
        folded(before, Msg::Ui(UiMsg::Thread(ThreadMsg::Selected(row))), after, effects, dirty),
    ensures
        row < before.threads@.len() ==> after.selected_thread == row && dirty.len() == 1 && dirty[0]
            == Dirty::Scalar(ScalarField::SelectedThread),
        row >= before.threads@.len() ==> after == before && dirty.len() == 0,
        after == (Model { selected_thread: after.selected_thread, ..before }),
        effects.len() == 0,
{
}

/// One row further is the next one, and after the last comes the first; one row
/// back is the one before, and before the first comes the last.
pub proof fn law_navigation_goes_row_by_row(
    before: Model,
    forth: Model,
    back: Model,
    effects: Seq<Effect>,
    dirty: Seq<Dirty>,
)
    requires
        before.selected_thread < before.threads@.len(),
        folded(
            before,
            Msg::Ui(UiMsg::Thread(ThreadMsg::NavigateDelta(1))),
            forth,
            effects,
            dirty,
        ),
        folded(
            before,
            Msg::Ui(UiMsg::Thread(ThreadMsg::NavigateDelta(-1i32))),
            back,
            effects,
            dirty,
        ),
    ensures
        before.selected_thread + 1 < before.threads@.len() ==> forth.selected_thread
            == before.selected_thread + 1,
        before.selected_thread + 1 == before.threads@.len() ==> forth.selected_thread == 0,
        before.selected_thread > 0 ==> back.selected_thread == before.selected_thread - 1,
        before.selected_thread == 0 ==> back.selected_thread == before.threads@.len() - 1,
        effects.len() == 0,
        dirty.len() == 1,
{
    let at = before.selected_thread as int;
    let len = before.threads@.len() as int;
    assert(at + 1 < len ==> (at + 1) % len == at + 1) by (nonlinear_arith)
        requires
            0 <= at < len,
    ;
    assert(at + 1 == len ==> (at + 1) % len == 0) by (nonlinear_arith)
        requires
            0 <= at < len,
    ;
    assert(at > 0 ==> (at - 1) % len == at - 1) by (nonlinear_arith)
        requires
            0 <= at < len,
    ;
    assert(at == 0 ==> (at - 1) % len == len - 1) by (nonlinear_arith)
        requires
            0 <= at < len,
    ;
}

/// A prompt is asked to be sent, as it was written, to the selected thread, and
/// the answer of the selected thread is asked to be stopped; neither without a
/// selected thread. The model stays as it is.
pub proof fn law_prompt_is_for_the_selected_thread(
    before: Model,
    text: String,
    after_send: Model,
    sent: Seq<Effect>,
    send_dirty: Seq<Dirty>,
    after_stop: Model,
    stopped: Seq<Effect>,
    stop_dirty: Seq<Dirty>,
)
    requires
        folded(
            before,
            Msg::Ui(UiMsg::Compose(ComposeMsg::SendRequested(text))),
            after_send,
            sent,
            send_dirty,
        ),
        folded(
            before,
            Msg::Ui(UiMsg::Compose(ComposeMsg::StopRequested)),
            after_stop,
            stopped,
            stop_dirty,
        ),
    ensures
        after_send == before,
        after_stop == before,
        before.selected_thread < before.threads@.len() ==> {
            &&& sent.len() == 1 && sent[0] == (Effect::SendPrompt {
                thread_id: before.threads@[before.selected_thread as int].thread_id,
                text,
            })
            &&& stopped.len() == 1 && stopped[0] == (Effect::CancelGeneration {
                real_index: before.selected_thread,
            })
        },
        before.selected_thread >= before.threads@.len() ==> sent.len() == 0 && stopped.len() == 0,
        send_dirty.len() == 0,
        stop_dirty.len() == 0,
{
}

} // verus!
