//! Folding the messages by which threads are selected and prompts are sent.

pub mod laws;

use crate::dirty::{Dirty, ScalarField};
use crate::effect::Effect;
use crate::model::Model;
use vstd::arithmetic::div_mod::{
    lemma_add_mod_noop, lemma_fundamental_div_mod, lemma_mod_multiples_vanish, lemma_mod_twice,
    lemma_small_mod,
};
use vstd::prelude::*;

verus! {

/// A message about the thread list. Rows are those of the list as displayed.
#[derive(Debug, Clone, PartialEq)]
pub enum ThreadMsg {
    Selected(usize),
    NavigateDelta(i32),
}

/// A message about the box in which prompts are written.
#[derive(Debug, Clone, PartialEq)]
pub enum ComposeMsg {
    SendRequested(String),
    StopRequested,
}

/// A message of the user.
#[derive(Debug, Clone, PartialEq)]
pub enum UiMsg {
    Thread(ThreadMsg),
    Compose(ComposeMsg),
}

/// A message.
#[derive(Debug, Clone, PartialEq)]
pub enum Msg {
    Ui(UiMsg),
}

/// The row that lies `delta` rows from `at` in a list of `len` rows whose ends
/// are joined.
pub open spec fn wrapped(at: int, delta: int, len: int) -> int {
    (at + delta) % len
}

/// The row that is selected after a message, in a list of `len` rows.
pub open spec fn selected_after(at: int, len: int, msg: Msg) -> int {
    match msg {
        Msg::Ui(UiMsg::Thread(ThreadMsg::Selected(row))) => if row < len {
            row as int
        } else {
            at
        },
        Msg::Ui(UiMsg::Thread(ThreadMsg::NavigateDelta(delta))) => if len > 0 {
            wrapped(at, delta as int, len)
        } else {
            at
        },
        Msg::Ui(UiMsg::Compose(_)) => at,
    }
}

/// Whether a message selects a row.
pub open spec fn selects(len: int, msg: Msg) -> bool {
    match msg {
        Msg::Ui(UiMsg::Thread(ThreadMsg::Selected(row))) => row < len,
        Msg::Ui(UiMsg::Thread(ThreadMsg::NavigateDelta(_))) => len > 0,
        Msg::Ui(UiMsg::Compose(_)) => false,
    }
}

/// What a message asks to be done: a prompt is sent to the selected thread, and
/// its answer is stopped, where there is a selected thread.
pub open spec fn asked(model: Model, msg: Msg) -> Seq<Effect> {
    if model.selected_thread >= model.threads@.len() {
        Seq::empty()
    } else {
        match msg {
            Msg::Ui(UiMsg::Compose(ComposeMsg::SendRequested(text))) => seq![
                Effect::SendPrompt {
                    thread_id: model.threads@[model.selected_thread as int].thread_id,
                    text,
                },
            ],
            Msg::Ui(UiMsg::Compose(ComposeMsg::StopRequested)) => seq![
                Effect::CancelGeneration { real_index: model.selected_thread },
            ],
            Msg::Ui(UiMsg::Thread(_)) => Seq::empty(),
        }
    }
}

fn wrap_thread_index(at: usize, delta: i32, len: usize) -> (r: usize)
    requires
        0 < len,
    ensures
        r == wrapped(at as int, delta as int, len as int),
{
    let n: u128 = len as u128;
    let start: u128 = (at as u128) % n;
    if delta >= 0 {
        proof {
            lemma_add_mod_noop(at as int, delta as int, len as int);
            lemma_add_mod_noop(start as int, delta as int, len as int);
            lemma_mod_twice(at as int, len as int);
        }
        ((start + delta as u128) % n) as usize
    } else {
        let back: u128 = (-(delta as i64)) as u128;
        let rest: u128 = back % n;
        proof {
            let q = at as int / len as int;
            let p = back as int / len as int;
            lemma_fundamental_div_mod(at as int, len as int);
            lemma_fundamental_div_mod(back as int, len as int);
            assert(start + (n - rest) == len * (1 - q + p) + (at + delta)) by (nonlinear_arith)
                requires
                    at == len * q + start,
                    back == len * p + rest,
                    back == -delta,
                    n == len,
            ;
            lemma_mod_multiples_vanish(1 - q + p, at + delta, len as int);
        }
        ((start + (n - rest)) % n) as usize
    }
}

/// Whether folding a message into a model leads to another, asks for effects, and
/// says what has to be displayed anew.
pub open spec fn folded(
    before: Model,
    msg: Msg,
    after: Model,
    effects: Seq<Effect>,
    dirty: Seq<Dirty>,
) -> bool {
    &&& after.selected_thread == selected_after(
        before.selected_thread as int,
        before.threads@.len() as int,
        msg,
    )
    &&& after == (Model { selected_thread: after.selected_thread, ..before })
    &&& effects == asked(before, msg)
    &&& dirty == if selects(before.threads@.len() as int, msg) {
        seq![Dirty::Scalar(ScalarField::SelectedThread)]
    } else {
        Seq::empty()
    }
}

/// Folds a message into the model.
pub fn update(model: &mut Model, msg: Msg) -> (r: (Vec<Effect>, Vec<Dirty>))
    ensures
        folded(*old(model), msg, *final(model), r.0@, r.1@),
{
    let mut effects: Vec<Effect> = Vec::new();
    let mut dirty: Vec<Dirty> = Vec::new();
    match msg {
        Msg::Ui(UiMsg::Thread(ThreadMsg::Selected(row))) => {
            if row < model.threads.len() {
                model.selected_thread = row;
                dirty.push(Dirty::Scalar(ScalarField::SelectedThread));
            }
        },
        Msg::Ui(UiMsg::Thread(ThreadMsg::NavigateDelta(delta))) => {
            if model.threads.len() > 0 {
                let row: usize = wrap_thread_index(
                    model.selected_thread,
                    delta,
                    model.threads.len(),
                );
                model.selected_thread = row;
                dirty.push(Dirty::Scalar(ScalarField::SelectedThread));
            }
        },
        Msg::Ui(UiMsg::Compose(ComposeMsg::SendRequested(text))) => {
            if model.selected_thread < model.threads.len() {
                let thread_id: String = model.threads[model.selected_thread].thread_id.clone();
                effects.push(Effect::SendPrompt { thread_id, text });
            }
        },
        Msg::Ui(UiMsg::Compose(ComposeMsg::StopRequested)) => {
            if model.selected_thread < model.threads.len() {
                effects.push(Effect::CancelGeneration { real_index: model.selected_thread });
            }
        },
    }
    assert(effects@ =~= asked(*old(model), msg));
    (effects, dirty)
}

/// Whatever is selected or asked for, a selection that was a row of the list
/// stays one.
pub proof fn law_selection_stays_in_the_list(at: int, len: int, msg: Msg)
    requires
        0 <= at < len,
    ensures
        0 <= selected_after(at, len, msg) < len,
{
    match msg {
        Msg::Ui(UiMsg::Thread(ThreadMsg::NavigateDelta(delta))) => {
            assert(0 <= (at + delta) % len < len) by (nonlinear_arith)
                requires
                    0 < len,
            ;
        },
        _ => {},
    }
}

/// Going forth and back by the same number of rows leads to the row where it
/// began.
pub proof fn law_navigation_undone(at: int, delta: int, len: int)
    requires
        0 <= at < len,
    ensures
        wrapped(wrapped(at, delta, len), -delta, len) == at,
{
    lemma_add_mod_noop(at + delta, -delta, len);
    lemma_add_mod_noop((at + delta) % len, -delta, len);
    lemma_mod_twice(at + delta, len);
    lemma_small_mod(at as nat, len as nat);
}

} // verus!
