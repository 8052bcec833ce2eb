//! What the stand-in agent answers, said of its answers.

use crate::json::{
    field, has_only, items_field, json_parsed, json_shown, lemma_fields_are, lemma_four_fields,
    lemma_one_field, lemma_two_fields, str_field, Json,
};
use crate::mock_agent::{
    begun, configured, configured_answer, event_json, event_line, loads_as, model_choice,
    model_option, options_json, prompted, replayed, session_name, sessions_listed, setting_text,
    taken_up, told_first, with_saved, without, AgentView, SessionLine,
};
use crate::mock_agent::state::{
    distinct_ids, law_put_session_is_found, session_of, sessions_in, sessions_read, ReplayTurn,
    SessionState, StateView,
};
use crate::mock_agent::turns::{
    chosen_word, decision_told, known_offers, persona_offers, persona_tag, planned_updates,
    replay_of, slow_end, terminal_failure, terminal_next, terminal_told, terminal_words, turn_of,
    updates_view, AgentUpdate, PermissionAnswer, PlanPriority, PlanStatus, TerminalAnswer,
    TerminalEnd, TerminalStep, TurnEnd, TurnView, UpdateView,
};
use crate::runtime_snapshot::{list_json, Stored};
use crate::runtime_snapshot::laws::{law_lists_are_read_in_order, listed_in};
use crate::text::{decimal, uppered};
use vstd::prelude::*;

verus! {

proof fn lemma_words()
    ensures
        "slow "@.len() == 5,
        "stream "@.len() == 7,
        "permission "@.len() == 11,
        "terminal "@.len() == 9,
        "slow "@[0] == 's' && "slow "@[1] == 'l',
        "stream "@[0] == 's' && "stream "@[1] == 't',
        "permission "@[0] == 'p',
        "terminal "@[0] == 't',
{
    reveal_strlit("slow ");
    reveal_strlit("stream ");
    reveal_strlit("permission ");
    reveal_strlit("terminal ");
}

/// What a prompt asks for is told by the word that it starts with, and what
/// follows the word is what it is asked with: a slow thought, a streamed reply, a
/// permission, or a terminal.
pub proof fn law_first_word_decides_the_turn(persona: Seq<char>, rest: Seq<char>)
    ensures
        turn_of(persona, "slow "@ + rest) == TurnView::Slow(
            UpdateView::Thought("considering (slow): "@ + rest),
        ),
        turn_of(persona, "stream "@ + rest) matches TurnView::Stream(pieces)
            && crate::mock_agent::turns::joined_pieces(pieces) == persona_tag(persona) + rest,
        turn_of(persona, "permission "@ + rest) == TurnView::Permission(rest),
        turn_of(persona, "terminal "@ + rest) == TurnView::Terminal(rest),
{
    lemma_words();
    let slow = "slow "@ + rest;
    let stream = "stream "@ + rest;
    let permission = "permission "@ + rest;
    let terminal = "terminal "@ + rest;
    assert(slow.take(5) =~= "slow "@);
    assert(slow.skip(5) =~= rest);
    assert(stream.take(7) =~= "stream "@);
    assert(stream.skip(7) =~= rest);
    assert(stream[1] == 't');
    assert(permission.take(11) =~= "permission "@);
    assert(permission.skip(11) =~= rest);
    assert(permission[0] == 'p');
    assert(terminal.take(9) =~= "terminal "@);
    assert(terminal.skip(9) =~= rest);
    assert(terminal[0] == 't');
    crate::mock_agent::turns::law_chunks_are_the_text(persona_tag(persona) + rest);
}

/// Any other prompt is answered at once by a thought about it, the call of a tool
/// with it, and itself in upper case under the tag of the persona.
pub proof fn law_plain_turn_tells(persona: Seq<char>, text: Seq<char>)
    requires
        !"slow "@.is_prefix_of(text),
        !"stream "@.is_prefix_of(text),
        !"permission "@.is_prefix_of(text),
        !"terminal "@.is_prefix_of(text),
    ensures
        turn_of(persona, text) matches TurnView::Plain(told) && {
            &&& told.len() == 3
            &&& told[0] == UpdateView::Thought("considering: "@ + text)
            &&& told[1] == UpdateView::Tool("mock-tool-1"@, "mock_tool(input="@ + text + ")"@)
            &&& told[2] == UpdateView::Message(persona_tag(persona) + uppered(text))
        },
{
}

/// A reply bears the tag of the persona in upper case, and none without a
/// persona.
pub proof fn law_tag_is_the_persona(persona: Seq<char>)
    ensures
        persona.len() == 0 ==> persona_tag(persona).len() == 0,
        persona.len() > 0 ==> persona_tag(persona) == "["@ + uppered(persona) + "] "@,
{
}

/// A session that begins is known by the next number, has had no turn, and uses
/// the first model; the sessions before it stay.
pub proof fn law_new_session_is_known(agent: AgentView, other: Seq<char>)
    requires
        distinct_ids(agent.sessions),
    ensures
        ({
            let id = "mock-session-"@ + decimal(agent.next_id as nat);
            let now = begun(agent);
            &&& id == session_name(agent.next_id)
            &&& session_of(now.sessions, id) matches Some(state) && state.turn_count == 0
                && state.replay_turns.len() == 0 && state.model == "mock-model-a"@ && state.title
                == "New session"@
            &&& other != id ==> session_of(now.sessions, other) == session_of(
                agent.sessions,
                other,
            )
            &&& now.persona == agent.persona && now.offers == agent.offers
            &&& agent.next_id < u64::MAX - 1 ==> now.next_id == agent.next_id + 2
        }),
{
    law_put_session_is_found(
        agent.sessions,
        session_name(agent.next_id),
        crate::mock_agent::new_state(crate::mock_agent::after(agent.next_id)),
        other,
    );
}

/// A plain turn of a known session is counted and remembered at the end of its
/// turns, and is its title; the model stays. Any other turn, and a session that
/// is not known, leave everything as it is.
pub proof fn law_plain_turns_are_remembered(agent: AgentView, id: Seq<char>, text: Seq<char>)
    requires
        distinct_ids(agent.sessions),
    ensures
        ({
            let now = prompted(agent, id, text);
            let plain = turn_of(agent.persona, text) is Plain;
            &&& !plain || session_of(agent.sessions, id) is None ==> now == agent
            &&& plain ==> (session_of(agent.sessions, id) matches Some(was) ==> (session_of(
                now.sessions,
                id,
            ) matches Some(state) && {
                &&& was.turn_count < u64::MAX ==> state.turn_count == was.turn_count + 1
                &&& state.replay_turns == was.replay_turns.push(text)
                &&& state.model == was.model
                &&& text.is_suffix_of(state.title)
                &&& was.turn_count < u64::MAX ==> state.title == "Turn "@ + decimal(
                    (was.turn_count + 1) as nat,
                ) + ": "@ + text
            }))
            &&& now.persona == agent.persona && now.offers == agent.offers
        }),
{
    if session_of(agent.sessions, id) is Some && turn_of(agent.persona, text) is Plain {
        let was = session_of(agent.sessions, id)->0;
        let turned = crate::mock_agent::turned(was, text, agent.next_id);
        law_put_session_is_found(agent.sessions, id, turned, id);
        assert(turned.title.skip(turned.title.len() - text.len()) =~= text);
    }
}

/// The commands of the persona are told before the first turn of a session and
/// not again; a plan and its title are told only where a plan is asked for.
pub proof fn law_commands_are_told_first(agent: AgentView, id: Seq<char>, text: Seq<char>)
    ensures
        ({
            let told = told_first(agent, id, text);
            let commands = persona_offers(agent.offers, agent.persona, 0);
            let fresh = session_of(agent.sessions, id) is None || session_of(
                agent.sessions,
                id,
            )->0.turn_count == 0;
            let plan = "plan "@.is_prefix_of(text);
            &&& fresh && commands.len() > 0 ==> told.len() > 0 && told[0] == UpdateView::Commands(
                commands,
            )
            &&& !fresh || commands.len() == 0 ==> told.len() == (if plan {
                2int
            } else {
                0
            })
            &&& !plan && fresh && commands.len() > 0 ==> told.len() == 1
            &&& plan ==> told.len() >= 2 && told[told.len() - 2] is Plan && told.last() is Title
        }),
{
}

/// The persona's own offer is told: the first that is its, and none where none
/// is.
pub proof fn law_persona_has_its_offer(
    offers: Seq<(Seq<char>, Seq<(Seq<char>, Seq<char>)>)>,
    persona: Seq<char>,
    k: int,
)
    ensures
        0 <= k < offers.len() && offers[k].0 == persona && (forall|i: int|
            0 <= i < k ==> (#[trigger] offers[i]).0 != persona) ==> persona_offers(
            offers,
            persona,
            0,
        ) == offers[k].1,
        (forall|i: int| 0 <= i < offers.len() ==> (#[trigger] offers[i]).0 != persona)
            ==> persona_offers(offers, persona, 0).len() == 0,
{
    if 0 <= k < offers.len() && offers[k].0 == persona && forall|i: int|
        0 <= i < k ==> (#[trigger] offers[i]).0 != persona {
        lemma_offer_found(offers, persona, 0, k);
    }
    if forall|i: int| 0 <= i < offers.len() ==> (#[trigger] offers[i]).0 != persona {
        lemma_offer_missing(offers, persona, 0);
    }
}

proof fn lemma_offer_found(
    offers: Seq<(Seq<char>, Seq<(Seq<char>, Seq<char>)>)>,
    persona: Seq<char>,
    from: int,
    k: int,
)
    requires
        0 <= from <= k < offers.len(),
        offers[k].0 == persona,
        forall|i: int| from <= i < k ==> (#[trigger] offers[i]).0 != persona,
    ensures
        persona_offers(offers, persona, from) == offers[k].1,
    decreases k - from,
{
    if from < k {
        lemma_offer_found(offers, persona, from + 1, k);
    }
}

proof fn lemma_offer_missing(
    offers: Seq<(Seq<char>, Seq<(Seq<char>, Seq<char>)>)>,
    persona: Seq<char>,
    from: int,
)
    requires
        0 <= from,
        forall|i: int| 0 <= i < offers.len() ==> (#[trigger] offers[i]).0 != persona,
    ensures
        persona_offers(offers, persona, from).len() == 0,
    decreases offers.len() - from,
{
    if from < offers.len() {
        lemma_offer_missing(offers, persona, from + 1);
    }
}

/// Loading a session tells its turns in order, each as it was told: one after the
/// other, three things for each.
pub proof fn law_load_tells_all_turns(persona: Seq<char>, turns: Seq<Seq<char>>, k: int)
    requires
        0 <= k < turns.len(),
    ensures
        replayed(persona, turns).len() == 3 * turns.len(),
        replayed(persona, turns).subrange(3 * k, 3 * k + 3) == replay_of(persona, turns[k]),
    decreases turns.len(),
{
    lemma_replayed_len(persona, turns);
    let before = replayed(persona, turns.drop_last());
    lemma_replayed_len(persona, turns.drop_last());
    if k < turns.len() - 1 {
        law_load_tells_all_turns(persona, turns.drop_last(), k);
        assert(turns.drop_last()[k] == turns[k]);
        assert(replayed(persona, turns).subrange(3 * k, 3 * k + 3) =~= before.subrange(
            3 * k,
            3 * k + 3,
        ));
    } else {
        assert(replayed(persona, turns).subrange(3 * k, 3 * k + 3) =~= replay_of(
            persona,
            turns[k],
        ));
    }
}

proof fn lemma_replayed_len(persona: Seq<char>, turns: Seq<Seq<char>>)
    ensures
        replayed(persona, turns).len() == 3 * turns.len(),
    decreases turns.len(),
{
    if turns.len() > 0 {
        lemma_replayed_len(persona, turns.drop_last());
    }
}

/// The list of sessions has a line for each, in order, with its id, its title and
/// its time.
pub proof fn law_sessions_are_listed(
    lines: Seq<SessionLine>,
    sessions: Seq<(Seq<char>, StateView)>,
    k: int,
)
    requires
        sessions_listed(lines, sessions),
        0 <= k < sessions.len(),
    ensures
        lines.len() == sessions.len(),
        lines[k].session_id@ == sessions[k].0,
        lines[k].title@ == sessions[k].1.title,
        lines[k].updated_at@ == sessions[k].1.updated_at,
        lines[k].cwd@ == "/"@,
{
    assert(crate::mock_agent::line_of(lines[k], sessions[k]));
}

/// Only the model of the session that was named is set, to the value that was
/// given; whatever else is asked to be set leaves the agent as it is.
pub proof fn law_only_the_model_is_set(
    agent: AgentView,
    id: Seq<char>,
    config_id: Seq<char>,
    value: Seq<char>,
    other: Seq<char>,
)
    requires
        distinct_ids(agent.sessions),
    ensures
        ({
            let now = configured(agent, id, config_id, value);
            &&& session_of(agent.sessions, id) is None ==> now == agent
            &&& session_of(agent.sessions, id) matches Some(was) ==> (session_of(
                now.sessions,
                id,
            ) matches Some(state) && {
                &&& config_id == "model"@ ==> state.model == value
                &&& config_id != "model"@ ==> state.model == was.model
                &&& state.turn_count == was.turn_count && state.replay_turns == was.replay_turns
                    && state.title == was.title && state.updated_at == was.updated_at
            })
            &&& other != id ==> session_of(now.sessions, other) == session_of(
                agent.sessions,
                other,
            )
            &&& now.next_id == agent.next_id
        }),
{
    if session_of(agent.sessions, id) is Some {
        let was = session_of(agent.sessions, id)->0;
        let set = StateView {
            model: crate::mock_agent::model_after(was, config_id, value),
            ..was
        };
        law_put_session_is_found(agent.sessions, id, set, other);
    }
}

/// The answer to a setting tells the model that then holds, among the two that
/// there are.
pub proof fn law_answer_tells_the_model(
    agent: AgentView,
    id: Seq<char>,
    config_id: Seq<char>,
    value: Seq<char>,
)
    ensures
        ({
            let answer = configured_answer(agent, id, config_id, value);
            &&& items_field(answer, "configOptions"@) matches Some(options)
            &&& options.len() == 1
            &&& str_field(options[0], "id"@) == Some("model"@)
            &&& str_field(options[0], "type"@) == Some("select"@)
            &&& session_of(agent.sessions, id) is None || config_id == "model"@ ==> str_field(
                options[0],
                "currentValue"@,
            ) == Some(value)
            &&& session_of(agent.sessions, id) is Some && config_id != "model"@ ==> str_field(
                options[0],
                "currentValue"@,
            ) == Some(session_of(agent.sessions, id)->0.model)
            &&& items_field(options[0], "options"@) matches Some(choices)
            &&& choices.len() == 2
            &&& str_field(choices[0], "value"@) == Some("mock-model-a"@)
            &&& str_field(choices[1], "value"@) == Some("mock-model-b"@)
        }),
        setting_text(config_id, value) == config_id + "="@ + value,
{
    let current = match session_of(agent.sessions, id) {
        Some(state) => crate::mock_agent::model_after(state, config_id, value),
        None => value,
    };
    lemma_one_field("configOptions"@, options_json(current));
    reveal_strlit("id");
    reveal_strlit("name");
    reveal_strlit("type");
    reveal_strlit("currentValue");
    reveal_strlit("options");
    reveal_strlit("value");
    assert("id"@.len() == 2 && "name"@.len() == 4 && "currentValue"@.len() == 12);
    assert("options"@.len() == 7 && "value"@.len() == 5);
    assert("type"@.len() == 4);
    assert("name"@[0] != "type"@[0]);
    let fields = model_option(current)->Object_0;
    assert(fields[0].0 == "id"@ && fields[1].0 == "name"@ && fields[2].0 == "type"@);
    assert(fields[3].0 == "currentValue"@ && fields[4].0 == "options"@);
    lemma_fields_are(fields);
    lemma_two_fields(
        "value"@,
        Json::Text("mock-model-a"@),
        "name"@,
        Json::Text("Mock Model A"@),
    );
    lemma_two_fields(
        "value"@,
        Json::Text("mock-model-b"@),
        "name"@,
        Json::Text("Mock Model B"@),
    );
}

/// What the agent was asked is recorded by its method, its session, what it was
/// asked with, and the persona, each under its own name, on a line.
pub proof fn law_events_are_recorded(
    method: Seq<char>,
    session_id: Option<Seq<char>>,
    detail: Seq<char>,
    persona: Seq<char>,
)
    ensures
        ({
            let record = event_json(method, session_id, detail, persona);
            &&& str_field(record, "method"@) == Some(method)
            &&& str_field(record, "detail"@) == Some(detail)
            &&& str_field(record, "persona"@) == Some(persona)
            &&& session_id matches Some(id) ==> str_field(record, "session_id"@) == Some(id)
            &&& session_id is None ==> field(record, "session_id"@) == Some(Json::Null)
            &&& has_only(record, seq!["method"@, "session_id"@, "detail"@, "persona"@])
            &&& event_line(method, session_id, detail, persona) == crate::json::json_text(record)
                + "\n"@
        }),
{
    reveal_strlit("method");
    reveal_strlit("session_id");
    reveal_strlit("detail");
    reveal_strlit("persona");
    assert("method"@.len() == 6 && "session_id"@.len() == 10 && "detail"@.len() == 6);
    assert("persona"@.len() == 7);
    assert("method"@[0] != "detail"@[0]);
    lemma_four_fields(
        "method"@,
        Json::Text(method),
        "session_id"@,
        crate::mock_agent::event_session(session_id),
        "detail"@,
        Json::Text(detail),
        "persona"@,
        Json::Text(persona),
    );
}

/// What the client decided is told in its word: the option that it chose, or that
/// it cancelled, or that it did not answer.
pub proof fn law_decision_is_told(persona: Seq<char>, id: String)
    ensures
        chosen_word(PermissionAnswer::Selected(id)) == id@,
        chosen_word(PermissionAnswer::Cancelled) == "cancelled"@,
        chosen_word(PermissionAnswer::NoResponse) == "no-response"@,
        decision_told(persona, PermissionAnswer::Selected(id)) == UpdateView::Message(
            persona_tag(persona) + "permission decision: "@ + id@,
        ),
        decision_told(persona, PermissionAnswer::Cancelled) == UpdateView::Message(
            persona_tag(persona) + "permission decision: "@ + "cancelled"@,
        ),
{
}

/// A turn that waited ends as cancelled exactly where it was cancelled.
pub proof fn law_waiting_turn_ends(cancelled: bool)
    ensures
        slow_end(cancelled) == TurnEnd::Cancelled <==> cancelled,
        slow_end(cancelled) == TurnEnd::EndTurn <==> !cancelled,
{
}

/// A terminal is asked again only while it has said nothing and has not ended,
/// and at most forty times; what it says is told as it says it, and a failure is
/// recorded with its reason.
pub proof fn law_terminal_is_asked_until_it_speaks(
    asked: usize,
    output: String,
    exited: bool,
    error: String,
    persona: Seq<char>,
)
    ensures
        ({
            let next = terminal_next(asked, TerminalAnswer::Gave { output, exited });
            &&& output@.len() > 0 || exited || asked >= 39 ==> next == TerminalStep::Ended(
                TerminalEnd::Output(output),
            )
            &&& output@.len() == 0 && !exited && asked < 39 ==> next == TerminalStep::Ask
        }),
        terminal_next(asked, TerminalAnswer::Failed(error)) == TerminalStep::Ended(
            TerminalEnd::OutputFailed(error),
        ),
        terminal_words(TerminalEnd::Output(output)) == output@,
        terminal_told(persona, TerminalEnd::Output(output)) == UpdateView::Message(
            persona_tag(persona) + output@,
        ),
        terminal_failure(TerminalEnd::Output(output)) is None,
        terminal_failure(TerminalEnd::OutputFailed(error)) matches Some((method, why)) && method
            == "terminal/output_error"@ && why == error@,
        terminal_failure(TerminalEnd::CreateFailed(error)) matches Some((method, why)) && method
            == "terminal/create_error"@ && why == error@,
{
}

/// A known session is loaded with all its turns, and taken up; one that is not
/// known is refused.
pub proof fn law_known_sessions_are_loaded(
    agent: AgentView,
    id: Seq<char>,
    loaded: Result<Vec<AgentUpdate>, String>,
    resumed: Result<(), String>,
)
    requires
        loads_as(agent, id, loaded),
        taken_up(agent, id, resumed),
    ensures
        session_of(agent.sessions, id) is Some <==> loaded is Ok,
        session_of(agent.sessions, id) is Some <==> resumed is Ok,
        session_of(agent.sessions, id) matches Some(state) ==> updates_view(loaded->Ok_0@).len()
            == 3 * state.replay_turns.len(),
        loaded matches Err(why) ==> why@ == "unknown session id"@,
        resumed matches Err(why) ==> why@ == "unknown session id"@,
{
    if let Some(state) = session_of(agent.sessions, id) {
        lemma_replayed_len(agent.persona, state.replay_turns);
    }
}

/// A session that is taken away is no longer known; all others are, and nothing
/// else of the agent changes.
pub proof fn law_deleted_session_is_gone(agent: AgentView, id: Seq<char>, other: Seq<char>)
    requires
        distinct_ids(agent.sessions),
    ensures
        session_of(without(agent, id).sessions, id) is None,
        other != id ==> session_of(without(agent, id).sessions, other) == session_of(
            agent.sessions,
            other,
        ),
        without(agent, id).next_id == agent.next_id,
        without(agent, id).persona == agent.persona,
{
    crate::mock_agent::state::law_removed_session_is_gone(agent.sessions, id, other);
}

/// A session is kept with its title, when it was last used, how many turns it had,
/// what was said in them, and its model.
pub proof fn law_session_is_kept_by_its_fields(v: StateView, prompt: Seq<char>)
    ensures
        ({
            let j = SessionState::encoded(v);
            &&& str_field(j, "title"@) == Some(v.title)
            &&& str_field(j, "updated_at"@) == Some(v.updated_at)
            &&& field(j, "turn_count"@) == Some(Json::Int(v.turn_count as int))
            &&& field(j, "replay_turns"@) == Some(list_json::<ReplayTurn>(v.replay_turns))
            &&& str_field(j, "model"@) == Some(v.model)
        }),
        str_field(ReplayTurn::encoded(prompt), "prompt_text"@) == Some(prompt),
{
    reveal_strlit("title");
    reveal_strlit("updated_at");
    reveal_strlit("turn_count");
    reveal_strlit("replay_turns");
    reveal_strlit("model");
    assert("title"@.len() == 5 && "model"@.len() == 5 && "title"@[0] != "model"@[0]);
    assert("updated_at"@.len() == 10 && "turn_count"@.len() == 10);
    assert("updated_at"@[0] != "turn_count"@[0]);
    assert("replay_turns"@.len() == 12);
    let fields = SessionState::encoded(v)->Object_0;
    lemma_fields_are(fields);
    assert(fields[0].0 == "title"@ && fields[1].0 == "updated_at"@);
    assert(fields[2].0 == "turn_count"@ && fields[3].0 == "replay_turns"@);
    assert(fields[4].0 == "model"@);
    lemma_one_field("prompt_text"@, Json::Text(prompt));
}

/// A session is read with the fields that it is kept with, and needs them all.
pub proof fn law_session_is_read_by_its_fields(j: Json, v: StateView)
    requires
        j is Object,
    ensures
        SessionState::decoded(j) == Some(v) ==> {
            &&& str_field(j, "title"@) == Some(v.title)
            &&& str_field(j, "updated_at"@) == Some(v.updated_at)
            &&& field(j, "turn_count"@) == Some(Json::Int(v.turn_count as int))
            &&& listed_in::<ReplayTurn>(v.replay_turns, j, "replay_turns"@)
            &&& str_field(j, "model"@) == Some(v.model)
        },
        str_field(j, "title"@) is None ==> SessionState::decoded(j) is None,
        str_field(j, "updated_at"@) is None ==> SessionState::decoded(j) is None,
        field(j, "turn_count"@) is None ==> SessionState::decoded(j) is None,
        field(j, "replay_turns"@) is None ==> SessionState::decoded(j) is None,
        str_field(j, "model"@) is None ==> SessionState::decoded(j) is None,
        ReplayTurn::decoded(j) == str_field(j, "prompt_text"@),
{
    law_lists_are_read_in_order::<ReplayTurn>(j, "replay_turns"@, 0);
}

/// The agent takes the saved sessions in place of its own where they can be read,
/// and stays as it is where they cannot.
pub proof fn law_saved_sessions_take_the_place(agent: AgentView, saved: Seq<char>)
    ensures
        sessions_in(saved) matches Some(sessions) ==> with_saved(agent, saved).sessions == sessions,
        sessions_in(saved) is None ==> with_saved(agent, saved) == agent,
        with_saved(agent, saved).persona == agent.persona,
        with_saved(agent, saved).next_id == agent.next_id,
        json_parsed(saved) is None || json_shown(saved) is None ==> sessions_in(saved) is None,
        sessions_in(saved) matches Some(sessions) ==> (json_parsed(saved) matches Some(j)
            && sessions_read(j) == Some(sessions)),
{
}

/// A model is offered by its value and its name.
pub proof fn law_model_is_offered_by_its_name(value: Seq<char>, name: Seq<char>)
    ensures
        str_field(model_choice(value, name), "value"@) == Some(value),
        str_field(model_choice(value, name), "name"@) == Some(name),
        has_only(model_choice(value, name), seq!["value"@, "name"@]),
{
    reveal_strlit("value");
    reveal_strlit("name");
    assert("value"@.len() == 5 && "name"@.len() == 4);
    lemma_two_fields("value"@, Json::Text(value), "name"@, Json::Text(name));
}

/// A session that is written as a list is read as the one with the items as its
/// fields, and a turn likewise.
pub proof fn law_session_is_read_by_position(
    title: Json,
    updated: Json,
    count: Json,
    turns: Json,
    model: Json,
)
    ensures
        SessionState::decoded(Json::Array(seq![title, updated, count, turns, model]))
            == SessionState::decoded(
            Json::Object(
                seq![
                    ("title"@, title),
                    ("updated_at"@, updated),
                    ("turn_count"@, count),
                    ("replay_turns"@, turns),
                    ("model"@, model),
                ],
            ),
        ),
        ReplayTurn::decoded(Json::Array(seq![title])) == ReplayTurn::decoded(
            Json::Object(seq![("prompt_text"@, title)]),
        ),
{
    let items = seq![title, updated, count, turns, model];
    let names = seq!["title"@, "updated_at"@, "turn_count"@, "replay_turns"@, "model"@];
    let fields = seq![
        ("title"@, title),
        ("updated_at"@, updated),
        ("turn_count"@, count),
        ("replay_turns"@, turns),
        ("model"@, model),
    ];
    assert(Seq::new(items.len(), |i: int| (names[i], items[i])) =~= fields);
    let one = seq![title];
    let name = seq!["prompt_text"@];
    assert(Seq::new(one.len(), |i: int| (name[i], one[i])) =~= seq![("prompt_text"@, title)]);
}

/// What is said of a terminal is what it printed, or which step of it failed.
pub proof fn law_terminal_says_what_it_printed(text: String)
    ensures
        terminal_words(TerminalEnd::Output(text)) == text@,
        terminal_words(TerminalEnd::OutputFailed(text)) == "terminal-output-error"@,
        terminal_words(TerminalEnd::CreateFailed(text)) == "terminal-create-error"@,
{
}

/// The commands that are offered are named after their persona, and what each is
/// for names the persona too.
pub proof fn law_offers_name_their_persona(i: int, k: int)
    requires
        0 <= i < known_offers().len(),
        0 <= k < known_offers()[i].1.len(),
    ensures
        ({
            let (persona, commands) = known_offers()[i];
            let (name, purpose) = commands[k];
            &&& persona == "codex"@ || persona == "grok"@
            &&& persona == "codex"@ ==> "codex_"@.is_prefix_of(name) && "(codex persona)"@.is_suffix_of(
                purpose,
            )
            &&& persona == "grok"@ ==> "grok_"@.is_prefix_of(name) && "(grok persona)"@.is_suffix_of(
                purpose,
            )
            &&& name == "codex_plan"@ ==> "Draft an execution plan"@.is_prefix_of(purpose)
            &&& name == "codex_review"@ ==> "Review a diff"@.is_prefix_of(purpose)
            &&& name == "grok_search"@ ==> "Search the web"@.is_prefix_of(purpose)
        }),
        known_offers().len() == 2,
        known_offers()[0].1.len() == 2,
        known_offers()[1].1.len() == 1,
{
    reveal_strlit("codex");
    reveal_strlit("grok");
    reveal_strlit("codex_");
    reveal_strlit("grok_");
    reveal_strlit("codex_plan");
    reveal_strlit("codex_review");
    reveal_strlit("grok_search");
    reveal_strlit("(codex persona)");
    reveal_strlit("(grok persona)");
    reveal_strlit("Draft an execution plan");
    reveal_strlit("Review a diff");
    reveal_strlit("Search the web");
    reveal_strlit("Draft an execution plan (codex persona)");
    reveal_strlit("Review a diff (codex persona)");
    reveal_strlit("Search the web (grok persona)");
    assert("codex"@.len() == 5 && "grok"@.len() == 4);
    assert("codex_plan"@.len() == 10 && "codex_review"@.len() == 12 && "grok_search"@.len() == 11);
    assert("codex_plan"@.take(6) =~= "codex_"@);
    assert("codex_review"@.take(6) =~= "codex_"@);
    assert("grok_search"@.take(5) =~= "grok_"@);
    let plan = "Draft an execution plan (codex persona)"@;
    let review = "Review a diff (codex persona)"@;
    let search = "Search the web (grok persona)"@;
    assert(plan.skip(plan.len() - 15) =~= "(codex persona)"@);
    assert(review.skip(review.len() - 15) =~= "(codex persona)"@);
    assert(search.skip(search.len() - 14) =~= "(grok persona)"@);
    assert(plan.take(23) =~= "Draft an execution plan"@);
    assert(review.take(13) =~= "Review a diff"@);
    assert(search.take(14) =~= "Search the web"@);
}

/// The plan that the agent tells is followed from its first step on: a step that is
/// under way stands behind those that are done; and the session is named.
pub proof fn law_plan_is_followed_in_order()
    ensures
        planned_updates().len() == 2,
        planned_updates()[0] matches UpdateView::Plan(steps) && steps.len() == 2 && steps[0].0
            == "Read the file"@ && steps[0].1 == PlanPriority::High && steps[0].2
            == PlanStatus::Completed && steps[1].0 == "Fix the bug"@ && steps[1].1
            == PlanPriority::Medium && steps[1].2 == PlanStatus::InProgress,
        planned_updates()[1] == UpdateView::Title("Fixing the login bug"@),
{
}

} // verus!
