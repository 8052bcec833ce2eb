//! What the stand-in agent says in a turn.

use crate::text::{
    char_width, chars_of, empty_text, join, join3, same, strip_prefix, text_from_chars, texts,
    upper_text, uppered, width,
};
use vstd::prelude::*;
use vstd::utf8::encode_utf8;

verus! {

/// A command that the agent offers.
#[derive(Debug, PartialEq)]
pub struct AgentCommand {
    pub name: String,
    pub description: String,
}

/// How much a step of a plan matters.
#[derive(Clone, Copy, Debug, PartialEq, Eq, Structural)]
pub enum PlanPriority {
    High,
    Medium,
}

/// How far a step of a plan is.
#[derive(Clone, Copy, Debug, PartialEq, Eq, Structural)]
pub enum PlanStatus {
    Completed,
    InProgress,
}

/// A step of a plan.
#[derive(Debug, PartialEq)]
pub struct PlanStep {
    pub content: String,
    pub priority: PlanPriority,
    pub status: PlanStatus,
}

/// One thing that the agent tells of a session.
#[derive(Debug, PartialEq)]
pub enum AgentUpdate {
    Commands(Vec<AgentCommand>),
    Plan(Vec<PlanStep>),
    Title(String),
    Thought(String),
    Tool { id: String, title: String },
    Message(String),
}

/// An [`AgentUpdate`] as a mathematical value.
#[verifier::ext_equal]
pub enum UpdateView {
    Commands(Seq<(Seq<char>, Seq<char>)>),
    Plan(Seq<(Seq<char>, PlanPriority, PlanStatus)>),
    Title(Seq<char>),
    Thought(Seq<char>),
    Tool(Seq<char>, Seq<char>),
    Message(Seq<char>),
}

/// The names and descriptions of commands.
pub open spec fn commands_view(v: Seq<AgentCommand>) -> Seq<(Seq<char>, Seq<char>)> {
    v.map_values(|c: AgentCommand| (c.name@, c.description@))
}

/// The steps of a plan as mathematical values.
pub open spec fn plan_view(v: Seq<PlanStep>) -> Seq<(Seq<char>, PlanPriority, PlanStatus)> {
    v.map_values(|s: PlanStep| (s.content@, s.priority, s.status))
}

impl View for AgentUpdate {
    type V = UpdateView;

    open spec fn view(&self) -> UpdateView {
        match self {
            AgentUpdate::Commands(v) => UpdateView::Commands(commands_view(v@)),
            AgentUpdate::Plan(v) => UpdateView::Plan(plan_view(v@)),
            AgentUpdate::Title(s) => UpdateView::Title(s@),
            AgentUpdate::Thought(s) => UpdateView::Thought(s@),
            AgentUpdate::Tool { id, title } => UpdateView::Tool(id@, title@),
            AgentUpdate::Message(s) => UpdateView::Message(s@),
        }
    }
}

/// A list of updates as mathematical values.
pub open spec fn updates_view(v: Seq<AgentUpdate>) -> Seq<UpdateView> {
    v.map_values(|u: AgentUpdate| u@)
}

/// The tag before every reply of a persona; an agent without one has no tag.
pub open spec fn persona_tag(persona: Seq<char>) -> Seq<char> {
    if persona.len() == 0 {
        Seq::empty()
    } else {
        "["@ + uppered(persona) + "] "@
    }
}

/// The tag before every reply of a persona; an agent without one has no tag.
pub fn persona_prefix(persona: &str) -> (r: String)
    ensures
        r@ == persona_tag(persona@),
{
    if persona.unicode_len() == 0 {
        empty_text()
    } else {
        let upper: String = upper_text(persona);
        join3("[", upper.as_str(), "] ")
    }
}

/// The commands of one persona.
#[derive(Debug, PartialEq)]
pub struct PersonaOffer {
    pub persona: String,
    pub commands: Vec<AgentCommand>,
}

/// A [`PersonaOffer`] as a mathematical value: the persona, and the names and
/// descriptions of its commands.
pub open spec fn offers_view(v: Seq<PersonaOffer>) -> Seq<
    (Seq<char>, Seq<(Seq<char>, Seq<char>)>),
> {
    v.map_values(|o: PersonaOffer| (o.persona@, commands_view(o.commands@)))
}

/// The commands that a persona offers, from the first of the offers at `from` or
/// later that are its own; one without an offer has none.
pub open spec fn persona_offers(
    offers: Seq<(Seq<char>, Seq<(Seq<char>, Seq<char>)>)>,
    persona: Seq<char>,
    from: int,
) -> Seq<(Seq<char>, Seq<char>)>
    decreases offers.len() - from,
{
    if from < 0 || from >= offers.len() {
        Seq::empty()
    } else if offers[from].0 == persona {
        offers[from].1
    } else {
        persona_offers(offers, persona, from + 1)
    }
}

fn command(name: &str, description: &str) -> (r: AgentCommand)
    ensures
        r.name@ == name@,
        r.description@ == description@,
{
    AgentCommand { name: name.to_owned(), description: description.to_owned() }
}

/// The offers of the personas that the agent knows by itself.
pub open spec fn known_offers() -> Seq<(Seq<char>, Seq<(Seq<char>, Seq<char>)>)> {
    seq![
        (
            "codex"@,
            seq![
                ("codex_plan"@, "Draft an execution plan (codex persona)"@),
                ("codex_review"@, "Review a diff (codex persona)"@),
            ],
        ),
        ("grok"@, seq![("grok_search"@, "Search the web (grok persona)"@)]),
    ]
}

/// The offers of the personas that the agent knows by itself.
pub fn built_in_offers() -> (r: Vec<PersonaOffer>)
    ensures
        offers_view(r@) == known_offers(),
{
    let mut codex: Vec<AgentCommand> = Vec::new();
    codex.push(command("codex_plan", "Draft an execution plan (codex persona)"));
    codex.push(command("codex_review", "Review a diff (codex persona)"));
    assert(commands_view(codex@) =~= known_offers()[0].1);
    let mut grok: Vec<AgentCommand> = Vec::new();
    grok.push(command("grok_search", "Search the web (grok persona)"));
    assert(commands_view(grok@) =~= known_offers()[1].1);
    let mut out: Vec<PersonaOffer> = Vec::new();
    out.push(PersonaOffer { persona: "codex".to_owned(), commands: codex });
    out.push(PersonaOffer { persona: "grok".to_owned(), commands: grok });
    assert(offers_view(out@) =~= known_offers());
    out
}

/// The commands that a persona offers.
pub fn persona_commands(offers: &Vec<PersonaOffer>, persona: &str) -> (r: Vec<AgentCommand>)
    ensures
        commands_view(r@) == persona_offers(offers_view(offers@), persona@, 0),
{
    let ghost all = offers_view(offers@);
    let mut i: usize = 0;
    while i < offers.len()
        invariant
            i <= offers@.len(),
            all == offers_view(offers@),
            persona_offers(all, persona@, 0) == persona_offers(all, persona@, i as int),
        decreases offers@.len() - i,
    {
        if same(offers[i].persona.as_str(), persona) {
            return copy_commands(&offers[i].commands);
        }
        i += 1;
    }
    let none: Vec<AgentCommand> = Vec::new();
    assert(commands_view(none@) =~= Seq::empty());
    none
}

fn copy_commands(commands: &Vec<AgentCommand>) -> (r: Vec<AgentCommand>)
    ensures
        commands_view(r@) == commands_view(commands@),
{
    let mut out: Vec<AgentCommand> = Vec::new();
    let mut i: usize = 0;
    while i < commands.len()
        invariant
            i <= commands@.len(),
            out@.len() == i,
            forall|k: int|
                0 <= k < i ==> (#[trigger] out@[k]).name@ == commands@[k].name@
                    && out@[k].description@ == commands@[k].description@,
        decreases commands@.len() - i,
    {
        out.push(command(commands[i].name.as_str(), commands[i].description.as_str()));
        i += 1;
    }
    assert(commands_view(out@) =~= commands_view(commands@));
    out
}

/// What a turn tells: a thought, a tool call, and the prompt in upper case.
pub open spec fn replay_of(persona: Seq<char>, text: Seq<char>) -> Seq<UpdateView> {
    seq![
        UpdateView::Thought("considering: "@ + text),
        UpdateView::Tool("mock-tool-1"@, "mock_tool(input="@ + text + ")"@),
        UpdateView::Message(persona_tag(persona) + uppered(text)),
    ]
}

/// What a turn tells: a thought, a tool call, and the prompt in upper case.
pub fn send_replay(persona: &str, text: &str) -> (r: Vec<AgentUpdate>)
    ensures
        updates_view(r@) == replay_of(persona@, text@),
{
    let tag: String = persona_prefix(persona);
    let upper: String = upper_text(text);
    let mut out: Vec<AgentUpdate> = Vec::new();
    out.push(AgentUpdate::Thought(join("considering: ", text)));
    out.push(
        AgentUpdate::Tool {
            id: "mock-tool-1".to_owned(),
            title: join3("mock_tool(input=", text, ")"),
        },
    );
    out.push(AgentUpdate::Message(join(tag.as_str(), upper.as_str())));
    assert(updates_view(out@) =~= replay_of(persona@, text@));
    out
}

/// The plan that a prompt can ask for, and the title that comes with it.
pub open spec fn planned_updates() -> Seq<UpdateView> {
    seq![
        UpdateView::Plan(
            seq![
                ("Read the file"@, PlanPriority::High, PlanStatus::Completed),
                ("Fix the bug"@, PlanPriority::Medium, PlanStatus::InProgress),
            ],
        ),
        UpdateView::Title("Fixing the login bug"@),
    ]
}

/// The plan that a prompt can ask for, and the title that comes with it.
pub fn plan_updates() -> (r: Vec<AgentUpdate>)
    ensures
        updates_view(r@) == planned_updates(),
{
    let mut steps: Vec<PlanStep> = Vec::new();
    steps.push(
        PlanStep {
            content: "Read the file".to_owned(),
            priority: PlanPriority::High,
            status: PlanStatus::Completed,
        },
    );
    steps.push(
        PlanStep {
            content: "Fix the bug".to_owned(),
            priority: PlanPriority::Medium,
            status: PlanStatus::InProgress,
        },
    );
    assert(plan_view(steps@) =~= planned_updates()[0]->Plan_0);
    let mut out: Vec<AgentUpdate> = Vec::new();
    out.push(AgentUpdate::Plan(steps));
    out.push(AgentUpdate::Title("Fixing the login bug".to_owned()));
    assert(updates_view(out@) =~= planned_updates());
    out
}

/// How many bytes of a streamed reply are sent at a time, at least.
pub const CHUNK_LEN: usize = 6;

/// How many characters a chunk takes from the front of a text: the fewest that
/// have `need` bytes, or all that there are.
pub open spec fn chunk_chars(s: Seq<char>, need: int) -> nat
    decreases s.len(),
{
    if s.len() == 0 || need <= 0 {
        0
    } else {
        1 + chunk_chars(s.skip(1), need - width(s[0]))
    }
}

/// The pieces in which a text is streamed.
pub open spec fn chunks(s: Seq<char>) -> Seq<Seq<char>>
    decreases s.len(),
    via chunks_decreases
{
    if s.len() == 0 {
        Seq::empty()
    } else {
        let n = chunk_chars(s, CHUNK_LEN as int) as int;
        seq![s.take(n)] + chunks(s.skip(n))
    }
}

#[via_fn]
proof fn chunks_decreases(s: Seq<char>) {
    lemma_chunk_chars(s, CHUNK_LEN as int);
}

proof fn lemma_chunk_chars(s: Seq<char>, need: int)
    ensures
        chunk_chars(s, need) <= s.len(),
        s.len() > 0 && need > 0 ==> chunk_chars(s, need) >= 1,
    decreases s.len(),
{
    if s.len() > 0 && need > 0 {
        lemma_chunk_chars(s.skip(1), need - width(s[0]));
    }
}

/// The pieces in which a text is streamed: each is as short as it can be with
/// its bytes, and no character is cut.
pub fn stream_chunks(body: &str) -> (r: Vec<String>)
    ensures
        texts(r@) == chunks(body@),
{
    let chars: Vec<char> = chars_of(body);
    let mut out: Vec<String> = Vec::new();
    let mut sent: usize = 0;
    assert(chars@.skip(0) =~= chars@);
    assert(texts(out@) =~= Seq::empty());
    assert(texts(out@) + chunks(chars@) =~= chunks(chars@));
    while sent < chars.len()
        invariant
            sent <= chars@.len(),
            texts(out@) + chunks(chars@.skip(sent as int)) == chunks(chars@),
        decreases chars@.len() - sent,
    {
        let ghost rest = chars@.skip(sent as int);
        let mut end: usize = sent;
        let mut bytes: usize = 0;
        let mut piece: Vec<char> = Vec::new();
        assert(rest.skip(0) =~= rest);
        while end < chars.len() && bytes < CHUNK_LEN
            invariant
                sent <= end <= chars@.len(),
                bytes <= CHUNK_LEN + 3,
                rest == chars@.skip(sent as int),
                piece@ == rest.take(end - sent),
                chunk_chars(rest, CHUNK_LEN as int) == (end - sent) + chunk_chars(
                    rest.skip(end - sent),
                    CHUNK_LEN - bytes,
                ),
            decreases chars@.len() - end,
        {
            let ghost tail = rest.skip(end - sent);
            assert(tail[0] == chars@[end as int]);
            assert(tail.skip(1) =~= rest.skip(end + 1 - sent));
            piece.push(chars[end]);
            bytes += char_width(chars[end]);
            end += 1;
            assert(piece@ =~= rest.take(end - sent));
        }
        let ghost before = texts(out@);
        out.push(text_from_chars(piece.as_slice()));
        proof {
            lemma_chunk_chars(rest, CHUNK_LEN as int);
            let n = chunk_chars(rest, CHUNK_LEN as int) as int;
            assert(n == end - sent);
            assert(texts(out@) =~= before.push(rest.take(n)));
            assert(chars@.skip(end as int) =~= rest.skip(n));
            assert(before.push(rest.take(n)) + chunks(rest.skip(n)) =~= before + (seq![
                rest.take(n),
            ] + chunks(rest.skip(n))));
        }
        sent = end;
    }
    assert(chunks(chars@.skip(sent as int)) =~= Seq::empty());
    assert(texts(out@) + Seq::empty() =~= texts(out@));
    out
}

/// Texts put together, in order.
pub open spec fn joined_pieces(v: Seq<Seq<char>>) -> Seq<char>
    decreases v.len(),
{
    if v.len() == 0 {
        Seq::empty()
    } else {
        v[0] + joined_pieces(v.skip(1))
    }
}

/// The pieces of a streamed text are the text: nothing is lost between them.
pub proof fn law_chunks_are_the_text(s: Seq<char>)
    ensures
        joined_pieces(chunks(s)) == s,
    decreases s.len(),
{
    if s.len() > 0 {
        let n = chunk_chars(s, CHUNK_LEN as int) as int;
        lemma_chunk_chars(s, CHUNK_LEN as int);
        law_chunks_are_the_text(s.skip(n));
        assert(chunks(s).skip(1) =~= chunks(s.skip(n)));
        assert(s.take(n) + s.skip(n) =~= s);
    }
}

proof fn lemma_encoded_len(s: Seq<char>)
    requires
        s.len() > 0,
    ensures
        encode_utf8(s).len() == width(s[0]) + encode_utf8(s.skip(1)).len(),
{
    vstd::utf8::char_is_scalar(s[0]);
    assert(s.drop_first() =~= s.skip(1));
    assert(encode_utf8(s) == vstd::utf8::encode_scalar(s[0] as u32) + encode_utf8(s.drop_first()));
    assert(vstd::utf8::encode_scalar(s[0] as u32).len() == width(s[0]));
}

proof fn lemma_chunk_bytes(s: Seq<char>, need: int)
    requires
        need > 0,
    ensures
        encode_utf8(s.take(chunk_chars(s, need) as int)).len() < need + 4,
        chunk_chars(s, need) < s.len() ==> encode_utf8(s.take(chunk_chars(s, need) as int)).len()
            >= need,
    decreases s.len(),
{
    let n = chunk_chars(s, need) as int;
    lemma_chunk_chars(s, need);
    let none = Seq::<char>::empty();
    assert(encode_utf8(none).len() == 0);
    if s.len() == 0 {
        assert(s.take(n) =~= none);
    } else {
        lemma_encoded_len(s.take(n));
        assert(s.take(n)[0] == s[0]);
        assert(s.take(n).skip(1) =~= s.skip(1).take(n - 1));
        if need - width(s[0]) > 0 {
            lemma_chunk_bytes(s.skip(1), need - width(s[0]));
        } else {
            assert(chunk_chars(s.skip(1), need - width(s[0])) == 0);
            assert(n == 1);
            assert(s.skip(1).take(0) =~= none);
            assert(encode_utf8(s.take(n)).len() == width(s[0]));
        }
    }
}

/// Every piece but the last has at least the bytes of a chunk, and none has
/// more than the rest of one character beyond them.
pub proof fn law_chunks_are_even(s: Seq<char>, i: int)
    requires
        0 <= i < chunks(s).len(),
    ensures
        encode_utf8(chunks(s)[i]).len() < CHUNK_LEN + 4,
        i < chunks(s).len() - 1 ==> encode_utf8(chunks(s)[i]).len() >= CHUNK_LEN,
        chunks(s)[i].len() > 0,
    decreases s.len(),
{
    let n = chunk_chars(s, CHUNK_LEN as int) as int;
    lemma_chunk_chars(s, CHUNK_LEN as int);
    lemma_chunk_bytes(s, CHUNK_LEN as int);
    if i == 0 {
        if n == s.len() {
            assert(chunks(s.skip(n)) =~= Seq::empty());
        }
    } else {
        assert(chunks(s)[i] == chunks(s.skip(n))[i - 1]);
        law_chunks_are_even(s.skip(n), i - 1);
    }
}

/// The tag of a reply tells which persona it is from: where two tags are the
/// same, so are the personas, but for upper and lower case.
pub proof fn law_tags_tell_personas_apart(a: Seq<char>, b: Seq<char>)
    requires
        a.len() > 0,
        b.len() > 0,
        persona_tag(a) == persona_tag(b),
    ensures
        uppered(a) == uppered(b),
{
    reveal_strlit("[");
    reveal_strlit("] ");
    let left = persona_tag(a);
    let right = persona_tag(b);
    assert(uppered(a) =~= left.subrange(1, left.len() - 2));
    assert(uppered(b) =~= right.subrange(1, right.len() - 2));
}

/// Whether no command stands in two of the offers.
pub open spec fn offers_apart(offers: Seq<(Seq<char>, Seq<(Seq<char>, Seq<char>)>)>) -> bool {
    forall|i: int, k: int, a: int, b: int|
        0 <= i < k < offers.len() && 0 <= a < offers[i].1.len() && 0 <= b < offers[k].1.len()
            ==> (#[trigger] offers[i].1[a]).0 != (#[trigger] offers[k].1[b]).0
}

proof fn lemma_offered_at(
    offers: Seq<(Seq<char>, Seq<(Seq<char>, Seq<char>)>)>,
    persona: Seq<char>,
    from: int,
) -> (at: int)
    requires
        0 <= from,
        persona_offers(offers, persona, from).len() > 0,
    ensures
        from <= at < offers.len(),
        offers[at].0 == persona,
        offers[at].1 == persona_offers(offers, persona, from),
    decreases offers.len() - from,
{
    if offers[from].0 == persona {
        from
    } else {
        lemma_offered_at(offers, persona, from + 1)
    }
}

/// Where no command stands in two offers, no command is offered by two personas.
pub proof fn law_personas_share_no_command(
    offers: Seq<(Seq<char>, Seq<(Seq<char>, Seq<char>)>)>,
    a: Seq<char>,
    b: Seq<char>,
    i: int,
    k: int,
)
    requires
        offers_apart(offers),
        a != b,
        0 <= i < persona_offers(offers, a, 0).len(),
        0 <= k < persona_offers(offers, b, 0).len(),
    ensures
        persona_offers(offers, a, 0)[i].0 != persona_offers(offers, b, 0)[k].0,
{
    let left = lemma_offered_at(offers, a, 0);
    let right = lemma_offered_at(offers, b, 0);
    assert(left != right);
    assert(offers[left].1[i].0 != offers[right].1[k].0);
}

/// No command stands in two of the offers that the agent knows by itself.
pub proof fn law_known_offers_are_apart()
    ensures
        offers_apart(known_offers()),
{
    reveal_strlit("codex_plan");
    reveal_strlit("codex_review");
    reveal_strlit("grok_search");
    assert("codex_plan"@[0] == 'c');
    assert("codex_review"@[0] == 'c');
    assert("grok_search"@[0] == 'g');
    let offers = known_offers();
    assert forall|i: int, k: int, a: int, b: int|
        0 <= i < k < offers.len() && 0 <= a < offers[i].1.len() && 0 <= b
            < offers[k].1.len() implies (#[trigger] offers[i].1[a]).0 != (
    #[trigger] offers[k].1[b]).0 by {
        assert(offers[i].1[a].0[0] == 'c');
        assert(offers[k].1[b].0[0] == 'g');
    }
}

/// What the client decided on a request for permission.
#[derive(Debug, PartialEq)]
pub enum PermissionAnswer {
    Selected(String),
    Cancelled,
    NoResponse,
}

/// The word for what the client decided.
pub open spec fn chosen_word(answer: PermissionAnswer) -> Seq<char> {
    match answer {
        PermissionAnswer::Selected(id) => id@,
        PermissionAnswer::Cancelled => "cancelled"@,
        PermissionAnswer::NoResponse => "no-response"@,
    }
}

/// The message that is told after the client decided.
pub open spec fn decision_told(persona: Seq<char>, answer: PermissionAnswer) -> UpdateView {
    UpdateView::Message(persona_tag(persona) + "permission decision: "@ + chosen_word(answer))
}

/// What is told after the client decided: the word for it, which is recorded,
/// and a message with it.
pub fn permission_decided(persona: &str, answer: PermissionAnswer) -> (r: (String, AgentUpdate))
    ensures
        r.0@ == chosen_word(answer),
        r.1@ == decision_told(persona@, answer),
{
    let chosen: String = match answer {
        PermissionAnswer::Selected(id) => id,
        PermissionAnswer::Cancelled => "cancelled".to_owned(),
        PermissionAnswer::NoResponse => "no-response".to_owned(),
    };
    let tag: String = persona_prefix(persona);
    let message: String = join3(tag.as_str(), "permission decision: ", chosen.as_str());
    (chosen, AgentUpdate::Message(message))
}

/// How a turn ends.
#[derive(Clone, Copy, Debug, PartialEq, Eq, Structural)]
pub enum TurnEnd {
    EndTurn,
    Cancelled,
}

/// How long a turn that waits to be cancelled waits, in seconds.
pub const SLOW_TURN_SECONDS: u64 = 20;

/// How a turn that waited ends.
pub open spec fn slow_end(cancelled: bool) -> TurnEnd {
    if cancelled {
        TurnEnd::Cancelled
    } else {
        TurnEnd::EndTurn
    }
}

/// How a turn that waited ends: it was cancelled, or it waited long enough.
pub fn slow_turn_ended(cancelled: bool) -> (r: TurnEnd)
    ensures
        r == slow_end(cancelled),
{
    if cancelled {
        TurnEnd::Cancelled
    } else {
        TurnEnd::EndTurn
    }
}

/// How often a terminal is asked for its output.
pub const TERMINAL_ASKS: usize = 40;

/// What a terminal gave when it was asked for its output.
#[derive(Debug, PartialEq)]
pub enum TerminalAnswer {
    Gave { output: String, exited: bool },
    Failed(String),
}

/// What comes after an answer of a terminal.
#[derive(Debug, PartialEq)]
pub enum TerminalStep {
    Ask,
    Ended(TerminalEnd),
}

/// How the use of a terminal ended.
#[derive(Debug, PartialEq)]
pub enum TerminalEnd {
    Output(String),
    OutputFailed(String),
    CreateFailed(String),
}

/// What comes after the answer of a terminal.
pub open spec fn terminal_next(asked: usize, answer: TerminalAnswer) -> TerminalStep {
    match answer {
        TerminalAnswer::Failed(error) => TerminalStep::Ended(TerminalEnd::OutputFailed(error)),
        TerminalAnswer::Gave { output, exited } => if output@.len() > 0 || exited || asked + 1
            >= TERMINAL_ASKS {
            TerminalStep::Ended(TerminalEnd::Output(output))
        } else {
            TerminalStep::Ask
        },
    }
}

/// What comes after the answer of a terminal that was asked `asked` times
/// before: its first output ends it, and so do its exit, a failure, and the
/// last time that it is asked.
pub fn terminal_step(asked: usize, answer: TerminalAnswer) -> (r: TerminalStep)
    ensures
        r == terminal_next(asked, answer),
{
    match answer {
        TerminalAnswer::Failed(error) => TerminalStep::Ended(TerminalEnd::OutputFailed(error)),
        TerminalAnswer::Gave { output, exited } => {
            if output.as_str().unicode_len() > 0 || exited || asked >= TERMINAL_ASKS - 1 {
                TerminalStep::Ended(TerminalEnd::Output(output))
            } else {
                TerminalStep::Ask
            }
        },
    }
}

/// What a terminal has to say in the end.
pub open spec fn terminal_words(end: TerminalEnd) -> Seq<char> {
    match end {
        TerminalEnd::Output(output) => output@,
        TerminalEnd::OutputFailed(_) => "terminal-output-error"@,
        TerminalEnd::CreateFailed(_) => "terminal-create-error"@,
    }
}

/// What is told of a terminal in the end: the failure to record, if any, with
/// its method; what it had to say, which is recorded too; and a message with
/// it.
#[derive(Debug, PartialEq)]
pub struct TerminalReport {
    pub failure: Option<(String, String)>,
    pub output: String,
    pub update: AgentUpdate,
}

/// The failure of a terminal, with the method that it is recorded under.
pub open spec fn terminal_failure(end: TerminalEnd) -> Option<(Seq<char>, Seq<char>)> {
    match end {
        TerminalEnd::Output(_) => None,
        TerminalEnd::OutputFailed(error) => Some(("terminal/output_error"@, error@)),
        TerminalEnd::CreateFailed(error) => Some(("terminal/create_error"@, error@)),
    }
}

/// A method and what it is recorded with.
pub open spec fn failure_view(failure: Option<(String, String)>) -> Option<
    (Seq<char>, Seq<char>),
> {
    match failure {
        Some((method, error)) => Some((method@, error@)),
        None => None,
    }
}

/// The message that is told of a terminal in the end.
pub open spec fn terminal_told(persona: Seq<char>, end: TerminalEnd) -> UpdateView {
    UpdateView::Message(persona_tag(persona) + terminal_words(end))
}

/// What is told of a terminal in the end.
pub fn terminal_ended(persona: &str, end: TerminalEnd) -> (r: TerminalReport)
    ensures
        failure_view(r.failure) == terminal_failure(end),
        r.output@ == terminal_words(end),
        r.update@ == terminal_told(persona@, end),
{
    let (failure, output): (Option<(String, String)>, String) = match end {
        TerminalEnd::Output(output) => (None, output),
        TerminalEnd::OutputFailed(error) => (
            Some(("terminal/output_error".to_owned(), error)),
            "terminal-output-error".to_owned(),
        ),
        TerminalEnd::CreateFailed(error) => (
            Some(("terminal/create_error".to_owned(), error)),
            "terminal-create-error".to_owned(),
        ),
    };
    let tag: String = persona_prefix(persona);
    let message: String = join(tag.as_str(), output.as_str());
    TerminalReport { failure, output, update: AgentUpdate::Message(message) }
}

/// The turn that a prompt asks for.
#[derive(Debug, PartialEq)]
pub enum Turn {
    /// Tell the thought, then wait to be cancelled.
    Slow { thought: AgentUpdate },
    /// Tell each piece as a message of its own.
    Stream { pieces: Vec<String> },
    /// Ask for permission to use a tool of this title.
    Permission { title: String },
    /// Have a terminal say this.
    Terminal { argument: String },
    /// Tell all of it at once; the session remembers the turn.
    Plain { updates: Vec<AgentUpdate> },
}

/// A [`Turn`] as a mathematical value.
#[verifier::ext_equal]
pub enum TurnView {
    Slow(UpdateView),
    Stream(Seq<Seq<char>>),
    Permission(Seq<char>),
    Terminal(Seq<char>),
    Plain(Seq<UpdateView>),
}

impl View for Turn {
    type V = TurnView;

    open spec fn view(&self) -> TurnView {
        match self {
            Turn::Slow { thought } => TurnView::Slow(thought@),
            Turn::Stream { pieces } => TurnView::Stream(texts(pieces@)),
            Turn::Permission { title } => TurnView::Permission(title@),
            Turn::Terminal { argument } => TurnView::Terminal(argument@),
            Turn::Plain { updates } => TurnView::Plain(updates_view(updates@)),
        }
    }
}

/// What follows a word at the start of a text.
pub open spec fn behind(text: Seq<char>, word: Seq<char>) -> Seq<char> {
    text.skip(word.len() as int)
}

/// The turn that a prompt asks for, by the word that it starts with.
pub open spec fn turn_of(persona: Seq<char>, text: Seq<char>) -> TurnView {
    if "slow "@.is_prefix_of(text) {
        TurnView::Slow(UpdateView::Thought("considering (slow): "@ + behind(text, "slow "@)))
    } else if "stream "@.is_prefix_of(text) {
        TurnView::Stream(chunks(persona_tag(persona) + behind(text, "stream "@)))
    } else if "permission "@.is_prefix_of(text) {
        TurnView::Permission(behind(text, "permission "@))
    } else if "terminal "@.is_prefix_of(text) {
        TurnView::Terminal(behind(text, "terminal "@))
    } else {
        TurnView::Plain(replay_of(persona, text))
    }
}

/// Whether a prompt is answered by a plain turn, which its session counts: it
/// starts with none of the words for another one.
pub open spec fn counts_as_turn(text: Seq<char>) -> bool {
    !("slow "@.is_prefix_of(text) || "stream "@.is_prefix_of(text) || "permission "@.is_prefix_of(
        text,
    ) || "terminal "@.is_prefix_of(text))
}

/// The turn that a prompt asks for, by the word that it starts with.
pub fn prompt_turn(persona: &str, text: &str) -> (r: Turn)
    ensures
        r@ == turn_of(persona@, text@),
{
    if let Some(rest) = strip_prefix(text, "slow ") {
        return Turn::Slow {
            thought: AgentUpdate::Thought(join("considering (slow): ", rest.as_str())),
        };
    }
    if let Some(rest) = strip_prefix(text, "stream ") {
        let tag: String = persona_prefix(persona);
        let body: String = join(tag.as_str(), rest.as_str());
        return Turn::Stream { pieces: stream_chunks(body.as_str()) };
    }
    if let Some(rest) = strip_prefix(text, "permission ") {
        return Turn::Permission { title: rest };
    }
    if let Some(rest) = strip_prefix(text, "terminal ") {
        return Turn::Terminal { argument: rest };
    }
    Turn::Plain { updates: send_replay(persona, text) }
}

} // verus!
