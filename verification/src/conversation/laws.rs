//! What events and histories do to a transcript, said of the items themselves.

use crate::conversation::{
    applied, entry_id, first_with_key, lemma_first_with_key, read_history, settled, synthetic_id,
    ConversationEvent, ItemKey, ItemView,
};
use crate::json::json_text;
use crate::protocol_types::{ChatMessageView, MessageKind};
use crate::text::law_decimal_is_injective;
use vstd::prelude::*;

verus! {

/// Whether an item is the one that is meant by a sort and an id.
pub open spec fn is_meant(item: ItemView, key: ItemKey) -> bool {
    match key {
        ItemKey::User(id) => item is User && item->User_message_id == id,
        ItemKey::Assistant(id) => item is Assistant && item->Assistant_message_id == id,
        ItemKey::Thought(id) => item is Thought && item->Thought_message_id == id,
        ItemKey::Tool(id) => item is Tool && item->tool_call_id == id,
        ItemKey::Terminal(id) => item is Terminal && item->terminal_id == id,
    }
}

/// Whether two transcripts differ in the item at `i` alone: the first that is
/// meant in the earlier one, or a new one at the end where none is.
pub open spec fn touched(
    before: Seq<ItemView>,
    after: Seq<ItemView>,
    key: ItemKey,
    i: int,
) -> bool {
    &&& 0 <= i <= before.len()
    &&& forall|k: int| 0 <= k < i ==> !is_meant(#[trigger] before[k], key)
    &&& i < before.len() ==> is_meant(before[i], key)
    &&& i < before.len() ==> after.len() == before.len()
    &&& i == before.len() ==> after.len() == before.len() + 1
    &&& is_meant(after[i], key)
    &&& forall|k: int| 0 <= k < before.len() && k != i ==> #[trigger] after[k] == before[k]
}

/// The user's message with the id has the text of the event, and nothing else
/// changes.
pub proof fn law_user_message_is_shown(items: Seq<ItemView>, event: ConversationEvent)
    requires
        event is UserMessage,
    ensures
        ({
            let id = event->UserMessage_message_id@;
            let after = applied(items, event@.what);
            exists|i: int|
                #[trigger] touched(items, after, ItemKey::User(id), i)
                    && after[i]->User_text == event->UserMessage_text@
        }),
{
    let id = event->UserMessage_message_id@;
    let after = applied(items, event@.what);
    let at = first_with_key(items, ItemKey::User(id), 0);
    lemma_first_with_key(items, ItemKey::User(id), 0);
    assert(touched(items, after, ItemKey::User(id), at));
}

/// A piece of an answer is added to the end of the answer with the id, which
/// streams until the last piece, and nothing else changes.
pub proof fn law_answer_grows(items: Seq<ItemView>, event: ConversationEvent)
    requires
        event is AssistantChunk,
    ensures
        ({
            let id = event->AssistantChunk_message_id@;
            let after = applied(items, event@.what);
            exists|i: int|
                {
                    &&& #[trigger] touched(items, after, ItemKey::Assistant(id), i)
                    &&& after[i]->Assistant_text == (if i < items.len() {
                        items[i]->Assistant_text + event->AssistantChunk_text@
                    } else {
                        event->AssistantChunk_text@
                    })
                    &&& after[i]->Assistant_streaming == !event->AssistantChunk_completed
                }
        }),
{
    let id = event->AssistantChunk_message_id@;
    let after = applied(items, event@.what);
    let at = first_with_key(items, ItemKey::Assistant(id), 0);
    lemma_first_with_key(items, ItemKey::Assistant(id), 0);
    assert(touched(items, after, ItemKey::Assistant(id), at));
}

/// A piece of a thought is added to the end of the thought with the id, which
/// streams until the last piece, and nothing else changes.
pub proof fn law_thought_grows(items: Seq<ItemView>, event: ConversationEvent)
    requires
        event is ThoughtChunk,
    ensures
        ({
            let id = event->ThoughtChunk_message_id@;
            let after = applied(items, event@.what);
            exists|i: int|
                {
                    &&& #[trigger] touched(items, after, ItemKey::Thought(id), i)
                    &&& after[i]->Thought_text == (if i < items.len() {
                        items[i]->Thought_text + event->ThoughtChunk_text@
                    } else {
                        event->ThoughtChunk_text@
                    })
                    &&& after[i]->Thought_streaming == !event->ThoughtChunk_completed
                }
        }),
{
    let id = event->ThoughtChunk_message_id@;
    let after = applied(items, event@.what);
    let at = first_with_key(items, ItemKey::Thought(id), 0);
    lemma_first_with_key(items, ItemKey::Thought(id), 0);
    assert(touched(items, after, ItemKey::Thought(id), at));
}

/// Whether a part of a tool call is what an event carries, or what it was where
/// the event carries nothing.
pub open spec fn taken_over(
    part: Option<Seq<char>>,
    carried: Option<String>,
    was: Option<Seq<char>>,
) -> bool {
    &&& carried is Some ==> part == Some(carried->0@)
    &&& carried is None ==> part == was
}

/// Of the tool call with the id, each part that the event carries is the event's,
/// and each other part stays as it was; nothing else changes. A tool call that
/// is new has no title and no parts but those of the event.
pub proof fn law_later_tool_update_wins(items: Seq<ItemView>, event: ConversationEvent)
    requires
        event is ToolCall,
    ensures
        ({
            let id = event->ToolCall_tool_call_id@;
            let after = applied(items, event@.what);
            exists|i: int|
                {
                    let old_call = i < items.len();
                    &&& #[trigger] touched(items, after, ItemKey::Tool(id), i)
                    &&& event->ToolCall_title is Some ==> after[i]->Tool_title
                        == event->ToolCall_title->0@
                    &&& event->ToolCall_title is None ==> after[i]->Tool_title == (if old_call {
                        items[i]->Tool_title
                    } else {
                        Seq::empty()
                    })
                    &&& taken_over(
                        after[i]->Tool_status,
                        event->ToolCall_status,
                        if old_call {
                            items[i]->Tool_status
                        } else {
                            None
                        },
                    )
                    &&& taken_over(
                        after[i]->Tool_detail,
                        event->ToolCall_detail,
                        if old_call {
                            items[i]->Tool_detail
                        } else {
                            None
                        },
                    )
                    &&& taken_over(
                        after[i]->Tool_raw_input,
                        event->ToolCall_raw_input,
                        if old_call {
                            items[i]->Tool_raw_input
                        } else {
                            None
                        },
                    )
                    &&& taken_over(
                        after[i]->Tool_raw_output,
                        event->ToolCall_raw_output,
                        if old_call {
                            items[i]->Tool_raw_output
                        } else {
                            None
                        },
                    )
                }
        }),
{
    let id = event->ToolCall_tool_call_id@;
    let after = applied(items, event@.what);
    let at = first_with_key(items, ItemKey::Tool(id), 0);
    lemma_first_with_key(items, ItemKey::Tool(id), 0);
    assert(touched(items, after, ItemKey::Tool(id), at));
}

/// A terminal that is created has the title of the event; its output and exit
/// code stay, and are none where it is new.
pub proof fn law_terminal_gets_its_title(items: Seq<ItemView>, event: ConversationEvent)
    requires
        event is TerminalCreated,
    ensures
        ({
            let id = event->TerminalCreated_terminal_id@;
            let after = applied(items, event@.what);
            exists|i: int|
                {
                    let known = i < items.len();
                    &&& #[trigger] touched(items, after, ItemKey::Terminal(id), i)
                    &&& after[i]->Terminal_title == event->TerminalCreated_title@
                    &&& known ==> after[i]->Terminal_output == items[i]->Terminal_output
                        && after[i]->exit_code == items[i]->exit_code
                    &&& !known ==> after[i]->Terminal_output.len() == 0 && after[i]->exit_code
                        is None
                }
        }),
{
    let id = event->TerminalCreated_terminal_id@;
    let after = applied(items, event@.what);
    let at = first_with_key(items, ItemKey::Terminal(id), 0);
    lemma_first_with_key(items, ItemKey::Terminal(id), 0);
    assert(touched(items, after, ItemKey::Terminal(id), at));
    if at < items.len() {
        let was = items[at]->Terminal_output;
        assert(was + Seq::<char>::empty() =~= was);
    }
}

/// What a terminal prints is added to the end of its output; its title and exit
/// code stay.
pub proof fn law_terminal_output_grows(items: Seq<ItemView>, event: ConversationEvent)
    requires
        event is TerminalOutput,
    ensures
        ({
            let id = event->TerminalOutput_terminal_id@;
            let after = applied(items, event@.what);
            exists|i: int|
                {
                    let known = i < items.len();
                    &&& #[trigger] touched(items, after, ItemKey::Terminal(id), i)
                    &&& known ==> after[i]->Terminal_output == items[i]->Terminal_output
                        + event->TerminalOutput_text@
                    &&& known ==> after[i]->Terminal_title == items[i]->Terminal_title
                        && after[i]->exit_code == items[i]->exit_code
                    &&& !known ==> after[i]->Terminal_output == event->TerminalOutput_text@
                        && after[i]->exit_code is None && after[i]->Terminal_title == "Terminal"@
                }
        }),
{
    let id = event->TerminalOutput_terminal_id@;
    let after = applied(items, event@.what);
    let at = first_with_key(items, ItemKey::Terminal(id), 0);
    lemma_first_with_key(items, ItemKey::Terminal(id), 0);
    assert(touched(items, after, ItemKey::Terminal(id), at));
}

/// A terminal that ends has the exit code of the event; its title and output
/// stay.
pub proof fn law_terminal_gets_its_exit_code(items: Seq<ItemView>, event: ConversationEvent)
    requires
        event is TerminalExited,
    ensures
        ({
            let id = event->TerminalExited_terminal_id@;
            let after = applied(items, event@.what);
            exists|i: int|
                {
                    let known = i < items.len();
                    &&& #[trigger] touched(items, after, ItemKey::Terminal(id), i)
                    &&& after[i]->exit_code == Some(event->TerminalExited_exit_code)
                    &&& known ==> after[i]->Terminal_output == items[i]->Terminal_output
                        && after[i]->Terminal_title == items[i]->Terminal_title
                    &&& !known ==> after[i]->Terminal_output.len() == 0
                        && after[i]->Terminal_title == "Terminal"@
                }
        }),
{
    let id = event->TerminalExited_terminal_id@;
    let after = applied(items, event@.what);
    let at = first_with_key(items, ItemKey::Terminal(id), 0);
    lemma_first_with_key(items, ItemKey::Terminal(id), 0);
    assert(touched(items, after, ItemKey::Terminal(id), at));
    if at < items.len() {
        let was = items[at]->Terminal_output;
        assert(was + Seq::<char>::empty() =~= was);
    }
}

/// A notice is added at the end, with the text of the event, also where one like
/// it stands already.
pub proof fn law_notice_is_added(items: Seq<ItemView>, event: ConversationEvent)
    requires
        event is Notice,
    ensures
        applied(items, event@.what) == items.push(
            ItemView::Notice { text: event->Notice_text@ },
        ),
{
}

/// An event belongs to the thread that it names.
pub proof fn law_event_names_its_thread(event: ConversationEvent)
    ensures
        event@.thread_id == match event {
            ConversationEvent::UserMessage { thread_id, .. } => thread_id@,
            ConversationEvent::AssistantChunk { thread_id, .. } => thread_id@,
            ConversationEvent::ThoughtChunk { thread_id, .. } => thread_id@,
            ConversationEvent::ToolCall { thread_id, .. } => thread_id@,
            ConversationEvent::TerminalCreated { thread_id, .. } => thread_id@,
            ConversationEvent::TerminalOutput { thread_id, .. } => thread_id@,
            ConversationEvent::TerminalExited { thread_id, .. } => thread_id@,
            ConversationEvent::Notice { thread_id, .. } => thread_id@,
        },
{
}

/// Ending the streams changes nothing but that answers and thoughts no longer
/// stream: every id and every text stays.
pub proof fn law_settling_keeps_texts(item: ItemView)
    ensures
        item is Assistant ==> settled(item) is Assistant && !settled(item)->Assistant_streaming
            && settled(item)->Assistant_text == item->Assistant_text
            && settled(item)->Assistant_message_id == item->Assistant_message_id,
        item is Thought ==> settled(item) is Thought && !settled(item)->Thought_streaming
            && settled(item)->Thought_text == item->Thought_text
            && settled(item)->Thought_message_id == item->Thought_message_id,
        !(item is Assistant || item is Thought) ==> settled(item) == item,
{
}

/// What one more message does to a rebuilt transcript: the item of its kind
/// under its id has its text at the end, or is replaced by it, and nothing else
/// changes. A message with an id of its own is kept under that id.
pub proof fn law_message_is_shown_as_its_kind(history: Seq<ChatMessageView>, m: ChatMessageView)
    ensures
        ({
            let before = read_history(history).items;
            let after = read_history(history.push(m)).items;
            let id = entry_id(read_history(history), m);
            &&& m.id is Some ==> id == m.id->0
            &&& match m.kind {
                MessageKind::User => exists|i: int|
                    #[trigger] touched(before, after, ItemKey::User(id), i)
                        && after[i]->User_text == m.text,
                MessageKind::Agent => exists|i: int|
                    {
                        &&& #[trigger] touched(before, after, ItemKey::Assistant(id), i)
                        &&& !after[i]->Assistant_streaming
                        &&& after[i]->Assistant_text == (if i < before.len() {
                            before[i]->Assistant_text + m.text
                        } else {
                            m.text
                        })
                    },
                MessageKind::Thinking => exists|i: int|
                    {
                        &&& #[trigger] touched(before, after, ItemKey::Thought(id), i)
                        &&& !after[i]->Thought_streaming
                        &&& after[i]->Thought_text == (if i < before.len() {
                            before[i]->Thought_text + m.text
                        } else {
                            m.text
                        })
                    },
                MessageKind::ToolCall => exists|i: int|
                    {
                        let known = i < before.len();
                        &&& #[trigger] touched(before, after, ItemKey::Tool(id), i)
                        &&& m.text.len() > 0 ==> after[i]->Tool_title == m.text
                        &&& m.text.len() == 0 ==> after[i]->Tool_title == (if known {
                            before[i]->Tool_title
                        } else {
                            Seq::empty()
                        })
                        &&& m.status is Some ==> after[i]->Tool_status == m.status
                        &&& m.raw_input is Some ==> after[i]->Tool_raw_input == Some(
                            json_text(m.raw_input->0),
                        )
                        &&& m.raw_output is Some ==> after[i]->Tool_raw_output == Some(
                            json_text(m.raw_output->0),
                        )
                        &&& known ==> {
                            &&& m.status is None ==> after[i]->Tool_status
                                == before[i]->Tool_status
                            &&& m.raw_input is None ==> after[i]->Tool_raw_input
                                == before[i]->Tool_raw_input
                            &&& m.raw_output is None ==> after[i]->Tool_raw_output
                                == before[i]->Tool_raw_output
                            &&& after[i]->Tool_detail == before[i]->Tool_detail
                        }
                        &&& !known ==> {
                            &&& m.status is None ==> after[i]->Tool_status is None
                            &&& m.raw_input is None ==> after[i]->Tool_raw_input is None
                            &&& m.raw_output is None ==> after[i]->Tool_raw_output is None
                            &&& after[i]->Tool_detail is None
                        }
                    },
            }
        }),
{
    let before = read_history(history).items;
    let after = read_history(history.push(m)).items;
    let id = entry_id(read_history(history), m);
    assert(history.push(m).drop_last() =~= history);
    match m.kind {
        MessageKind::User => {
            let at = first_with_key(before, ItemKey::User(id), 0);
            lemma_first_with_key(before, ItemKey::User(id), 0);
            assert(touched(before, after, ItemKey::User(id), at));
        },
        MessageKind::Agent => {
            let at = first_with_key(before, ItemKey::Assistant(id), 0);
            lemma_first_with_key(before, ItemKey::Assistant(id), 0);
            assert(touched(before, after, ItemKey::Assistant(id), at));
        },
        MessageKind::Thinking => {
            let at = first_with_key(before, ItemKey::Thought(id), 0);
            lemma_first_with_key(before, ItemKey::Thought(id), 0);
            assert(touched(before, after, ItemKey::Thought(id), at));
        },
        MessageKind::ToolCall => {
            let at = first_with_key(before, ItemKey::Tool(id), 0);
            lemma_first_with_key(before, ItemKey::Tool(id), 0);
            assert(touched(before, after, ItemKey::Tool(id), at));
        },
    }
}

/// Whether an item is of the sort that messages of a kind are shown as.
pub open spec fn shows_kind(item: ItemView, kind: MessageKind) -> bool {
    match kind {
        MessageKind::User => item is User,
        MessageKind::Agent => item is Assistant,
        MessageKind::Thinking => item is Thought,
        MessageKind::ToolCall => item is Tool,
    }
}

/// Whether a history has a message of a kind.
pub open spec fn has_kind(history: Seq<ChatMessageView>, kind: MessageKind) -> bool {
    exists|k: int| 0 <= k < history.len() && (#[trigger] history[k]).kind == kind
}

/// Whether a transcript has an item of the sort that messages of a kind are
/// shown as.
pub open spec fn has_sort(items: Seq<ItemView>, kind: MessageKind) -> bool {
    exists|i: int| 0 <= i < items.len() && shows_kind(#[trigger] items[i], kind)
}

proof fn lemma_one_more_kind(history: Seq<ChatMessageView>, m: ChatMessageView, kind: MessageKind)
    ensures
        has_kind(history.push(m), kind) <==> has_kind(history, kind) || m.kind == kind,
{
    let more = history.push(m);
    if has_kind(history, kind) {
        let k = choose|k: int| 0 <= k < history.len() && (#[trigger] history[k]).kind == kind;
        assert(more[k].kind == kind);
    }
    if m.kind == kind {
        assert(more[history.len() as int].kind == kind);
    }
    if has_kind(more, kind) {
        let k = choose|k: int| 0 <= k < more.len() && (#[trigger] more[k]).kind == kind;
        if k < history.len() {
            assert(history[k].kind == kind);
        }
    }
}

/// A rebuilt transcript has an item of a sort exactly where the history has a
/// message of the kind that is shown so: thoughts come from thinking alone, and
/// answers from the agent alone. It has no terminals and no notices.
pub proof fn law_rebuilt_sorts_are_the_kinds(history: Seq<ChatMessageView>, kind: MessageKind)
    ensures
        has_sort(read_history(history).items, kind) <==> has_kind(history, kind),
        forall|i: int|
            0 <= i < read_history(history).items.len() ==> !(#[trigger] read_history(
                history,
            ).items[i] is Terminal) && !(read_history(history).items[i] is Notice),
    decreases history.len(),
{
    if history.len() > 0 {
        let m = history.last();
        let earlier = history.drop_last();
        assert(earlier.push(m) =~= history);
        law_rebuilt_sorts_are_the_kinds(earlier, kind);
        lemma_one_more_kind(earlier, m, kind);
        law_message_is_shown_as_its_kind(earlier, m);
        let before = read_history(earlier).items;
        let after = read_history(history).items;
        let id = entry_id(read_history(earlier), m);
        let meant = match m.kind {
            MessageKind::User => ItemKey::User(id),
            MessageKind::Agent => ItemKey::Assistant(id),
            MessageKind::Thinking => ItemKey::Thought(id),
            MessageKind::ToolCall => ItemKey::Tool(id),
        };
        let i = choose|i: int| #[trigger] touched(before, after, meant, i);
        assert(touched(before, after, meant, i));
        assert(shows_kind(after[i], m.kind));
        if has_sort(before, kind) {
            let k = choose|k: int| 0 <= k < before.len() && shows_kind(#[trigger] before[k], kind);
            assert(shows_kind(after[k], kind));
        }
        if has_sort(after, kind) {
            let k = choose|k: int| 0 <= k < after.len() && shows_kind(#[trigger] after[k], kind);
            if k != i {
                assert(shows_kind(before[k], kind));
            }
        }
    }
}

/// The id of an item; that of a notice is nothing.
pub open spec fn id_of(item: ItemView) -> Seq<char> {
    match item {
        ItemView::User { message_id, .. } => message_id,
        ItemView::Assistant { message_id, .. } => message_id,
        ItemView::Thought { message_id, .. } => message_id,
        ItemView::Tool { tool_call_id, .. } => tool_call_id,
        ItemView::Terminal { terminal_id, .. } => terminal_id,
        ItemView::Notice { .. } => Seq::empty(),
    }
}

spec fn made_by(id: Seq<char>, n: nat) -> bool {
    exists|k: nat| k <= n && id == #[trigger] synthetic_id(k)
}

proof fn lemma_made_up_ids(history: Seq<ChatMessageView>)
    requires
        forall|k: int| 0 <= k < history.len() ==> (#[trigger] history[k]).id is None,
    ensures
        ({
            let at = read_history(history);
            &&& forall|i: int|
                0 <= i < at.items.len() ==> made_by(id_of(#[trigger] at.items[i]), at.made_up)
            &&& at.open_run matches Some((kind, id)) ==> made_by(id, at.made_up) && history.len()
                > 0 && history.last().kind == kind
        }),
    decreases history.len(),
{
    if history.len() > 0 {
        let m = history.last();
        let earlier = history.drop_last();
        assert(earlier.push(m) =~= history);
        assert forall|k: int| 0 <= k < earlier.len() implies (#[trigger] earlier[k]).id is None by {
            assert(earlier[k] == history[k]);
        }
        assert(m == history[history.len() - 1]);
        lemma_made_up_ids(earlier);
        law_message_is_shown_as_its_kind(earlier, m);
        let was = read_history(earlier);
        let now = read_history(history);
        let id = entry_id(was, m);
        assert(made_by(id, now.made_up));
        let meant = match m.kind {
            MessageKind::User => ItemKey::User(id),
            MessageKind::Agent => ItemKey::Assistant(id),
            MessageKind::Thinking => ItemKey::Thought(id),
            MessageKind::ToolCall => ItemKey::Tool(id),
        };
        let t = choose|i: int| #[trigger] touched(was.items, now.items, meant, i);
        assert(touched(was.items, now.items, meant, t));
        assert forall|i: int| 0 <= i < now.items.len() implies made_by(
            id_of(#[trigger] now.items[i]),
            now.made_up,
        ) by {
            if i != t {
                assert(now.items[i] == was.items[i]);
                let k = choose|k: nat|
                    k <= was.made_up && id_of(was.items[i]) == #[trigger] synthetic_id(k);
                assert(k <= now.made_up && id_of(now.items[i]) == synthetic_id(k));
            }
        }
    }
}

/// In a history without ids, a message gets a row of its own at the end, and
/// every earlier row stays as it is; only a piece of an answer or of a thought
/// that follows another piece of it is added to the row of that.
pub proof fn law_messages_without_ids_get_rows(history: Seq<ChatMessageView>, m: ChatMessageView)
    requires
        forall|k: int| 0 <= k < history.len() ==> (#[trigger] history[k]).id is None,
        m.id is None,
        history.len() == 0 || history.last().kind != m.kind || m.kind == MessageKind::User || m.kind
            == MessageKind::ToolCall,
    ensures
        ({
            let before = read_history(history).items;
            let after = read_history(history.push(m)).items;
            &&& after.len() == before.len() + 1
            &&& forall|i: int| 0 <= i < before.len() ==> #[trigger] after[i] == before[i]
            &&& shows_kind(after.last(), m.kind)
        }),
{
    let was = read_history(history);
    let now = read_history(history.push(m));
    let id = entry_id(was, m);
    lemma_made_up_ids(history);
    law_message_is_shown_as_its_kind(history, m);
    assert(id == synthetic_id(was.made_up + 1));
    let meant = match m.kind {
        MessageKind::User => ItemKey::User(id),
        MessageKind::Agent => ItemKey::Assistant(id),
        MessageKind::Thinking => ItemKey::Thought(id),
        MessageKind::ToolCall => ItemKey::Tool(id),
    };
    let t = choose|i: int| #[trigger] touched(was.items, now.items, meant, i);
    assert(touched(was.items, now.items, meant, t));
    if t < was.items.len() {
        assert(id_of(was.items[t]) == id);
        let k = choose|k: nat|
            k <= was.made_up && id_of(was.items[t]) == #[trigger] synthetic_id(k);
        lemma_made_up_differ(k, was.made_up + 1);
        assert(false);
    }
}

proof fn lemma_made_up_differ(a: nat, b: nat)
    requires
        a != b,
    ensures
        synthetic_id(a) != synthetic_id(b),
{
    if synthetic_id(a) == synthetic_id(b) {
        let head = "synthetic-"@.len() as int;
        assert(synthetic_id(a).skip(head) =~= crate::text::decimal(a));
        assert(synthetic_id(b).skip(head) =~= crate::text::decimal(b));
        law_decimal_is_injective(a, b);
    }
}

/// Two pieces of an answer, or of a thought, that follow each other without ids
/// are one row, with the text of the second after that of the first.
pub proof fn law_pieces_without_ids_join(
    history: Seq<ChatMessageView>,
    first: ChatMessageView,
    second: ChatMessageView,
)
    requires
        first.kind == second.kind,
        first.kind == MessageKind::Agent || first.kind == MessageKind::Thinking,
        first.id is None,
        second.id is None,
    ensures
        ({
            let one = read_history(history.push(first)).items;
            let two = read_history(history.push(first).push(second)).items;
            &&& two.len() == one.len()
            &&& exists|i: int|
                {
                    &&& 0 <= i < one.len()
                    &&& shows_kind(#[trigger] one[i], first.kind)
                    &&& shows_kind(two[i], first.kind)
                    &&& first.kind == MessageKind::Agent ==> two[i]->Assistant_text
                        == one[i]->Assistant_text + second.text && first.text.is_suffix_of(
                        one[i]->Assistant_text,
                    )
                    &&& first.kind == MessageKind::Thinking ==> two[i]->Thought_text
                        == one[i]->Thought_text + second.text && first.text.is_suffix_of(
                        one[i]->Thought_text,
                    )
                }
        }),
{
    let start = read_history(history);
    let mid = read_history(history.push(first));
    let end = read_history(history.push(first).push(second));
    let id = entry_id(start, first);
    law_message_is_shown_as_its_kind(history, first);
    law_message_is_shown_as_its_kind(history.push(first), second);
    crate::conversation::law_chunks_without_id_share_one(history, first, second);
    assert(entry_id(mid, second) == id);
    let meant = if first.kind == MessageKind::Agent {
        ItemKey::Assistant(id)
    } else {
        ItemKey::Thought(id)
    };
    let a = choose|i: int| #[trigger] touched(start.items, mid.items, meant, i);
    assert(touched(start.items, mid.items, meant, a));
    let b = choose|i: int| #[trigger] touched(mid.items, end.items, meant, i);
    assert(touched(mid.items, end.items, meant, b));
    assert(is_meant(mid.items[a], meant));
    assert(b <= a);
    if b < a {
        assert(mid.items[b] == start.items[b]);
        assert(!is_meant(start.items[b], meant));
    }
    let text = if first.kind == MessageKind::Agent {
        mid.items[a]->Assistant_text
    } else {
        mid.items[a]->Thought_text
    };
    assert(text.skip(text.len() - first.text.len()) =~= first.text);
}

} // verus!
