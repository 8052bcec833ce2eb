//! The transcript of one thread.
//!
//! A transcript grows by events. An event that names something the transcript
//! already holds (a message, a tool call, a terminal) is merged into it; any
//! other event adds an item at the end. [`rebuild_from_chat_messages`] derives
//! the transcript from a thread's raw history.

pub mod laws;

use crate::protocol_types::{messages_view, ChatMessage, ChatMessageView, MessageKind};
use crate::text::{clone_optional, decimal, decimal_text, join, optional_text, same};
use vstd::prelude::*;

verus! {

/// One item of a transcript.
#[derive(Clone, Debug, PartialEq, Eq)]
pub enum TranscriptItem {
    User { message_id: String, text: String },
    Assistant { message_id: String, text: String, streaming: bool },
    Thought { message_id: String, text: String, streaming: bool },
    Tool {
        tool_call_id: String,
        title: String,
        status: Option<String>,
        detail: Option<String>,
        /// What the tool was given, as JSON text.
        raw_input: Option<String>,
        /// What the tool returned, as JSON text.
        raw_output: Option<String>,
    },
    Terminal { terminal_id: String, title: String, output: String, exit_code: Option<i32> },
    Notice { text: String },
}

/// A [`TranscriptItem`] as a mathematical value.
#[verifier::ext_equal]
pub enum ItemView {
    User { message_id: Seq<char>, text: Seq<char> },
    Assistant { message_id: Seq<char>, text: Seq<char>, streaming: bool },
    Thought { message_id: Seq<char>, text: Seq<char>, streaming: bool },
    Tool {
        tool_call_id: Seq<char>,
        title: Seq<char>,
        status: Option<Seq<char>>,
        detail: Option<Seq<char>>,
        raw_input: Option<Seq<char>>,
        raw_output: Option<Seq<char>>,
    },
    Terminal {
        terminal_id: Seq<char>,
        title: Seq<char>,
        output: Seq<char>,
        exit_code: Option<i32>,
    },
    Notice { text: Seq<char> },
}

impl View for TranscriptItem {
    type V = ItemView;

    open spec fn view(&self) -> ItemView {
        match self {
            TranscriptItem::User { message_id, text } => ItemView::User {
                message_id: message_id@,
                text: text@,
            },
            TranscriptItem::Assistant { message_id, text, streaming } => ItemView::Assistant {
                message_id: message_id@,
                text: text@,
                streaming: *streaming,
            },
            TranscriptItem::Thought { message_id, text, streaming } => ItemView::Thought {
                message_id: message_id@,
                text: text@,
                streaming: *streaming,
            },
            TranscriptItem::Tool {
                tool_call_id,
                title,
                status,
                detail,
                raw_input,
                raw_output,
            } => ItemView::Tool {
                tool_call_id: tool_call_id@,
                title: title@,
                status: optional_text(*status),
                detail: optional_text(*detail),
                raw_input: optional_text(*raw_input),
                raw_output: optional_text(*raw_output),
            },
            TranscriptItem::Terminal { terminal_id, title, output, exit_code } => {
                ItemView::Terminal {
                    terminal_id: terminal_id@,
                    title: title@,
                    output: output@,
                    exit_code: *exit_code,
                }
            },
            TranscriptItem::Notice { text } => ItemView::Notice { text: text@ },
        }
    }
}

/// A list of items as mathematical values.
pub open spec fn items_view(v: Seq<TranscriptItem>) -> Seq<ItemView> {
    v.map_values(|i: TranscriptItem| i@)
}

/// Something that happened on a thread.
#[derive(Clone, Debug, PartialEq, Eq)]
pub enum ConversationEvent {
    UserMessage { thread_id: String, message_id: String, text: String },
    AssistantChunk { thread_id: String, message_id: String, text: String, completed: bool },
    ThoughtChunk { thread_id: String, message_id: String, text: String, completed: bool },
    ToolCall {
        thread_id: String,
        tool_call_id: String,
        title: Option<String>,
        status: Option<String>,
        detail: Option<String>,
        raw_input: Option<String>,
        raw_output: Option<String>,
    },
    TerminalCreated { thread_id: String, terminal_id: String, title: String },
    TerminalOutput { thread_id: String, terminal_id: String, text: String },
    TerminalExited { thread_id: String, terminal_id: String, exit_code: i32 },
    Notice { thread_id: String, text: String },
}

/// What an event says, whichever thread it belongs to.
#[verifier::ext_equal]
pub enum Happening {
    UserMessage { message_id: Seq<char>, text: Seq<char> },
    AssistantChunk { message_id: Seq<char>, text: Seq<char>, completed: bool },
    ThoughtChunk { message_id: Seq<char>, text: Seq<char>, completed: bool },
    ToolCall {
        tool_call_id: Seq<char>,
        title: Option<Seq<char>>,
        status: Option<Seq<char>>,
        detail: Option<Seq<char>>,
        raw_input: Option<Seq<char>>,
        raw_output: Option<Seq<char>>,
    },
    Terminal {
        terminal_id: Seq<char>,
        title: Option<Seq<char>>,
        output: Option<Seq<char>>,
        exit_code: Option<i32>,
    },
    Notice { text: Seq<char> },
}

/// A [`ConversationEvent`] as a mathematical value.
#[verifier::ext_equal]
pub struct EventView {
    pub thread_id: Seq<char>,
    pub what: Happening,
}

impl View for ConversationEvent {
    type V = EventView;

    open spec fn view(&self) -> EventView {
        match self {
            ConversationEvent::UserMessage { thread_id, message_id, text } => EventView {
                thread_id: thread_id@,
                what: Happening::UserMessage { message_id: message_id@, text: text@ },
            },
            ConversationEvent::AssistantChunk { thread_id, message_id, text, completed } => {
                EventView {
                    thread_id: thread_id@,
                    what: Happening::AssistantChunk {
                        message_id: message_id@,
                        text: text@,
                        completed: *completed,
                    },
                }
            },
            ConversationEvent::ThoughtChunk { thread_id, message_id, text, completed } => {
                EventView {
                    thread_id: thread_id@,
                    what: Happening::ThoughtChunk {
                        message_id: message_id@,
                        text: text@,
                        completed: *completed,
                    },
                }
            },
            ConversationEvent::ToolCall {
                thread_id,
                tool_call_id,
                title,
                status,
                detail,
                raw_input,
                raw_output,
            } => EventView {
                thread_id: thread_id@,
                what: Happening::ToolCall {
                    tool_call_id: tool_call_id@,
                    title: optional_text(*title),
                    status: optional_text(*status),
                    detail: optional_text(*detail),
                    raw_input: optional_text(*raw_input),
                    raw_output: optional_text(*raw_output),
                },
            },
            ConversationEvent::TerminalCreated { thread_id, terminal_id, title } => EventView {
                thread_id: thread_id@,
                what: Happening::Terminal {
                    terminal_id: terminal_id@,
                    title: Some(title@),
                    output: None,
                    exit_code: None,
                },
            },
            ConversationEvent::TerminalOutput { thread_id, terminal_id, text } => EventView {
                thread_id: thread_id@,
                what: Happening::Terminal {
                    terminal_id: terminal_id@,
                    title: None,
                    output: Some(text@),
                    exit_code: None,
                },
            },
            ConversationEvent::TerminalExited { thread_id, terminal_id, exit_code } => EventView {
                thread_id: thread_id@,
                what: Happening::Terminal {
                    terminal_id: terminal_id@,
                    title: None,
                    output: None,
                    exit_code: Some(*exit_code),
                },
            },
            ConversationEvent::Notice { thread_id, text } => EventView {
                thread_id: thread_id@,
                what: Happening::Notice { text: text@ },
            },
        }
    }
}

impl ConversationEvent {
    /// The thread that the event belongs to.
    pub fn thread_id(&self) -> (r: &str)
        ensures
            r@ == self@.thread_id,
    {
        match self {
            ConversationEvent::UserMessage { thread_id, .. } => thread_id.as_str(),
            ConversationEvent::AssistantChunk { thread_id, .. } => thread_id.as_str(),
            ConversationEvent::ThoughtChunk { thread_id, .. } => thread_id.as_str(),
            ConversationEvent::ToolCall { thread_id, .. } => thread_id.as_str(),
            ConversationEvent::TerminalCreated { thread_id, .. } => thread_id.as_str(),
            ConversationEvent::TerminalOutput { thread_id, .. } => thread_id.as_str(),
            ConversationEvent::TerminalExited { thread_id, .. } => thread_id.as_str(),
            ConversationEvent::Notice { thread_id, .. } => thread_id.as_str(),
        }
    }
}

/// What an item is found again by.
#[verifier::ext_equal]
pub enum ItemKey {
    User(Seq<char>),
    Assistant(Seq<char>),
    Thought(Seq<char>),
    Tool(Seq<char>),
    Terminal(Seq<char>),
}

/// The key of an item; a notice has none.
pub open spec fn item_key(item: ItemView) -> Option<ItemKey> {
    match item {
        ItemView::User { message_id, .. } => Some(ItemKey::User(message_id)),
        ItemView::Assistant { message_id, .. } => Some(ItemKey::Assistant(message_id)),
        ItemView::Thought { message_id, .. } => Some(ItemKey::Thought(message_id)),
        ItemView::Tool { tool_call_id, .. } => Some(ItemKey::Tool(tool_call_id)),
        ItemView::Terminal { terminal_id, .. } => Some(ItemKey::Terminal(terminal_id)),
        ItemView::Notice { .. } => None,
    }
}

/// The key of the item that an event is about; a notice is about none.
pub open spec fn target_key(what: Happening) -> Option<ItemKey> {
    match what {
        Happening::UserMessage { message_id, .. } => Some(ItemKey::User(message_id)),
        Happening::AssistantChunk { message_id, .. } => Some(ItemKey::Assistant(message_id)),
        Happening::ThoughtChunk { message_id, .. } => Some(ItemKey::Thought(message_id)),
        Happening::ToolCall { tool_call_id, .. } => Some(ItemKey::Tool(tool_call_id)),
        Happening::Terminal { terminal_id, .. } => Some(ItemKey::Terminal(terminal_id)),
        Happening::Notice { .. } => None,
    }
}

/// The newer of two optional values: the second where there is one.
pub open spec fn newer<T>(stored: Option<T>, update: Option<T>) -> Option<T> {
    if update is Some {
        update
    } else {
        stored
    }
}

/// A value, or another where there is none.
pub open spec fn or_else<T>(o: Option<T>, other: T) -> T {
    match o {
        Some(v) => v,
        None => other,
    }
}

/// The item that an event adds where the transcript does not hold one yet.
pub open spec fn fresh_item(what: Happening) -> ItemView {
    match what {
        Happening::UserMessage { message_id, text } => ItemView::User { message_id, text },
        Happening::AssistantChunk { message_id, text, completed } => ItemView::Assistant {
            message_id,
            text,
            streaming: !completed,
        },
        Happening::ThoughtChunk { message_id, text, completed } => ItemView::Thought {
            message_id,
            text,
            streaming: !completed,
        },
        Happening::ToolCall { tool_call_id, title, status, detail, raw_input, raw_output } => {
            ItemView::Tool {
                tool_call_id,
                title: or_else(title, Seq::empty()),
                status,
                detail,
                raw_input,
                raw_output,
            }
        },
        Happening::Terminal { terminal_id, title, output, exit_code } => ItemView::Terminal {
            terminal_id,
            title: or_else(title, "Terminal"@),
            output: or_else(output, Seq::empty()),
            exit_code,
        },
        Happening::Notice { text } => ItemView::Notice { text },
    }
}

/// The item that an event makes of the one it is about: a user message is
/// replaced, chunks and terminal output are appended, and of a tool call or a
/// terminal each part is replaced that the event carries.
pub open spec fn merged_item(item: ItemView, what: Happening) -> ItemView {
    match (item, what) {
        (ItemView::User { message_id, .. }, Happening::UserMessage { text, .. }) => ItemView::User {
            message_id,
            text,
        },
        (
            ItemView::Assistant { message_id, text: stored, .. },
            Happening::AssistantChunk { text, completed, .. },
        ) => ItemView::Assistant { message_id, text: stored + text, streaming: !completed },
        (
            ItemView::Thought { message_id, text: stored, .. },
            Happening::ThoughtChunk { text, completed, .. },
        ) => ItemView::Thought { message_id, text: stored + text, streaming: !completed },
        (
            ItemView::Tool {
                tool_call_id,
                title: title0,
                status: status0,
                detail: detail0,
                raw_input: raw_input0,
                raw_output: raw_output0,
            },
            Happening::ToolCall { title, status, detail, raw_input, raw_output, .. },
        ) => ItemView::Tool {
            tool_call_id,
            title: or_else(title, title0),
            status: newer(status0, status),
            detail: newer(detail0, detail),
            raw_input: newer(raw_input0, raw_input),
            raw_output: newer(raw_output0, raw_output),
        },
        (
            ItemView::Terminal { terminal_id, title: title0, output: output0, exit_code: exit0 },
            Happening::Terminal { title, output, exit_code, .. },
        ) => ItemView::Terminal {
            terminal_id,
            title: or_else(title, title0),
            output: output0 + or_else(output, Seq::empty()),
            exit_code: newer(exit0, exit_code),
        },
        _ => item,
    }
}

/// Whether an item is the one that `key` names.
pub open spec fn has_key(item: ItemView, key: ItemKey) -> bool {
    item_key(item) == Some(key)
}

/// The position of the first item at `from` or later that `key` names, and the
/// number of items where there is none.
pub open spec fn first_with_key(items: Seq<ItemView>, key: ItemKey, from: int) -> int
    decreases items.len() - from,
{
    if from >= items.len() {
        items.len() as int
    } else if has_key(items[from], key) {
        from
    } else {
        first_with_key(items, key, from + 1)
    }
}

/// The transcript after an event: the first item that the event is about is
/// replaced by what the event makes of it; where there is none, an item is
/// added at the end.
pub open spec fn applied(items: Seq<ItemView>, what: Happening) -> Seq<ItemView> {
    match target_key(what) {
        None => items.push(fresh_item(what)),
        Some(key) => {
            let at = first_with_key(items, key, 0);
            if at < items.len() {
                items.update(at, merged_item(items[at], what))
            } else {
                items.push(fresh_item(what))
            }
        },
    }
}

/// Whether no two items share a key.
pub open spec fn distinct_keys(items: Seq<ItemView>) -> bool {
    forall|i: int, k: int|
        0 <= i < k < items.len() && item_key(#[trigger] items[i]) is Some ==> item_key(items[i])
            != item_key(#[trigger] items[k])
}

/// The transcript of one thread.
#[derive(Clone, Debug, Default)]
pub struct ConversationState {
    thread_id: String,
    items: Vec<TranscriptItem>,
}

/// A [`ConversationState`] as a mathematical value.
#[verifier::ext_equal]
pub struct ConversationView {
    pub thread_id: Seq<char>,
    pub items: Seq<ItemView>,
}

impl View for ConversationState {
    type V = ConversationView;

    closed spec fn view(&self) -> ConversationView {
        ConversationView { thread_id: self.thread_id@, items: items_view(self.items@) }
    }
}

impl ConversationView {
    /// Whether each message, tool call and terminal has one item at most.
    pub open spec fn wf(self) -> bool {
        distinct_keys(self.items)
    }
}

proof fn lemma_first_with_key(items: Seq<ItemView>, key: ItemKey, from: int)
    requires
        0 <= from <= items.len(),
    ensures
        from <= first_with_key(items, key, from) <= items.len(),
        first_with_key(items, key, from) < items.len() ==> has_key(
            items[first_with_key(items, key, from)],
            key,
        ),
        forall|i: int|
            from <= i < first_with_key(items, key, from) ==> !has_key(#[trigger] items[i], key),
    decreases items.len() - from,
{
    if from < items.len() && !has_key(items[from], key) {
        lemma_first_with_key(items, key, from + 1);
    }
}

proof fn lemma_merged_keeps_key(item: ItemView, what: Happening)
    ensures
        item_key(merged_item(item, what)) == item_key(item),
{
}

/// An event leaves no two items with one key where there were none before.
pub proof fn law_applied_keeps_keys_distinct(items: Seq<ItemView>, what: Happening)
    requires
        distinct_keys(items),
    ensures
        distinct_keys(applied(items, what)),
{
    let next = applied(items, what);
    match target_key(what) {
        None => {
            assert(item_key(fresh_item(what)) is None);
            assert forall|i: int, k: int|
                0 <= i < k < next.len() && item_key(#[trigger] next[i]) is Some implies item_key(
                next[i],
            ) != item_key(#[trigger] next[k]) by {
                if k < items.len() {
                    assert(next[i] == items[i] && next[k] == items[k]);
                }
            }
        },
        Some(key) => {
            lemma_first_with_key(items, key, 0);
            let at = first_with_key(items, key, 0);
            if at < items.len() {
                lemma_merged_keeps_key(items[at], what);
                assert forall|i: int, k: int|
                    0 <= i < k < next.len() && item_key(
                        #[trigger] next[i],
                    ) is Some implies item_key(next[i]) != item_key(#[trigger] next[k]) by {
                    assert(item_key(next[i]) == item_key(items[i]));
                    assert(item_key(next[k]) == item_key(items[k]));
                }
            } else {
                assert(item_key(fresh_item(what)) == Some(key));
                assert forall|i: int, k: int|
                    0 <= i < k < next.len() && item_key(
                        #[trigger] next[i],
                    ) is Some implies item_key(next[i]) != item_key(#[trigger] next[k]) by {
                    if k < items.len() {
                        assert(next[i] == items[i] && next[k] == items[k]);
                    } else {
                        assert(!has_key(items[i], key));
                    }
                }
            }
        },
    }
}

/// Two chunks of one answer, or of one thought, leave the transcript that one
/// chunk with their joined text leaves, which is complete where the second was.
pub proof fn law_chunks_join(
    items: Seq<ItemView>,
    thought: bool,
    message_id: Seq<char>,
    first: Seq<char>,
    second: Seq<char>,
    first_completed: bool,
    second_completed: bool,
)
    ensures
        applied(
            applied(items, chunk(message_id, first, first_completed, thought)),
            chunk(message_id, second, second_completed, thought),
        ) == applied(items, chunk(message_id, first + second, second_completed, thought)),
{
    let key = if thought {
        ItemKey::Thought(message_id)
    } else {
        ItemKey::Assistant(message_id)
    };
    let one = chunk(message_id, first, first_completed, thought);
    let two = chunk(message_id, second, second_completed, thought);
    let both = chunk(message_id, first + second, second_completed, thought);
    let at = first_with_key(items, key, 0);
    let mid = applied(items, one);
    lemma_first_with_key(items, key, 0);
    lemma_first_stays(items, one, key);
    if at < items.len() {
        let stored = if thought {
            items[at]->Thought_text
        } else {
            items[at]->Assistant_text
        };
        assert(stored + first + second =~= stored + (first + second));
    }
    assert(applied(mid, two) =~= applied(items, both));
}

/// Of two user messages with one id the second alone decides: its text replaces
/// that of the first.
pub proof fn law_user_message_is_replaced(
    items: Seq<ItemView>,
    message_id: Seq<char>,
    first: Seq<char>,
    second: Seq<char>,
)
    ensures
        applied(
            applied(items, Happening::UserMessage { message_id, text: first }),
            Happening::UserMessage { message_id, text: second },
        ) == applied(items, Happening::UserMessage { message_id, text: second }),
{
    let key = ItemKey::User(message_id);
    let one = Happening::UserMessage { message_id, text: first };
    let two = Happening::UserMessage { message_id, text: second };
    lemma_first_with_key(items, key, 0);
    lemma_first_stays(items, one, key);
    assert(applied(applied(items, one), two) =~= applied(items, two));
}

/// An event removes no item, moves none and gives none another key: each stays
/// where it is, and all but the one that the event is about stay as they are. At
/// most one is added, at the end.
pub proof fn law_items_stay_in_place(items: Seq<ItemView>, what: Happening)
    ensures
        items.len() <= applied(items, what).len() <= items.len() + 1,
        forall|i: int|
            #![trigger applied(items, what)[i]]
            0 <= i < items.len() ==> item_key(applied(items, what)[i]) == item_key(items[i]),
        forall|i: int|
            #![trigger applied(items, what)[i]]
            0 <= i < items.len() && item_key(items[i]) != target_key(what)
                ==> applied(items, what)[i] == items[i],
{
    if let Some(key) = target_key(what) {
        let at = first_with_key(items, key, 0);
        lemma_first_with_key(items, key, 0);
        if at < items.len() {
            lemma_merged_keeps_key(items[at], what);
        }
    }
}

proof fn lemma_first_stays(items: Seq<ItemView>, what: Happening, key: ItemKey)
    requires
        target_key(what) == Some(key),
    ensures
        first_with_key(applied(items, what), key, 0) == first_with_key(items, key, 0),
{
    let next = applied(items, what);
    let at = first_with_key(items, key, 0);
    lemma_first_with_key(items, key, 0);
    lemma_first_with_key(next, key, 0);
    let there = first_with_key(next, key, 0);
    if at < items.len() {
        lemma_merged_keeps_key(items[at], what);
        assert(has_key(next[at], key));
        if there < at {
            assert(next[there] == items[there]);
        }
    } else {
        assert(has_key(next[at], key));
        if there < at {
            assert(next[there] == items[there]);
        }
    }
}

/// Two pieces of terminal output leave the transcript that their joined text
/// leaves in one piece.
pub proof fn law_terminal_output_joins(
    items: Seq<ItemView>,
    terminal_id: Seq<char>,
    first: Seq<char>,
    second: Seq<char>,
)
    ensures
        applied(
            applied(
                items,
                Happening::Terminal { terminal_id, title: None, output: Some(first), exit_code: None },
            ),
            Happening::Terminal { terminal_id, title: None, output: Some(second), exit_code: None },
        ) == applied(
            items,
            Happening::Terminal {
                terminal_id,
                title: None,
                output: Some(first + second),
                exit_code: None,
            },
        ),
{
    let key = ItemKey::Terminal(terminal_id);
    let one = Happening::Terminal { terminal_id, title: None, output: Some(first), exit_code: None };
    let two = Happening::Terminal { terminal_id, title: None, output: Some(second), exit_code: None };
    let both = Happening::Terminal {
        terminal_id,
        title: None,
        output: Some(first + second),
        exit_code: None,
    };
    let at = first_with_key(items, key, 0);
    let mid = applied(items, one);
    lemma_first_with_key(items, key, 0);
    lemma_first_stays(items, one, key);
    if at < items.len() {
        let stored = items[at]->Terminal_output;
        assert(stored + first + second =~= stored + (first + second));
        assert(applied(mid, two) =~= applied(items, both));
    } else {
        assert(applied(mid, two) =~= applied(items, both));
    }
}

/// What sort of item a key names.
#[derive(Clone, Copy, Debug, PartialEq, Eq, Structural)]
enum Sort {
    User,
    Assistant,
    Thought,
    Tool,
    Terminal,
}

spec fn key_of(sort: Sort, id: Seq<char>) -> ItemKey {
    match sort {
        Sort::User => ItemKey::User(id),
        Sort::Assistant => ItemKey::Assistant(id),
        Sort::Thought => ItemKey::Thought(id),
        Sort::Tool => ItemKey::Tool(id),
        Sort::Terminal => ItemKey::Terminal(id),
    }
}

fn is_named(item: &TranscriptItem, sort: Sort, id: &str) -> (r: bool)
    ensures
        r == has_key(item@, key_of(sort, id@)),
{
    match item {
        TranscriptItem::User { message_id, .. } => sort == Sort::User && same(
            message_id.as_str(),
            id,
        ),
        TranscriptItem::Assistant { message_id, .. } => sort == Sort::Assistant && same(
            message_id.as_str(),
            id,
        ),
        TranscriptItem::Thought { message_id, .. } => sort == Sort::Thought && same(
            message_id.as_str(),
            id,
        ),
        TranscriptItem::Tool { tool_call_id, .. } => sort == Sort::Tool && same(
            tool_call_id.as_str(),
            id,
        ),
        TranscriptItem::Terminal { terminal_id, .. } => sort == Sort::Terminal && same(
            terminal_id.as_str(),
            id,
        ),
        TranscriptItem::Notice { .. } => false,
    }
}

impl ConversationState {
    /// An empty transcript for the thread `thread_id`.
    pub fn new(thread_id: &str) -> (r: ConversationState)
        ensures
            r@ == (ConversationView { thread_id: thread_id@, items: Seq::empty() }),
            r@.wf(),
    {
        let r = ConversationState { thread_id: thread_id.to_owned(), items: Vec::new() };
        assert(r@.items =~= Seq::empty());
        r
    }

    /// The items, oldest first.
    pub fn items(&self) -> (r: &[TranscriptItem])
        ensures
            items_view(r@) == self@.items,
    {
        self.items.as_slice()
    }

    fn position(&self, sort: Sort, id: &str) -> (r: usize)
        ensures
            r == first_with_key(self@.items, key_of(sort, id@), 0),
            r <= self.items@.len(),
    {
        let mut i: usize = 0;
        while i < self.items.len()
            invariant
                i <= self.items.len(),
                first_with_key(self@.items, key_of(sort, id@), 0) == first_with_key(
                    self@.items,
                    key_of(sort, id@),
                    i as int,
                ),
            decreases self.items.len() - i,
        {
            if is_named(&self.items[i], sort, id) {
                return i;
            }
            i += 1;
        }
        i
    }

    /// Ends every message that is still streaming, as at the end of a turn.
    pub fn mark_all_streaming_completed(&mut self)
        ensures
            final(self)@ == (ConversationView {
                thread_id: old(self)@.thread_id,
                items: old(self)@.items.map_values(|i: ItemView| settled(i)),
            }),
    {
        let mut i: usize = 0;
        let ghost before = self.items@;
        while i < self.items.len()
            invariant
                i <= self.items.len(),
                before == old(self).items@,
                self.thread_id == old(self).thread_id,
                self.items@.len() == before.len(),
                forall|k: int| 0 <= k < i ==> (#[trigger] self.items@[k])@ == settled(before[k]@),
                forall|k: int| i <= k < before.len() ==> self.items@[k] == before[k],
            decreases self.items.len() - i,
        {
            match &mut self.items[i] {
                TranscriptItem::Assistant { streaming, .. } => {
                    *streaming = false;
                },
                TranscriptItem::Thought { streaming, .. } => {
                    *streaming = false;
                },
                _ => {},
            }
            i += 1;
        }
        assert(self@.items =~= old(self)@.items.map_values(|i: ItemView| settled(i)));
    }

    /// Takes in an event. An event of another thread changes nothing, and the
    /// answer is then `false`.
    pub fn apply(&mut self, event: ConversationEvent) -> (r: bool)
        ensures
            r == (event@.thread_id == old(self)@.thread_id),
            !r ==> final(self)@ == old(self)@,
            r ==> final(self)@ == (ConversationView {
                thread_id: old(self)@.thread_id,
                items: applied(old(self)@.items, event@.what),
            }),
            old(self)@.wf() ==> final(self)@.wf(),
    {
        if !same(event.thread_id(), self.thread_id.as_str()) {
            return false;
        }
        proof {
            if self@.wf() {
                law_applied_keeps_keys_distinct(self@.items, event@.what);
            }
        }
        match event {
            ConversationEvent::UserMessage { message_id, text, .. } => {
                self.upsert_user(message_id, text);
            },
            ConversationEvent::AssistantChunk { message_id, text, completed, .. } => {
                self.merge_text(message_id, text, completed, false);
            },
            ConversationEvent::ThoughtChunk { message_id, text, completed, .. } => {
                self.merge_text(message_id, text, completed, true);
            },
            ConversationEvent::ToolCall {
                tool_call_id,
                title,
                status,
                detail,
                raw_input,
                raw_output,
                ..
            } => {
                self.upsert_tool(tool_call_id, title, status, detail, raw_input, raw_output);
            },
            ConversationEvent::TerminalCreated { terminal_id, title, .. } => {
                self.upsert_terminal(terminal_id, Some(title), None, None);
            },
            ConversationEvent::TerminalOutput { terminal_id, text, .. } => {
                self.upsert_terminal(terminal_id, None, Some(text), None);
            },
            ConversationEvent::TerminalExited { terminal_id, exit_code, .. } => {
                self.upsert_terminal(terminal_id, None, None, Some(exit_code));
            },
            ConversationEvent::Notice { text, .. } => {
                self.items.push(TranscriptItem::Notice { text });
                assert(self@.items =~= applied(old(self)@.items, event@.what));
            },
        }
        true
    }

    /// Puts a message of the user in the place of the one with the id, or at the
    /// end.
    pub fn upsert_user(&mut self, message_id: String, text: String)
        ensures
            final(self)@ == (ConversationView {
                thread_id: old(self)@.thread_id,
                items: applied(
                    old(self)@.items,
                    Happening::UserMessage { message_id: message_id@, text: text@ },
                ),
            }),
    {
        let ghost what = Happening::UserMessage { message_id: message_id@, text: text@ };
        let at: usize = self.position(Sort::User, message_id.as_str());
        proof {
            lemma_first_with_key(self@.items, ItemKey::User(message_id@), 0);
        }
        if at < self.items.len() {
            match &mut self.items[at] {
                TranscriptItem::User { text: stored, .. } => {
                    *stored = text;
                },
                _ => {},
            }
        } else {
            self.items.push(TranscriptItem::User { message_id, text });
        }
        assert(self@.items =~= applied(old(self)@.items, what));
    }

    /// Adds a piece of an answer or of a thought: to the one with the id, or as a
    /// new one at the end.
    pub fn merge_text(&mut self, message_id: String, text: String, completed: bool, thought: bool)
        ensures
            final(self)@ == (ConversationView {
                thread_id: old(self)@.thread_id,
                items: applied(
                    old(self)@.items,
                    chunk(message_id@, text@, completed, thought),
                ),
            }),
    {
        let ghost what = chunk(message_id@, text@, completed, thought);
        let sort: Sort = if thought {
            Sort::Thought
        } else {
            Sort::Assistant
        };
        let at: usize = self.position(sort, message_id.as_str());
        proof {
            lemma_first_with_key(self@.items, key_of(sort, message_id@), 0);
        }
        if at < self.items.len() {
            match &mut self.items[at] {
                TranscriptItem::Assistant { text: stored, streaming, .. } => {
                    stored.append(text.as_str());
                    *streaming = !completed;
                },
                TranscriptItem::Thought { text: stored, streaming, .. } => {
                    stored.append(text.as_str());
                    *streaming = !completed;
                },
                _ => {},
            }
        } else if thought {
            self.items.push(TranscriptItem::Thought { message_id, text, streaming: !completed });
        } else {
            self.items.push(TranscriptItem::Assistant { message_id, text, streaming: !completed });
        }
        assert(self@.items =~= applied(old(self)@.items, what));
    }

    fn upsert_tool(
        &mut self,
        tool_call_id: String,
        title: Option<String>,
        status: Option<String>,
        detail: Option<String>,
        raw_input: Option<String>,
        raw_output: Option<String>,
    )
        ensures
            final(self)@ == (ConversationView {
                thread_id: old(self)@.thread_id,
                items: applied(
                    old(self)@.items,
                    Happening::ToolCall {
                        tool_call_id: tool_call_id@,
                        title: optional_text(title),
                        status: optional_text(status),
                        detail: optional_text(detail),
                        raw_input: optional_text(raw_input),
                        raw_output: optional_text(raw_output),
                    },
                ),
            }),
    {
        let ghost what = Happening::ToolCall {
            tool_call_id: tool_call_id@,
            title: optional_text(title),
            status: optional_text(status),
            detail: optional_text(detail),
            raw_input: optional_text(raw_input),
            raw_output: optional_text(raw_output),
        };
        let at: usize = self.position(Sort::Tool, tool_call_id.as_str());
        proof {
            lemma_first_with_key(self@.items, ItemKey::Tool(tool_call_id@), 0);
        }
        if at < self.items.len() {
            match &mut self.items[at] {
                TranscriptItem::Tool {
                    title: stored_title,
                    status: stored_status,
                    detail: stored_detail,
                    raw_input: stored_raw_input,
                    raw_output: stored_raw_output,
                    ..
                } => {
                    if let Some(new_title) = title {
                        *stored_title = new_title;
                    }
                    if status.is_some() {
                        *stored_status = status;
                    }
                    if detail.is_some() {
                        *stored_detail = detail;
                    }
                    if raw_input.is_some() {
                        *stored_raw_input = raw_input;
                    }
                    if raw_output.is_some() {
                        *stored_raw_output = raw_output;
                    }
                },
                _ => {},
            }
        } else {
            let shown: String = match title {
                Some(t) => t,
                None => String::new(),
            };
            self.items.push(
                TranscriptItem::Tool {
                    tool_call_id,
                    title: shown,
                    status,
                    detail,
                    raw_input,
                    raw_output,
                },
            );
        }
        assert(self@.items =~= applied(old(self)@.items, what));
    }

    fn upsert_terminal(
        &mut self,
        terminal_id: String,
        title: Option<String>,
        output: Option<String>,
        exit_code: Option<i32>,
    )
        ensures
            final(self)@ == (ConversationView {
                thread_id: old(self)@.thread_id,
                items: applied(
                    old(self)@.items,
                    Happening::Terminal {
                        terminal_id: terminal_id@,
                        title: optional_text(title),
                        output: optional_text(output),
                        exit_code,
                    },
                ),
            }),
    {
        let ghost what = Happening::Terminal {
            terminal_id: terminal_id@,
            title: optional_text(title),
            output: optional_text(output),
            exit_code,
        };
        let at: usize = self.position(Sort::Terminal, terminal_id.as_str());
        proof {
            lemma_first_with_key(self@.items, ItemKey::Terminal(terminal_id@), 0);
        }
        if at < self.items.len() {
            let ghost before = self.items@[at as int]@->Terminal_output;
            assert(before + Seq::<char>::empty() =~= before);
            match &mut self.items[at] {
                TranscriptItem::Terminal {
                    title: stored_title,
                    output: stored_output,
                    exit_code: stored_exit_code,
                    ..
                } => {
                    if let Some(new_title) = title {
                        *stored_title = new_title;
                    }
                    if let Some(text) = output {
                        stored_output.append(text.as_str());
                    }
                    if exit_code.is_some() {
                        *stored_exit_code = exit_code;
                    }
                },
                _ => {},
            }
        } else {
            let shown: String = match title {
                Some(t) => t,
                None => "Terminal".to_owned(),
            };
            let printed: String = match output {
                Some(o) => o,
                None => String::new(),
            };
            self.items.push(
                TranscriptItem::Terminal { terminal_id, title: shown, output: printed, exit_code },
            );
        }
        assert(self@.items =~= applied(old(self)@.items, what));
    }
}

/// An item that no longer streams.
pub open spec fn settled(item: ItemView) -> ItemView {
    match item {
        ItemView::Assistant { message_id, text, .. } => ItemView::Assistant {
            message_id,
            text,
            streaming: false,
        },
        ItemView::Thought { message_id, text, .. } => ItemView::Thought {
            message_id,
            text,
            streaming: false,
        },
        _ => item,
    }
}

/// A piece of an assistant's message or of its thoughts.
pub open spec fn chunk(
    message_id: Seq<char>,
    text: Seq<char>,
    completed: bool,
    thought: bool,
) -> Happening {
    if thought {
        Happening::ThoughtChunk { message_id, text, completed }
    } else {
        Happening::AssistantChunk { message_id, text, completed }
    }
}

/// Whether an item still streams.
pub open spec fn streams(item: ItemView) -> bool {
    match item {
        ItemView::Assistant { streaming, .. } => streaming,
        ItemView::Thought { streaming, .. } => streaming,
        _ => false,
    }
}

/// Ending every stream leaves none, keeps every key, and done twice is the
/// same as done once.
pub proof fn law_settled(items: Seq<ItemView>)
    ensures
        ({
            let after = items.map_values(|i: ItemView| settled(i));
            &&& forall|i: int| 0 <= i < after.len() ==> !streams(#[trigger] after[i])
            &&& forall|i: int|
                0 <= i < after.len() ==> item_key(#[trigger] after[i]) == item_key(items[i])
            &&& after.map_values(|i: ItemView| settled(i)) == after
            &&& distinct_keys(items) ==> distinct_keys(after)
        }),
{
    let after = items.map_values(|i: ItemView| settled(i));
    assert(after.map_values(|i: ItemView| settled(i)) =~= after);
    if distinct_keys(items) {
        assert forall|i: int, k: int|
            0 <= i < k < after.len() && item_key(#[trigger] after[i]) is Some implies item_key(
            after[i],
        ) != item_key(#[trigger] after[k]) by {
            assert(item_key(after[i]) == item_key(items[i]));
            assert(item_key(after[k]) == item_key(items[k]));
        }
    }
}

/// Where the reading of a history stands: the transcript so far, the message
/// under a made-up id that a chunk without an id of its own would continue, and
/// how many ids have been made up.
#[verifier::ext_equal]
pub struct Reading {
    pub items: Seq<ItemView>,
    pub open_run: Option<(MessageKind, Seq<char>)>,
    pub made_up: nat,
}

/// The `n`th made-up id.
pub open spec fn synthetic_id(n: nat) -> Seq<char> {
    "synthetic-"@ + decimal(n)
}

/// Whether a chunk of kind `kind` without an id continues the open message.
pub open spec fn continues_run(at: Reading, kind: MessageKind) -> bool {
    match at.open_run {
        Some((open_kind, _)) => open_kind == kind,
        None => false,
    }
}

/// The id of the open message.
pub open spec fn run_id(at: Reading) -> Seq<char> {
    match at.open_run {
        Some((_, id)) => id,
        None => Seq::empty(),
    }
}

/// The id under which a message enters the transcript: its own; for a chunk
/// without one that of the open message, where it is of the same kind; else
/// one that is made up.
pub open spec fn entry_id(at: Reading, m: ChatMessageView) -> Seq<char> {
    match m.id {
        Some(id) => id,
        None => if (m.kind == MessageKind::Agent || m.kind == MessageKind::Thinking)
            && continues_run(at, m.kind) {
            run_id(at)
        } else {
            synthetic_id(at.made_up + 1)
        },
    }
}

/// Whether an id has to be made up for a message.
pub open spec fn makes_up_id(at: Reading, m: ChatMessageView) -> bool {
    m.id is None && !((m.kind == MessageKind::Agent || m.kind == MessageKind::Thinking)
        && continues_run(at, m.kind))
}

/// A document printed as JSON text.
pub open spec fn printed(o: Option<crate::json::Json>) -> Option<Seq<char>> {
    match o {
        Some(j) => Some(crate::json::json_text(j)),
        None => None,
    }
}

/// The event that a message of the history stands for.
pub open spec fn message_event(id: Seq<char>, m: ChatMessageView) -> Happening {
    match m.kind {
        MessageKind::User => Happening::UserMessage { message_id: id, text: m.text },
        MessageKind::Agent => Happening::AssistantChunk {
            message_id: id,
            text: m.text,
            completed: true,
        },
        MessageKind::Thinking => Happening::ThoughtChunk {
            message_id: id,
            text: m.text,
            completed: true,
        },
        MessageKind::ToolCall => Happening::ToolCall {
            tool_call_id: id,
            title: if m.text.len() > 0 {
                Some(m.text)
            } else {
                None
            },
            status: m.status,
            detail: None,
            raw_input: printed(m.raw_input),
            raw_output: printed(m.raw_output),
        },
    }
}

/// Where the reading stands after one more message. A chunk without an id of its
/// own opens its message, or keeps it open; anything else closes it.
pub open spec fn read_message(at: Reading, m: ChatMessageView) -> Reading {
    let id = entry_id(at, m);
    Reading {
        items: applied(at.items, message_event(id, m)),
        open_run: if (m.kind == MessageKind::Agent || m.kind == MessageKind::Thinking)
            && m.id is None {
            Some((m.kind, id))
        } else {
            None
        },
        made_up: if makes_up_id(at, m) {
            at.made_up + 1
        } else {
            at.made_up
        },
    }
}

/// Where the reading stands after a whole history.
pub open spec fn read_history(history: Seq<ChatMessageView>) -> Reading
    decreases history.len(),
{
    if history.len() == 0 {
        Reading { items: Seq::empty(), open_run: None, made_up: 0 }
    } else {
        read_message(read_history(history.drop_last()), history.last())
    }
}

/// A history makes up at most one id for each message.
proof fn lemma_made_up_bound(history: Seq<ChatMessageView>)
    ensures
        read_history(history).made_up <= history.len(),
    decreases history.len(),
{
    if history.len() > 0 {
        lemma_made_up_bound(history.drop_last());
    }
}

/// A rebuilt transcript has one item for each key, and nothing in it streams.
pub proof fn law_rebuilt_is_settled(history: Seq<ChatMessageView>)
    ensures
        distinct_keys(read_history(history).items),
        forall|i: int|
            0 <= i < read_history(history).items.len() ==> !streams(
                #[trigger] read_history(history).items[i],
            ),
    decreases history.len(),
{
    if history.len() > 0 {
        let before = read_history(history.drop_last());
        law_rebuilt_is_settled(history.drop_last());
        let what = message_event(entry_id(before, history.last()), history.last());
        law_applied_keeps_keys_distinct(before.items, what);
        let after = applied(before.items, what);
        let key = target_key(what)->0;
        let at = first_with_key(before.items, key, 0);
        lemma_first_with_key(before.items, key, 0);
        assert forall|i: int| 0 <= i < after.len() implies !streams(#[trigger] after[i]) by {
            if i < before.items.len() && i != at {
                assert(after[i] == before.items[i]);
            } else if i < before.items.len() {
                assert(!streams(before.items[i]));
            }
        }
    }
}

/// Chunks of one kind that follow each other without an id of their own enter
/// the transcript under one id.
pub proof fn law_chunks_without_id_share_one(
    history: Seq<ChatMessageView>,
    first: ChatMessageView,
    second: ChatMessageView,
)
    requires
        first.kind == second.kind,
        first.kind == MessageKind::Agent || first.kind == MessageKind::Thinking,
        first.id is None,
        second.id is None,
    ensures
        entry_id(read_history(history.push(first)), second) == entry_id(
            read_history(history),
            first,
        ),
{
    assert(history.push(first).drop_last() =~= history);
}

/// A user message, a tool call or anything with an id of its own keeps what
/// comes later without an id apart from what came before: it gets an id that is
/// made up for it.
pub proof fn law_interruption_closes_run(
    history: Seq<ChatMessageView>,
    between: ChatMessageView,
    later: ChatMessageView,
)
    requires
        between.kind == MessageKind::User || between.kind == MessageKind::ToolCall
            || between.id is Some,
        later.id is None,
    ensures
        entry_id(read_history(history.push(between)), later) == synthetic_id(
            read_history(history.push(between)).made_up + 1,
        ),
{
    assert(history.push(between).drop_last() =~= history);
}

/// A longer history keeps every earlier row in its place: no row goes away or
/// moves, and each keeps its key.
pub proof fn law_longer_history_keeps_rows(
    history: Seq<ChatMessageView>,
    more: Seq<ChatMessageView>,
)
    ensures
        read_history(history).items.len() <= read_history(history + more).items.len(),
        forall|i: int|
            #![trigger read_history(history + more).items[i]]
            0 <= i < read_history(history).items.len() ==> item_key(
                read_history(history + more).items[i],
            ) == item_key(read_history(history).items[i]),
    decreases more.len(),
{
    if more.len() == 0 {
        assert(history + more =~= history);
    } else {
        law_longer_history_keeps_rows(history, more.drop_last());
        assert((history + more).drop_last() =~= history + more.drop_last());
        let before = read_history(history + more.drop_last());
        let what = message_event(entry_id(before, more.last()), more.last());
        law_items_stay_in_place(before.items, what);
        assert(read_history(history + more).items == applied(before.items, what));
        assert forall|i: int|
            0 <= i < read_history(history).items.len() implies item_key(
            #[trigger] read_history(history + more).items[i],
        ) == item_key(read_history(history).items[i]) by {
            assert(item_key(applied(before.items, what)[i]) == item_key(before.items[i]));
        }
    }
}

fn made_up_id(made_up: &mut u64) -> (r: String)
    requires
        *old(made_up) < u64::MAX,
    ensures
        *final(made_up) == *old(made_up) + 1,
        r@ == synthetic_id((*old(made_up) + 1) as nat),
{
    *made_up = *made_up + 1;
    join("synthetic-", decimal_text(*made_up).as_str())
}

fn print_optional(o: &Option<crate::json::JsonValue>) -> (r: Option<String>)
    ensures
        optional_text(r) == printed(crate::protocol_types::optional_json(*o)),
{
    match o {
        Some(v) => Some(v.to_text()),
        None => None,
    }
}

spec fn run_view(run: Option<(MessageKind, String)>) -> Option<(MessageKind, Seq<char>)> {
    match run {
        Some((kind, id)) => Some((kind, id@)),
        None => None,
    }
}

/// Derives the transcript of a thread from its whole history, oldest first.
///
/// `thread_id` is only what the transcript is labelled with; what it holds
/// depends on the history alone.
pub fn rebuild_from_chat_messages(thread_id: &str, history: &[ChatMessage]) -> (r:
    ConversationState)
    ensures
        r@ == (ConversationView {
            thread_id: thread_id@,
            items: read_history(messages_view(history@)).items,
        }),
        r@.wf(),
{
    let ghost all = messages_view(history@);
    let mut state: ConversationState = ConversationState::new(thread_id);
    let mut open_run: Option<(MessageKind, String)> = None;
    let mut made_up: u64 = 0;
    let mut i: usize = 0;
    assert(all.take(0) =~= Seq::empty());
    while i < history.len()
        invariant
            i <= history.len(),
            all == messages_view(history@),
            state@.thread_id == thread_id@,
            state@.wf(),
            state@.items == read_history(all.take(i as int)).items,
            run_view(open_run) == read_history(all.take(i as int)).open_run,
            made_up == read_history(all.take(i as int)).made_up,
        decreases history.len() - i,
    {
        let msg: &ChatMessage = &history[i];
        let ghost at = read_history(all.take(i as int));
        proof {
            lemma_made_up_bound(all.take(i as int));
            assert(all.take(i + 1).drop_last() =~= all.take(i as int));
            assert(all.take(i + 1).last() == msg@);
        }
        match msg.kind {
            MessageKind::User => {
                open_run = None;
                let message_id: String = match &msg.id {
                    Some(id) => id.clone(),
                    None => made_up_id(&mut made_up),
                };
                assert(message_id@ == entry_id(at, msg@));
                state.apply(
                    ConversationEvent::UserMessage {
                        thread_id: thread_id.to_owned(),
                        message_id,
                        text: msg.text.clone(),
                    },
                );
            },
            MessageKind::Agent | MessageKind::Thinking => {
                let message_id: String = match &msg.id {
                    Some(id) => id.clone(),
                    None => match &open_run {
                        Some((kind, id)) => {
                            if *kind == msg.kind {
                                id.clone()
                            } else {
                                made_up_id(&mut made_up)
                            }
                        },
                        None => made_up_id(&mut made_up),
                    },
                };
                assert(message_id@ == entry_id(at, msg@));
                open_run = if msg.id.is_some() {
                    None
                } else {
                    Some((msg.kind, message_id.clone()))
                };
                let event: ConversationEvent = if msg.kind == MessageKind::Thinking {
                    ConversationEvent::ThoughtChunk {
                        thread_id: thread_id.to_owned(),
                        message_id,
                        text: msg.text.clone(),
                        completed: true,
                    }
                } else {
                    ConversationEvent::AssistantChunk {
                        thread_id: thread_id.to_owned(),
                        message_id,
                        text: msg.text.clone(),
                        completed: true,
                    }
                };
                state.apply(event);
            },
            MessageKind::ToolCall => {
                open_run = None;
                let tool_call_id: String = match &msg.id {
                    Some(id) => id.clone(),
                    None => made_up_id(&mut made_up),
                };
                assert(tool_call_id@ == entry_id(at, msg@));
                let title: Option<String> = if msg.text.as_str().is_empty() {
                    None
                } else {
                    Some(msg.text.clone())
                };
                state.apply(
                    ConversationEvent::ToolCall {
                        thread_id: thread_id.to_owned(),
                        tool_call_id,
                        title,
                        status: clone_optional(&msg.status),
                        detail: None,
                        raw_input: print_optional(&msg.raw_input),
                        raw_output: print_optional(&msg.raw_output),
                    },
                );
            },
        }
        i += 1;
    }
    assert(all.take(history@.len() as int) =~= all);
    state
}

} // verus!
