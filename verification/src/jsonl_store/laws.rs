//! What the cache keeps and gives back, said of files, lines and messages.

use crate::json::{json_parsed, str_field};
use crate::jsonl_format::{line_read, trailer_read, LineView, TrailerView};
use crate::jsonl_lines::{index_bytes, index_read, line_starts, raw_line, NEWLINE};
use crate::jsonl_store::{
    appended, bad_state, content_of, ensured, first_bad, grown, index_agrees, index_changed,
    index_path, index_used, jsonl_path, last_trailer, law_pages_are_parts_of_load,
    law_tail_is_the_newest_page, line_from, line_state, load_read, loaded, message_line, offsets_of,
    page_before, page_line_state, range_of, reindexed, runtime_path, snapshot_read, sound, stale,
    state_at, state_trailer, tail_read, text_state, trailer_file_read, trailer_path, unlisted,
    without_line_ends, CacheErrorView, IndexChange, IndexUse, IoReason, LineState, StoreView,
};
use crate::paths::joined;
use crate::protocol_types::ChatMessageView;
use crate::records::{text_without_repeats, Part, Record};
use crate::runtime_snapshot::{empty_snapshot, Stored, ThreadRuntimeSnapshot};
use crate::text::{blank, decimal};
use vstd::prelude::*;
use vstd::utf8::{
    decode_utf8, encode_utf8, encode_utf8_decode_utf8, encode_utf8_valid_utf8, valid_utf8,
};

verus! {

/// The files of a thread stand in the directory of the cache, under its id.
pub proof fn law_files_go_by_the_id(v: StoreView, id: Seq<char>)
    ensures
        jsonl_path(v, id) == joined(v.dir, id + ".jsonl"@),
        index_path(v, id) == joined(v.dir, id + ".idx"@),
        trailer_path(v, id) == joined(v.dir, id + ".trailer.json"@),
        runtime_path(v, id) == joined(v.dir, id + ".runtime.json"@),
{
}

/// A file that was written is what it was written with, and no other file
/// changes.
pub proof fn law_written_file_is_read(
    v: StoreView,
    path: Seq<char>,
    bytes: Seq<u8>,
    other: Seq<char>,
)
    ensures
        v.with(path, bytes).file(path) == Some(bytes),
        other != path ==> v.with(path, bytes).file(other) == v.file(other),
        v.with(path, bytes).dir == v.dir,
{
}

/// A history is fetched again where nothing is cached, or where the agent's title
/// or time differs from the one that was recorded; and only then.
pub proof fn law_unchanged_history_is_not_fetched(
    t: TrailerView,
    title: Option<Seq<char>>,
    updated_at: Option<Seq<char>>,
)
    ensures
        stale(None, title, updated_at),
        !stale(Some(t), t.title, t.updated_at),
        title != t.title ==> stale(Some(t), title, updated_at),
        updated_at != t.updated_at ==> stale(Some(t), title, updated_at),
{
}

/// The page before a position has as many messages as there are before it, up to
/// its size; they are the ones right before it, in order; and it says whether
/// there are older ones, and where it starts.
pub proof fn law_page_holds_the_messages_before(
    v: StoreView,
    id: Seq<char>,
    before_index: int,
    page_size: int,
)
    requires
        sound(content_of(v, id)),
        index_agrees(v, id),
        content_of(v, id).len() <= u64::MAX,
        0 <= before_index,
        0 <= page_size,
    ensures
        ({
            let all = load_read(v, id)->Ok_0.messages;
            let page = page_before(v, id, before_index, page_size)->Ok_0;
            let n = page.messages.len() as int;
            let start = page.oldest_loaded_index;
            &&& page_before(v, id, before_index, page_size) is Ok
            &&& before_index <= all.len() ==> start + n == before_index
            &&& before_index > all.len() ==> start + n == all.len()
            &&& n <= page_size
            &&& n < page_size ==> start == 0
            &&& page.older_available <==> start > 0
            &&& forall|k: int| 0 <= k < n ==> #[trigger] page.messages[k] == all[start + k]
        }),
{
    law_pages_are_parts_of_load(v, id, before_index, page_size);
}

/// The newest page holds the newest messages, up to its size, in order.
pub proof fn law_tail_holds_the_newest(v: StoreView, id: Seq<char>, page_size: int)
    requires
        sound(content_of(v, id)),
        index_agrees(v, id),
        content_of(v, id).len() <= u64::MAX,
        0 <= page_size,
    ensures
        ({
            let all = load_read(v, id)->Ok_0.messages;
            let page = tail_read(v, id, page_size)->Ok_0;
            &&& tail_read(v, id, page_size) is Ok
            &&& page.messages.is_suffix_of(all)
            &&& all.len() <= page_size ==> page.messages == all && !page.older_available
            &&& all.len() > page_size ==> page.messages.len() == page_size && page.older_available
            &&& page.oldest_loaded_index == all.len() - page.messages.len()
        }),
{
    let all = load_read(v, id)->Ok_0.messages;
    law_tail_is_the_newest_page(v, id, page_size);
    law_page_holds_the_messages_before(v, id, all.len() as int, page_size);
    let page = tail_read(v, id, page_size)->Ok_0;
    assert(all.skip(all.len() - page.messages.len()) =~= page.messages);
}

/// A page goes from as far back as its size allows to the position that was
/// given, or to the end.
pub proof fn law_page_range(listed: int, before: Option<int>, page_size: int)
    requires
        0 <= listed,
        0 <= page_size,
        before is Some ==> 0 <= before->0,
    ensures
        ({
            let (start, end) = range_of(listed, before, page_size);
            &&& before is None ==> end == listed
            &&& before matches Some(at) ==> at <= listed ==> end == at
            &&& before matches Some(at) ==> at > listed ==> end == listed
            &&& 0 <= start <= end
            &&& end - start <= page_size
            &&& end - start < page_size ==> start == 0
        }),
{
}

proof fn lemma_first_bad(content: Seq<u8>, starts: Seq<int>, from: int)
    requires
        0 <= from <= starts.len(),
    ensures
        from <= first_bad(content, starts, from) <= starts.len(),
        first_bad(content, starts, from) < starts.len() ==> bad_state(
            state_at(content, starts[first_bad(content, starts, from)]),
        ),
        forall|k: int|
            from <= k < first_bad(content, starts, from) ==> !bad_state(
                state_at(content, #[trigger] starts[k]),
            ),
    decreases starts.len() - from,
{
    if from < starts.len() && !bad_state(state_at(content, starts[from])) {
        lemma_first_bad(content, starts, from + 1);
    }
}

/// A file is loaded exactly where each of its lines is blank or holds a message or
/// a trailer. Else the first line that is none of these is told, by its number
/// from one on, or that it is no text.
pub proof fn law_first_bad_line_is_told(content: Seq<u8>, path: Seq<char>, k: int)
    requires
        0 <= k < line_starts(content, 0).len(),
        forall|i: int|
            0 <= i < k ==> !is_bad(state_at(content, #[trigger] line_starts(content, 0)[i])),
    ensures
        ({
            let state = state_at(content, line_starts(content, 0)[k]);
            &&& state is NotText ==> loaded(content, path) == Err::<
                crate::jsonl_store::CachedView,
                CacheErrorView,
            >(CacheErrorView::Io { path, reason: IoReason::InvalidUtf8 })
            &&& state is Malformed ==> loaded(content, path) == Err::<
                crate::jsonl_store::CachedView,
                CacheErrorView,
            >(CacheErrorView::Parse { path, line_no: k + 1 })
            &&& !is_bad(state) && k == line_starts(content, 0).len() - 1 ==> loaded(
                content,
                path,
            ) is Ok
        }),
{
    let starts = line_starts(content, 0);
    lemma_first_bad(content, starts, 0);
    let bad = first_bad(content, starts, 0);
    if bad < k {
        assert(!is_bad(state_at(content, starts[bad])));
    }
    if is_bad(state_at(content, starts[k])) && bad > k {
        assert(!bad_state(state_at(content, starts[k])));
    }
}

/// Whether a line keeps its file from being loaded.
pub open spec fn is_bad(state: LineState) -> bool {
    state is NotText || state is Malformed
}

/// Of several trailers in a file, the last counts.
pub proof fn law_last_trailer_counts(content: Seq<u8>, starts: Seq<int>, k: int, t: TrailerView)
    requires
        0 <= k < starts.len(),
        state_at(content, starts[k]) == LineState::Holds(LineView::Trailer(t)),
        forall|i: int|
            k < i < starts.len() ==> !(state_at(content, #[trigger] starts[i]) matches LineState::Holds(
                LineView::Trailer(_),
            )),
    ensures
        last_trailer(content, starts) == Some(t),
    decreases starts.len(),
{
    if k < starts.len() - 1 {
        assert(state_trailer(state_at(content, starts[starts.len() - 1])) is None);
        let rest = starts.drop_last();
        assert(rest[k] == starts[k]);
        assert forall|i: int| k < i < rest.len() implies !(state_at(
            content,
            #[trigger] rest[i],
        ) matches LineState::Holds(LineView::Trailer(_))) by {
            assert(rest[i] == starts[i]);
        }
        law_last_trailer_counts(content, rest, k, t);
    }
}

/// A thread without files has no messages, no trailer and no state, and that is
/// no error.
pub proof fn law_missing_files_are_no_error(v: StoreView, id: Seq<char>)
    ensures
        v.file(jsonl_path(v, id)) is None ==> load_read(v, id) is Ok && load_read(
            v,
            id,
        )->Ok_0.messages.len() == 0 && load_read(v, id)->Ok_0.trailer is None,
        v.file(trailer_path(v, id)) is None ==> trailer_file_read(v, id) is Ok
            && trailer_file_read(v, id)->Ok_0 is None,
        v.file(runtime_path(v, id)) is None ==> snapshot_read(v, id) is Ok && snapshot_read(
            v,
            id,
        )->Ok_0 == empty_snapshot(),
        ({
            let none = empty_snapshot();
            &&& none.pending_requests.len() == 0
            &&& none.terminals.len() == 0
            &&& none.session_modes is None
            &&& none.config_options.len() == 0
        }),
{
}

/// An index that lists something is used as it is; one that is missing, or lists
/// nothing where there are lines, is written anew; and one that is no text is an
/// error.
pub proof fn law_index_is_used_where_it_lists(
    index: Option<Seq<u8>>,
    lines_len: u64,
    r: IndexUse,
)
    requires
        index_used(index, lines_len, r),
    ensures
        index is None ==> r is Rebuild,
        index matches Some(bytes) ==> {
            &&& r is NotText <==> !valid_utf8(bytes)
            &&& valid_utf8(bytes) && index_read(bytes).len() > 0 ==> (r matches IndexUse::Listed(
                offsets,
            ) && offsets@.len() == index_read(bytes).len() && forall|k: int|
                0 <= k < offsets@.len() ==> (#[trigger] offsets@[k]) == index_read(bytes)[k])
            &&& valid_utf8(bytes) && index_read(bytes).len() == 0 ==> (r is Rebuild <==> lines_len
                > 0)
        },
{
    if let Some(bytes) = index {
        if valid_utf8(bytes) && index_read(bytes).len() > 0 {
            let offsets = r->Listed_0;
            let seen = crate::jsonl_store::offsets_view(offsets@);
            assert forall|k: int| 0 <= k < offsets@.len() implies (#[trigger] offsets@[k])
                == index_read(bytes)[k] by {
                assert(seen[k] == offsets@[k]);
            }
        }
    }
}

/// A line that is added is listed where it starts: at the end of an index that
/// lists something, as the only entry for the first line; else the index is
/// written anew.
pub proof fn law_added_line_is_listed(index: Option<Seq<u8>>, offset: u64, r: IndexChange)
    requires
        index_changed(index, offset, r),
    ensures
        index matches Some(bytes) ==> valid_utf8(bytes) && index_read(bytes).len() > 0 ==> (
        r matches IndexChange::Add(added) && added@ == encode_utf8(decimal(offset as nat)) + seq![
            10u8,
        ]),
        index is None && offset == 0 ==> (r matches IndexChange::Begin(begun) && begun@
            == index_bytes(seq![0int])),
        index is None && offset > 0 ==> r is Rebuild,
{
}

/// A text is a line where it is JSON that reads as one and has no field of it
/// twice; any other text is malformed.
pub proof fn law_text_is_a_line_or_malformed(text: Seq<char>, line: LineView)
    ensures
        text_state(text) == LineState::Holds(line) <==> (json_parsed(text) matches Some(j)
            && line_read(j) == Some(line) && (line is Message ==> text_without_repeats(
            text,
            Part::One(Record::MessageLine),
        )) && (line is Trailer ==> text_without_repeats(text, Part::One(Record::TrailerLine)))),
        text_state(text) is Holds || text_state(text) is Malformed,
{
}

/// A line of bytes is nothing where it is blank, and what its text says elsewhere;
/// bytes that are no text are neither.
pub proof fn law_line_is_what_its_text_says(text: Seq<char>, bytes: Seq<u8>)
    ensures
        blank(text) ==> line_state(encode_utf8(text)) is Blank,
        !blank(text) ==> line_state(encode_utf8(text)) == text_state(text),
        page_line_state(encode_utf8(text)) == text_state(without_line_ends(text)),
        !valid_utf8(bytes) ==> line_state(bytes) is NotText && page_line_state(bytes) is NotText,
{
    encode_utf8_valid_utf8(text);
    encode_utf8_decode_utf8(text);
    crate::text::lemma_blank_is_trimmed_empty(text);
}

/// A line counts as a message where it is JSON that says so.
pub proof fn law_messages_say_that_they_are(line: Seq<u8>)
    ensures
        message_line(line) <==> line.len() > 0 && valid_utf8(line) && (json_parsed(
            decode_utf8(line),
        ) matches Some(j) && str_field(j, "line_kind"@) == Some("message"@)),
{
}

/// The line at an offset is the one that starts there; behind the file there is
/// none.
pub proof fn law_line_starts_at_its_offset(content: Seq<u8>, offset: int)
    ensures
        0 <= offset < content.len() ==> line_from(content, offset) == raw_line(content, offset),
        offset < 0 || offset >= content.len() ==> line_from(content, offset).len() == 0,
{
}

/// The trailer of a thread is the one that its file holds; a file that is no text,
/// or holds no trailer, is an error.
pub proof fn law_trailer_is_the_one_kept(v: StoreView, id: Seq<char>, content: Seq<u8>)
    requires
        v.file(trailer_path(v, id)) == Some(content),
    ensures
        !valid_utf8(content) ==> (trailer_file_read(v, id) matches Err(error) && error
            == (CacheErrorView::Io { path: trailer_path(v, id), reason: IoReason::InvalidUtf8 })),
        trailer_file_read(v, id) matches Ok(found) ==> valid_utf8(content) && (json_parsed(
            decode_utf8(content),
        ) matches Some(j) && trailer_read(j) == found && found is Some) && text_without_repeats(
            decode_utf8(content),
            Part::One(Record::Trailer),
        ),
        valid_utf8(content) ==> (json_parsed(decode_utf8(content)) matches Some(j) ==> trailer_read(
            j,
        ) is Some && text_without_repeats(decode_utf8(content), Part::One(Record::Trailer))
            ==> trailer_file_read(v, id) is Ok),
        valid_utf8(content) && trailer_file_read(v, id) is Err ==> trailer_file_read(v, id)->Err_0
            == (CacheErrorView::Parse { path: trailer_path(v, id), line_no: 0 }),
{
}

/// The snapshot of a thread is the one that its file holds; a file that is no text,
/// or holds no snapshot, is an error.
pub proof fn law_snapshot_is_the_one_kept(v: StoreView, id: Seq<char>, content: Seq<u8>)
    requires
        v.file(runtime_path(v, id)) == Some(content),
    ensures
        !valid_utf8(content) ==> snapshot_read(v, id) is Err,
        snapshot_read(v, id) matches Ok(found) ==> valid_utf8(content) && (json_parsed(
            decode_utf8(content),
        ) matches Some(j) && ThreadRuntimeSnapshot::decoded(j) == Some(found))
            && text_without_repeats(decode_utf8(content), Part::One(Record::Snapshot)),
        valid_utf8(content) ==> (json_parsed(
            decode_utf8(content),
        ) matches Some(j) ==> ThreadRuntimeSnapshot::decoded(j) is Some && text_without_repeats(
            decode_utf8(content),
            Part::One(Record::Snapshot),
        ) ==> snapshot_read(v, id) is Ok),
        snapshot_read(v, id) is Err ==> snapshot_read(v, id)->Err_0 == (CacheErrorView::Parse {
            path: runtime_path(v, id),
            line_no: 0,
        }),
{
}

/// Where the messages of a thread start is taken from its index; an index that is
/// missing, or lists nothing of a file that has something, is made anew from the
/// file, and one that is no text is an error.
pub proof fn law_index_is_used_or_made(v: StoreView, id: Seq<char>, index: Seq<u8>)
    ensures
        v.file(index_path(v, id)) is None ==> ensured(v, id).0 == reindexed(v, id) && ensured(
            v,
            id,
        ).1 == Ok::<Seq<int>, CacheErrorView>(offsets_of(content_of(v, id))),
        v.file(index_path(v, id)) == Some(index) ==> {
            &&& !valid_utf8(index) ==> ensured(v, id).0 == v && ensured(v, id).1 is Err
            &&& valid_utf8(index) && (index_read(index).len() > 0 || content_of(v, id).len() == 0)
                ==> ensured(v, id).0 == v && ensured(v, id).1 == Ok::<Seq<int>, CacheErrorView>(
                index_read(index),
            )
            &&& valid_utf8(index) && index_read(index).len() == 0 && content_of(v, id).len() > 0
                ==> ensured(v, id).0 == reindexed(v, id) && ensured(v, id).1 == Ok::<
                Seq<int>,
                CacheErrorView,
            >(offsets_of(content_of(v, id)))
        },
{
}

/// A message that is added is added to an index that lists something, begins the
/// index of an empty thread, and has any other index made anew.
pub proof fn law_added_message_is_indexed(v: StoreView, id: Seq<char>, m: ChatMessageView)
    ensures
        ({
            let lines = v.with(jsonl_path(v, id), grown(v, id, m));
            &&& unlisted(v, id) && content_of(v, id).len() == 0 ==> appended(v, id, m)
                == lines.with(index_path(v, id), index_bytes(seq![0int]))
            &&& unlisted(v, id) && content_of(v, id).len() > 0 ==> appended(v, id, m) == reindexed(
                lines,
                id,
            )
            &&& !unlisted(v, id) ==> appended(v, id, m) == lines.with(
                index_path(v, id),
                v.file(index_path(v, id))->0 + encode_utf8(decimal(content_of(v, id).len()))
                    + seq![NEWLINE],
            )
            &&& v.file(index_path(v, id)) is None ==> unlisted(v, id)
            &&& v.file(index_path(v, id)) matches Some(index) ==> (unlisted(v, id) <==> valid_utf8(
                index,
            ) && index_read(index).len() == 0)
        }),
{
}

} // verus!
