//! The cache of thread transcripts.
//!
//! A [`JsonlStore`] is the content of a cache directory. For each thread it
//! holds a file of lines, each a message or a trailer; an index of where the
//! message lines start, by which pages are read without reading the rest; the
//! latest trailer in a file of its own; and a snapshot of interaction state.
//!
//! The cache is a copy of what agents keep: losing a file loses nothing for
//! good.

pub mod laws;

use crate::json::{
    faithful, get_str, json_parsed, json_shown, json_text, str_field, JsonValue, MAX_DEPTH,
};
use crate::jsonl_format::{
    faithful_message, law_message_json_round_trip, law_trailer_json_round_trip,
    lemma_message_faithful, lemma_trailer_faithful, line_from_json, line_read, message_json,
    message_to_json, reread, reread_all, storable, trailer_from_json, trailer_json,
    trailer_line_json, trailer_option, trailer_read, trailer_to_json, trailer_to_line_json, Line,
    LineView, ThreadTrailer, TrailerView,
};
use crate::jsonl_lines::{
    find_newline, index_bytes, index_read, index_texts, law_index_round_trip, lemma_line_added,
    lemma_one_line_bytes, lemma_starts_inside, lemma_written_lines, line_starts, lines_bytes,
    number_on, one_line, part, push_line, raw_line, read_text_line, terminated, text_line, NEWLINE,
};
use crate::paths::{join_path, joined};
use crate::protocol_types::{messages_view, ChatMessage, ChatMessageView};
use crate::records::{
    is_text_without_repeats, lemma_faithful_without_repeats, text_without_repeats, Part, Record,
};
use crate::runtime_snapshot::{empty_snapshot, SnapshotView, Stored, ThreadRuntimeSnapshot};
use crate::seqs::{lemma_picked_take, picked};
use crate::text::{
    decimal, decimal_text, join, lemma_blank_is_trimmed_empty, optional_text, parse_u64, same,
    same_optional, text_from_bytes, trim, trimmed, white,
};
use vstd::prelude::*;
use vstd::utf8::{
    decode_utf8, encode_utf8, encode_utf8_decode_utf8, encode_utf8_valid_utf8, valid_utf8,
};

verus! {

/// What kept a file from being read.
#[derive(Clone, Copy, Debug, PartialEq, Eq, Structural)]
pub enum IoReason {
    NotFound,
    InvalidUtf8,
}

/// Why the cache could not answer.
#[derive(Debug, PartialEq, Eq)]
pub enum CacheError {
    Io { path: String, reason: IoReason },
    /// A line, counted from one, is not what it should be; zero stands for a
    /// file or a line that is not counted.
    Parse { path: String, line_no: usize },
}

/// A [`CacheError`] as a mathematical value.
#[verifier::ext_equal]
pub enum CacheErrorView {
    Io { path: Seq<char>, reason: IoReason },
    Parse { path: Seq<char>, line_no: int },
}

impl View for CacheError {
    type V = CacheErrorView;

    open spec fn view(&self) -> CacheErrorView {
        match self {
            CacheError::Io { path, reason } => CacheErrorView::Io { path: path@, reason: *reason },
            CacheError::Parse { path, line_no } => CacheErrorView::Parse {
                path: path@,
                line_no: *line_no as int,
            },
        }
    }
}

/// What a cache file holds of a thread.
#[derive(Debug, PartialEq)]
pub struct CachedThread {
    pub messages: Vec<ChatMessage>,
    pub trailer: Option<ThreadTrailer>,
}

/// A [`CachedThread`] as a mathematical value.
#[verifier::ext_equal]
pub struct CachedView {
    pub messages: Seq<ChatMessageView>,
    pub trailer: Option<TrailerView>,
}

impl View for CachedThread {
    type V = CachedView;

    open spec fn view(&self) -> CachedView {
        CachedView { messages: messages_view(self.messages@), trailer: trailer_option(self.trailer) }
    }
}

/// A page of a thread's messages.
#[derive(Debug, PartialEq)]
pub struct MessagePage {
    /// Oldest first.
    pub messages: Vec<ChatMessage>,
    /// Whether there are older messages than these.
    pub older_available: bool,
    /// The position of the first message among all of the thread's messages.
    pub oldest_loaded_index: usize,
}

/// A [`MessagePage`] as a mathematical value.
#[verifier::ext_equal]
pub struct PageView {
    pub messages: Seq<ChatMessageView>,
    pub older_available: bool,
    pub oldest_loaded_index: int,
}

impl View for MessagePage {
    type V = PageView;

    open spec fn view(&self) -> PageView {
        PageView {
            messages: messages_view(self.messages@),
            older_available: self.older_available,
            oldest_loaded_index: self.oldest_loaded_index as int,
        }
    }
}

/// A file of the cache.
#[derive(Debug, PartialEq)]
pub struct StoredFile {
    pub path: String,
    pub bytes: Vec<u8>,
}

/// The content of a cache directory.
#[derive(Debug, PartialEq)]
pub struct JsonlStore {
    dir: String,
    files: Vec<StoredFile>,
}

/// A [`JsonlStore`] as a mathematical value: its directory, and what each file
/// holds.
#[verifier::ext_equal]
pub struct StoreView {
    pub dir: Seq<char>,
    pub files: Map<Seq<char>, Seq<u8>>,
}

spec fn found(files: Seq<StoredFile>, path: Seq<char>, from: int) -> Option<Seq<u8>>
    decreases files.len() - from,
{
    if from < 0 || from >= files.len() {
        None
    } else if files[from].path@ == path {
        Some(files[from].bytes@)
    } else {
        found(files, path, from + 1)
    }
}

impl View for JsonlStore {
    type V = StoreView;

    closed spec fn view(&self) -> StoreView {
        StoreView {
            dir: self.dir@,
            files: Map::new(
                |path: Seq<char>| found(self.files@, path, 0) is Some,
                |path: Seq<char>| found(self.files@, path, 0)->0,
            ),
        }
    }
}

impl StoreView {
    /// What a file holds, where there is one.
    pub open spec fn file(self, path: Seq<char>) -> Option<Seq<u8>> {
        if self.files.dom().contains(path) {
            Some(self.files[path])
        } else {
            None
        }
    }

    /// The store with a file written.
    pub open spec fn with(self, path: Seq<char>, bytes: Seq<u8>) -> StoreView {
        StoreView { dir: self.dir, files: self.files.insert(path, bytes) }
    }
}

proof fn lemma_found_pushed(files: Seq<StoredFile>, file: StoredFile, path: Seq<char>, from: int)
    requires
        0 <= from <= files.len(),
    ensures
        found(files.push(file), path, from) == (if found(files, path, from) is Some {
            found(files, path, from)
        } else if file.path@ == path {
            Some(file.bytes@)
        } else {
            None
        }),
    decreases files.len() - from,
{
    if from < files.len() {
        assert(files.push(file)[from] == files[from]);
        lemma_found_pushed(files, file, path, from + 1);
    } else {
        assert(found(files.push(file), path, from + 1) is None);
    }
}

proof fn lemma_found_replaced(
    files: Seq<StoredFile>,
    after: Seq<StoredFile>,
    at: int,
    path: Seq<char>,
    from: int,
)
    requires
        0 <= at < files.len(),
        after.len() == files.len(),
        0 <= from,
        after[at].path@ == files[at].path@,
        forall|i: int| 0 <= i < files.len() && i != at ==> after[i] == files[i],
        forall|i: int| 0 <= i < at ==> (#[trigger] files[i]).path@ != files[at].path@,
    ensures
        found(after, path, from) == (if path == files[at].path@ && from <= at {
            Some(after[at].bytes@)
        } else {
            found(files, path, from)
        }),
    decreases files.len() - from,
{
    if from < files.len() {
        lemma_found_replaced(files, after, at, path, from + 1);
        if from > at && path == files[at].path@ {
            lemma_found_same_after(files, after, path, from);
        }
    }
}

proof fn lemma_found_same_after(
    files: Seq<StoredFile>,
    after: Seq<StoredFile>,
    path: Seq<char>,
    from: int,
)
    requires
        0 <= from,
        after.len() == files.len(),
        forall|i: int| from <= i < files.len() ==> after[i] == files[i],
    ensures
        found(after, path, from) == found(files, path, from),
    decreases files.len() - from,
{
    if from < files.len() {
        lemma_found_same_after(files, after, path, from + 1);
    }
}

/// The file of a thread's lines.
pub open spec fn jsonl_path(v: StoreView, id: Seq<char>) -> Seq<char> {
    joined(v.dir, id + ".jsonl"@)
}

/// The file of a thread's index.
pub open spec fn index_path(v: StoreView, id: Seq<char>) -> Seq<char> {
    joined(v.dir, id + ".idx"@)
}

/// The file of a thread's trailer.
pub open spec fn trailer_path(v: StoreView, id: Seq<char>) -> Seq<char> {
    joined(v.dir, id + ".trailer.json"@)
}

/// The file of a thread's interaction state.
pub open spec fn runtime_path(v: StoreView, id: Seq<char>) -> Seq<char> {
    joined(v.dir, id + ".runtime.json"@)
}

proof fn lemma_joined_suffix(dir: Seq<char>, id: Seq<char>, a: Seq<char>, b: Seq<char>)
    requires
        a != b,
        a.len() > 0,
        b.len() > 0,
        a[0] == '.',
        b[0] == '.',
    ensures
        joined(dir, id + a) != joined(dir, id + b),
{
    let na = id + a;
    let nb = id + b;
    if na == nb {
        assert(a =~= na.skip(id.len() as int));
        assert(b =~= nb.skip(id.len() as int));
    }
    if id.len() > 0 {
        assert(na[0] == id[0] && nb[0] == id[0]);
    } else {
        assert(na =~= a && nb =~= b);
    }
    if !(na.len() > 0 && na[0] == '/') {
        let prefix = if dir.len() == 0 || dir.last() == '/' {
            dir
        } else {
            dir + "/"@
        };
        assert(joined(dir, na) == prefix + na);
        assert(joined(dir, nb) == prefix + nb);
        if prefix + na == prefix + nb {
            assert(na =~= (prefix + na).skip(prefix.len() as int));
            assert(nb =~= (prefix + nb).skip(prefix.len() as int));
        }
    }
}

/// The four files of a thread are different files.
pub proof fn law_thread_files_differ(v: StoreView, id: Seq<char>)
    ensures
        jsonl_path(v, id) != index_path(v, id),
        jsonl_path(v, id) != trailer_path(v, id),
        jsonl_path(v, id) != runtime_path(v, id),
        index_path(v, id) != trailer_path(v, id),
        index_path(v, id) != runtime_path(v, id),
        trailer_path(v, id) != runtime_path(v, id),
{
    reveal_strlit(".jsonl");
    reveal_strlit(".idx");
    reveal_strlit(".trailer.json");
    reveal_strlit(".runtime.json");
    assert(".jsonl"@.len() == 6 && ".idx"@.len() == 4);
    assert(".trailer.json"@.len() == 13 && ".runtime.json"@.len() == 13);
    assert(".trailer.json"@[1] == 't' && ".runtime.json"@[1] == 'r');
    assert(".jsonl"@[0] == '.' && ".idx"@[0] == '.');
    assert(".trailer.json"@[0] == '.' && ".runtime.json"@[0] == '.');
    lemma_joined_suffix(v.dir, id, ".jsonl"@, ".idx"@);
    lemma_joined_suffix(v.dir, id, ".jsonl"@, ".trailer.json"@);
    lemma_joined_suffix(v.dir, id, ".jsonl"@, ".runtime.json"@);
    lemma_joined_suffix(v.dir, id, ".idx"@, ".trailer.json"@);
    lemma_joined_suffix(v.dir, id, ".idx"@, ".runtime.json"@);
    lemma_joined_suffix(v.dir, id, ".trailer.json"@, ".runtime.json"@);
}

/// The place that a thread's files are named after.
pub open spec fn thread_place(v: StoreView, id: Seq<char>) -> Seq<char> {
    joined(v.dir, id)
}

proof fn lemma_named_after(dir: Seq<char>, id: Seq<char>, suffix: Seq<char>)
    requires
        suffix.len() > 0,
        suffix[0] == '.',
    ensures
        joined(dir, id + suffix) == joined(dir, id) + suffix,
{
    let name = id + suffix;
    if id.len() > 0 {
        assert(name[0] == id[0]);
    } else {
        assert(name =~= suffix);
    }
    assert(joined(dir, name) =~= joined(dir, id) + suffix);
}

proof fn lemma_named_apart(p: Seq<char>, q: Seq<char>, a: Seq<char>, b: Seq<char>)
    requires
        p != q,
        a.len() > 0,
        b.len() > 0,
        a == b || a.last() != b.last() || (a.len() == b.len() && a != b),
    ensures
        p + a != q + b,
{
    if p + a == q + b {
        if a.len() == b.len() {
            assert(a =~= (p + a).skip(p.len() as int));
            assert(b =~= (q + b).skip(q.len() as int));
            assert(p =~= (p + a).take(p.len() as int));
            assert(q =~= (q + b).take(q.len() as int));
        }
        assert((p + a).last() == a.last());
        assert((q + b).last() == b.last());
    }
}

/// Whether a store holds of a thread what another one holds.
pub open spec fn same_files(v: StoreView, after: StoreView, id: Seq<char>) -> bool {
    &&& after.dir == v.dir
    &&& after.file(jsonl_path(v, id)) == v.file(jsonl_path(v, id))
    &&& after.file(index_path(v, id)) == v.file(index_path(v, id))
    &&& after.file(trailer_path(v, id)) == v.file(trailer_path(v, id))
    &&& after.file(runtime_path(v, id)) == v.file(runtime_path(v, id))
}

/// Whether a path is none of those of a thread's files.
spec fn foreign(v: StoreView, id: Seq<char>, path: Seq<char>) -> bool {
    &&& path != jsonl_path(v, id)
    &&& path != index_path(v, id)
    &&& path != trailer_path(v, id)
    &&& path != runtime_path(v, id)
}

proof fn lemma_threads_apart(v: StoreView, id: Seq<char>, other: Seq<char>)
    requires
        thread_place(v, id) != thread_place(v, other),
    ensures
        foreign(v, other, jsonl_path(v, id)),
        foreign(v, other, index_path(v, id)),
        foreign(v, other, trailer_path(v, id)),
        foreign(v, other, runtime_path(v, id)),
{
    reveal_strlit(".jsonl");
    reveal_strlit(".idx");
    reveal_strlit(".trailer.json");
    reveal_strlit(".runtime.json");
    let l = ".jsonl"@;
    let x = ".idx"@;
    let t = ".trailer.json"@;
    let r = ".runtime.json"@;
    assert(l.len() == 6 && l[0] == '.' && l[5] == 'l');
    assert(x.len() == 4 && x[0] == '.' && x[3] == 'x');
    assert(t.len() == 13 && t[0] == '.' && t[12] == 'n' && t[1] == 't');
    assert(r.len() == 13 && r[0] == '.' && r[12] == 'n' && r[1] == 'r');
    let p = thread_place(v, id);
    let q = thread_place(v, other);
    lemma_named_after(v.dir, id, l);
    lemma_named_after(v.dir, id, x);
    lemma_named_after(v.dir, id, t);
    lemma_named_after(v.dir, id, r);
    lemma_named_after(v.dir, other, l);
    lemma_named_after(v.dir, other, x);
    lemma_named_after(v.dir, other, t);
    lemma_named_after(v.dir, other, r);
    lemma_named_apart(p, q, l, l);
    lemma_named_apart(p, q, l, x);
    lemma_named_apart(p, q, l, t);
    lemma_named_apart(p, q, l, r);
    lemma_named_apart(p, q, x, l);
    lemma_named_apart(p, q, x, x);
    lemma_named_apart(p, q, x, t);
    lemma_named_apart(p, q, x, r);
    lemma_named_apart(p, q, t, l);
    lemma_named_apart(p, q, t, x);
    lemma_named_apart(p, q, t, t);
    lemma_named_apart(p, q, t, r);
    lemma_named_apart(p, q, r, l);
    lemma_named_apart(p, q, r, x);
    lemma_named_apart(p, q, r, t);
    lemma_named_apart(p, q, r, r);
}

/// Whatever is written of one thread, and whatever looking at it leaves, the
/// files of a thread in another place stay as they are. `bytes` stands for what
/// is written into the thread's trailer or snapshot file.
pub proof fn law_other_threads_stay(
    v: StoreView,
    id: Seq<char>,
    other: Seq<char>,
    messages: Seq<ChatMessageView>,
    trailer: TrailerView,
    message: ChatMessageView,
    bytes: Seq<u8>,
)
    requires
        thread_place(v, id) != thread_place(v, other),
    ensures
        same_files(v, overwritten(v, id, messages, trailer), other),
        same_files(v, appended(v, id, message), other),
        same_files(v, v.with(trailer_path(v, id), bytes), other),
        same_files(v, v.with(runtime_path(v, id), bytes), other),
        same_files(v, ensured(v, id).0, other),
{
    lemma_threads_apart(v, id, other);
}

/// Threads with different ids are in different places, where both ids are
/// relative or both absolute.
pub proof fn law_ids_lead_apart(v: StoreView, id: Seq<char>, other: Seq<char>)
    requires
        id != other,
        (id.len() > 0 && id[0] == '/') == (other.len() > 0 && other[0] == '/'),
    ensures
        thread_place(v, id) != thread_place(v, other),
{
    if !(id.len() > 0 && id[0] == '/') {
        let prefix = if v.dir.len() == 0 || v.dir.last() == '/' {
            v.dir
        } else {
            v.dir + "/"@
        };
        assert(thread_place(v, id) == prefix + id);
        assert(thread_place(v, other) == prefix + other);
        if prefix + id == prefix + other {
            assert(id =~= (prefix + id).skip(prefix.len() as int));
            assert(other =~= (prefix + other).skip(prefix.len() as int));
        }
    }
}

/// Whether a thread's history has to be fetched again.
pub open spec fn stale(
    local: Option<TrailerView>,
    title: Option<Seq<char>>,
    updated_at: Option<Seq<char>>,
) -> bool {
    match local {
        None => true,
        Some(t) => t.title != title || t.updated_at != updated_at,
    }
}

impl JsonlStore {
    /// The empty cache in the directory `dir`.
    pub fn open(dir: &str) -> (r: JsonlStore)
        ensures
            r@ == (StoreView { dir: dir@, files: Map::empty() }),
    {
        let r = JsonlStore { dir: dir.to_owned(), files: Vec::new() };
        assert(r@.files =~= Map::empty());
        r
    }

    /// What the file at `path` holds, where there is one.
    pub fn file(&self, path: &str) -> (r: Option<&Vec<u8>>)
        ensures
            r is Some <==> self@.file(path@) is Some,
            r is Some ==> self@.file(path@) == Some(r->0@),
    {
        let mut i: usize = 0;
        while i < self.files.len()
            invariant
                i <= self.files.len(),
                found(self.files@, path@, 0) == found(self.files@, path@, i as int),
            decreases self.files.len() - i,
        {
            if same(self.files[i].path.as_str(), path) {
                return Some(&self.files[i].bytes);
            }
            i += 1;
        }
        None
    }

    /// Writes the file at `path`.
    pub fn put_file(&mut self, path: String, bytes: Vec<u8>)
        ensures
            final(self)@ == old(self)@.with(path@, bytes@),
    {
        let ghost before = self.files@;
        let mut i: usize = 0;
        while i < self.files.len()
            invariant
                i <= self.files.len(),
                self.files@ == before,
                self.dir == old(self).dir,
                old(self).files@ == before,
                forall|k: int| 0 <= k < i ==> (#[trigger] before[k]).path@ != path@,
                found(before, path@, 0) == found(before, path@, i as int),
            decreases self.files.len() - i,
        {
            if same(self.files[i].path.as_str(), path.as_str()) {
                let ghost at = i as int;
                self.files[i] = StoredFile { path, bytes };
                proof {
                    assert forall|p: Seq<char>| found(self.files@, p, 0) == (if p == path@ {
                        Some(bytes@)
                    } else {
                        found(before, p, 0)
                    }) by {
                        lemma_found_replaced(before, self.files@, at, p, 0);
                    }
                }
                assert(self@.files =~= old(self)@.files.insert(path@, bytes@));
                return;
            }
            i += 1;
        }
        let ghost file = StoredFile { path, bytes };
        self.files.push(StoredFile { path, bytes });
        proof {
            assert forall|p: Seq<char>| found(self.files@, p, 0) == (if p == path@ {
                Some(bytes@)
            } else {
                found(before, p, 0)
            }) by {
                lemma_found_pushed(before, file, p, 0);
            }
        }
        assert(self@.files =~= old(self)@.files.insert(path@, bytes@));
    }

    fn joined_path(&self, name: &str) -> (r: String)
        ensures
            r@ == joined(self@.dir, name@),
    {
        join_path(self.dir.as_str(), name)
    }

    /// The file of a thread's lines.
    pub fn path_for(&self, thread_id: &str) -> (r: String)
        ensures
            r@ == jsonl_path(self@, thread_id@),
    {
        self.joined_path(join(thread_id, ".jsonl").as_str())
    }

    /// The file of a thread's index.
    pub fn index_path_for(&self, thread_id: &str) -> (r: String)
        ensures
            r@ == index_path(self@, thread_id@),
    {
        self.joined_path(join(thread_id, ".idx").as_str())
    }

    /// The file of a thread's trailer.
    pub fn trailer_path_for(&self, thread_id: &str) -> (r: String)
        ensures
            r@ == trailer_path(self@, thread_id@),
    {
        self.joined_path(join(thread_id, ".trailer.json").as_str())
    }

    /// The file of a thread's interaction state.
    pub fn runtime_snapshot_path_for(&self, thread_id: &str) -> (r: String)
        ensures
            r@ == runtime_path(self@, thread_id@),
    {
        self.joined_path(join(thread_id, ".runtime.json").as_str())
    }

    /// Whether a thread's history has to be fetched again: always where nothing
    /// is cached, else where the agent's title or time of change is not the
    /// recorded one.
    pub fn is_stale(
        local: Option<&ThreadTrailer>,
        remote_title: &Option<String>,
        remote_updated_at: &Option<String>,
    ) -> (r: bool)
        ensures
            r == stale(
                match local {
                    None => None,
                    Some(t) => Some(t@),
                },
                optional_text(*remote_title),
                optional_text(*remote_updated_at),
            ),
    {
        match local {
            None => true,
            Some(t) => !same_optional(&t.title, remote_title) || !same_optional(
                &t.updated_at,
                remote_updated_at,
            ),
        }
    }
}

/// What a line of a cache file comes to.
#[verifier::ext_equal]
pub enum LineState {
    Blank,
    NotText,
    Malformed,
    Holds(LineView),
}

/// The record that a line is.
pub open spec fn line_record(line: LineView) -> Record {
    match line {
        LineView::Message(_) => Record::MessageLine,
        LineView::Trailer(_) => Record::TrailerLine,
    }
}

/// What a text comes to as a line: none of its fields stands twice.
pub open spec fn text_state(text: Seq<char>) -> LineState {
    match json_parsed(text) {
        Some(j) => match line_read(j) {
            Some(line) => if text_without_repeats(text, Part::One(line_record(line))) {
                LineState::Holds(line)
            } else {
                LineState::Malformed
            },
            None => LineState::Malformed,
        },
        None => LineState::Malformed,
    }
}

/// What the bytes of a line come to: nothing where they are blank.
pub open spec fn line_state(line: Seq<u8>) -> LineState {
    if !valid_utf8(line) {
        LineState::NotText
    } else if trimmed(decode_utf8(line)).len() == 0 {
        LineState::Blank
    } else {
        text_state(decode_utf8(line))
    }
}

/// The message that a line holds.
pub open spec fn state_message(state: LineState) -> Option<ChatMessageView> {
    match state {
        LineState::Holds(LineView::Message(m)) => Some(m),
        _ => None,
    }
}

/// The trailer that a line holds.
pub open spec fn state_trailer(state: LineState) -> Option<TrailerView> {
    match state {
        LineState::Holds(LineView::Trailer(t)) => Some(t),
        _ => None,
    }
}

/// Whether a line keeps its file from being loaded.
pub open spec fn bad_state(state: LineState) -> bool {
    state is NotText || state is Malformed
}

/// What the line that starts at `start` comes to.
pub open spec fn state_at(content: Seq<u8>, start: int) -> LineState {
    line_state(text_line(content, start))
}

/// The first of the lines that start at `starts[from]` or later which keeps
/// the file from being loaded, and the number of lines where none does.
pub open spec fn first_bad(content: Seq<u8>, starts: Seq<int>, from: int) -> int
    decreases starts.len() - from,
{
    if from < 0 || from >= starts.len() {
        starts.len() as int
    } else if bad_state(state_at(content, starts[from])) {
        from
    } else {
        first_bad(content, starts, from + 1)
    }
}

/// The trailer of the last line that holds one.
pub open spec fn last_trailer(content: Seq<u8>, starts: Seq<int>) -> Option<TrailerView>
    decreases starts.len(),
{
    if starts.len() == 0 {
        None
    } else {
        match state_trailer(state_at(content, starts.last())) {
            Some(t) => Some(t),
            None => last_trailer(content, starts.drop_last()),
        }
    }
}

/// The messages of the given lines, in order.
pub open spec fn messages_of(content: Seq<u8>, starts: Seq<int>) -> Seq<ChatMessageView> {
    picked(starts, |s: int| state_message(state_at(content, s)))
}

/// The error that a bad line gives.
pub open spec fn line_error(state: LineState, path: Seq<char>, line_no: int) -> CacheErrorView {
    if state is NotText {
        CacheErrorView::Io { path, reason: IoReason::InvalidUtf8 }
    } else {
        CacheErrorView::Parse { path, line_no }
    }
}

/// What the content of a cache file loads as: all its messages in order and
/// its last trailer, or the error of the first line that is neither.
pub open spec fn loaded(content: Seq<u8>, path: Seq<char>) -> Result<CachedView, CacheErrorView> {
    let starts = line_starts(content, 0);
    let bad = first_bad(content, starts, 0);
    if bad < starts.len() {
        Err(line_error(state_at(content, starts[bad]), path, bad + 1))
    } else {
        Ok(
            CachedView {
                messages: messages_of(content, starts),
                trailer: last_trailer(content, starts),
            },
        )
    }
}

/// What a thread loads as; nothing, and no error, where it has no cache file.
pub open spec fn load_read(v: StoreView, id: Seq<char>) -> Result<CachedView, CacheErrorView> {
    match v.file(jsonl_path(v, id)) {
        Some(content) => loaded(content, jsonl_path(v, id)),
        None => Ok(CachedView { messages: Seq::empty(), trailer: None }),
    }
}

/// A loaded thread, or an error, as a mathematical value.
pub open spec fn load_result(r: Result<CachedThread, CacheError>) -> Result<
    CachedView,
    CacheErrorView,
> {
    match r {
        Ok(c) => Ok(c@),
        Err(e) => Err(e@),
    }
}

/// What a line came to.
enum ReadLine {
    Blank,
    NotText,
    Malformed,
    Holds(Line),
}

spec fn read_view(r: ReadLine) -> LineState {
    match r {
        ReadLine::Blank => LineState::Blank,
        ReadLine::NotText => LineState::NotText,
        ReadLine::Malformed => LineState::Malformed,
        ReadLine::Holds(line) => LineState::Holds(line@),
    }
}

fn read_text(text: &str) -> (r: ReadLine)
    ensures
        read_view(r) == text_state(text@),
{
    match JsonValue::parse(text) {
        Ok(value) => match line_from_json(&value) {
            Some(line) => {
                let record: Record = match &line {
                    Line::Message(_) => Record::MessageLine,
                    Line::Trailer(_) => Record::TrailerLine,
                };
                if is_text_without_repeats(text, Part::One(record)) {
                    ReadLine::Holds(line)
                } else {
                    ReadLine::Malformed
                }
            },
            None => ReadLine::Malformed,
        },
        Err(_) => ReadLine::Malformed,
    }
}

fn read_line(line: &[u8]) -> (r: ReadLine)
    ensures
        read_view(r) == line_state(line@),
{
    match text_from_bytes(line) {
        Some(text) => {
            if trim(text.as_str()).is_empty() {
                ReadLine::Blank
            } else {
                read_text(text.as_str())
            }
        },
        None => ReadLine::NotText,
    }
}

proof fn lemma_first_bad(content: Seq<u8>, starts: Seq<int>, from: int, at: int)
    requires
        0 <= from <= at <= starts.len(),
        forall|i: int| from <= i < at ==> !bad_state(state_at(content, #[trigger] starts[i])),
        at < starts.len() ==> bad_state(state_at(content, starts[at])),
    ensures
        first_bad(content, starts, from) == at,
    decreases at - from,
{
    if from < at {
        assert(!bad_state(state_at(content, starts[from])));
        lemma_first_bad(content, starts, from + 1, at);
    }
}

fn load_content(content: &[u8], path: String) -> (r: Result<CachedThread, CacheError>)
    ensures
        load_result(r) == loaded(content@, path@),
{
    let ghost starts = line_starts(content@, 0);
    let ghost mut done: Seq<int> = Seq::empty();
    let ghost f = |s: int| state_message(state_at(content@, s));
    let mut messages: Vec<ChatMessage> = Vec::new();
    let mut trailer: Option<ThreadTrailer> = None;
    let mut i: usize = 0;
    let mut line_no: usize = 0;
    proof {
        lemma_starts_inside(content@, 0);
        assert(starts =~= done + line_starts(content@, 0));
        assert(messages_view(messages@) =~= picked(done, f));
    }
    while i < content.len()
        invariant
            i <= content@.len(),
            starts == line_starts(content@, 0),
            starts.len() <= content@.len(),
            starts == done + line_starts(content@, i as int),
            line_no == done.len(),
            f == (|s: int| state_message(state_at(content@, s))),
            messages_view(messages@) == picked(done, f),
            trailer_option(trailer) == last_trailer(content@, done),
            forall|k: int| 0 <= k < done.len() ==> !bad_state(state_at(content@, #[trigger] done[k])),
        decreases content@.len() - i,
    {
        let end: usize = find_newline(content, i);
        let line: Vec<u8> = read_text_line(content, i);
        let ghost next = done.push(i as int);
        proof {
            assert(starts =~= next + line_starts(content@, end + 1));
            assert(starts[done.len() as int] == i);
            assert(starts.len() >= done.len() + 1);
            assert(next.drop_last() =~= done);
            assert(next.take(next.len() as int) =~= next);
            assert(next.take(done.len() as int) =~= done);
            lemma_picked_take(next, done.len() as int, f);
            assert forall|k: int| 0 <= k < done.len() implies !bad_state(
                state_at(content@, #[trigger] starts[k]),
            ) by {
                assert(starts[k] == done[k]);
            }
        }
        line_no += 1;
        let ghost before = messages_view(messages@);
        match read_line(line.as_slice()) {
            ReadLine::Blank => {},
            ReadLine::NotText => {
                proof {
                    lemma_first_bad(content@, starts, 0, done.len() as int);
                }
                return Err(CacheError::Io { path, reason: IoReason::InvalidUtf8 });
            },
            ReadLine::Malformed => {
                proof {
                    lemma_first_bad(content@, starts, 0, done.len() as int);
                }
                return Err(CacheError::Parse { path, line_no });
            },
            ReadLine::Holds(Line::Message(m)) => {
                messages.push(m);
                assert(messages_view(messages@) =~= before.push(m@));
            },
            ReadLine::Holds(Line::Trailer(t)) => {
                trailer = Some(t);
            },
        }
        proof {
            assert forall|k: int| 0 <= k < next.len() implies !bad_state(
                state_at(content@, #[trigger] next[k]),
            ) by {
                if k < done.len() {
                    assert(next[k] == done[k]);
                }
            }
            done = next;
        }
        if end < content.len() {
            i = end + 1;
        } else {
            assert(line_starts(content@, end + 1) =~= Seq::empty());
            assert(line_starts(content@, content@.len() as int) =~= Seq::empty());
            i = content.len();
        }
    }
    proof {
        assert(line_starts(content@, i as int) =~= Seq::empty());
        assert(starts =~= done);
        lemma_first_bad(content@, starts, 0, starts.len() as int);
    }
    Ok(CachedThread { messages, trailer })
}

impl JsonlStore {
    /// Loads all that is cached of a thread. A thread without a cache file has
    /// no messages; the first line that is neither a message nor a trailer is
    /// an error.
    pub fn load(&self, thread_id: &str) -> (r: Result<CachedThread, CacheError>)
        ensures
            load_result(r) == load_read(self@, thread_id@),
    {
        let path: String = self.path_for(thread_id);
        match self.file(path.as_str()) {
            Some(content) => load_content(content.as_slice(), path),
            None => {
                let messages: Vec<ChatMessage> = Vec::new();
                assert(messages_view(messages@) =~= Seq::empty());
                Ok(CachedThread { messages, trailer: None })
            },
        }
    }
}

/// Whether a line is that of a message: JSON whose `line_kind` says so.
pub open spec fn message_line(line: Seq<u8>) -> bool {
    line.len() > 0 && valid_utf8(line) && match json_parsed(decode_utf8(line)) {
        Some(j) => str_field(j, "line_kind"@) == Some("message"@),
        None => false,
    }
}

/// Where the message lines of a file start.
pub open spec fn offsets_of(content: Seq<u8>) -> Seq<int> {
    picked(
        line_starts(content, 0),
        |s: int|
            if message_line(raw_line(content, s)) {
                Some(s)
            } else {
                None
            },
    )
}

fn is_message_line(line: &[u8]) -> (r: bool)
    ensures
        r == message_line(line@),
{
    if line.len() == 0 {
        return false;
    }
    match text_from_bytes(line) {
        Some(text) => match JsonValue::parse(text.as_str()) {
            Ok(value) => match get_str(&value, "line_kind") {
                Some(kind) => same(kind, "message"),
                None => false,
            },
            Err(_) => false,
        },
        None => false,
    }
}

/// Offsets as mathematical values.
pub open spec fn offsets_view(v: Seq<u64>) -> Seq<int> {
    v.map_values(|o: u64| o as int)
}

/// Where the message lines of a file start, found by reading all of it.
pub fn compute_offsets(content: &[u8]) -> (r: Vec<u64>)
    ensures
        offsets_view(r@) == offsets_of(content@),
{
    let ghost starts = line_starts(content@, 0);
    let ghost mut done: Seq<int> = Seq::empty();
    let ghost f = |s: int|
        if message_line(raw_line(content@, s)) {
            Some(s)
        } else {
            None
        };
    let mut offsets: Vec<u64> = Vec::new();
    let mut i: usize = 0;
    proof {
        assert(starts =~= done + line_starts(content@, 0));
        assert(offsets_view(offsets@) =~= picked(done, f));
    }
    while i < content.len()
        invariant
            i <= content@.len(),
            starts == line_starts(content@, 0),
            starts == done + line_starts(content@, i as int),
            f == (|s: int|
                if message_line(raw_line(content@, s)) {
                    Some(s)
                } else {
                    None
                }),
            offsets_view(offsets@) == picked(done, f),
        decreases content@.len() - i,
    {
        let end: usize = find_newline(content, i);
        let line: Vec<u8> = part(content, i, end);
        let ghost next = done.push(i as int);
        let ghost before = offsets_view(offsets@);
        proof {
            assert(starts =~= next + line_starts(content@, end + 1));
            assert(next.take(next.len() as int) =~= next);
            assert(next.take(done.len() as int) =~= done);
            lemma_picked_take(next, done.len() as int, f);
        }
        if is_message_line(line.as_slice()) {
            offsets.push(i as u64);
            assert(offsets_view(offsets@) =~= before.push(i as int));
        }
        proof {
            done = next;
        }
        if end < content.len() {
            i = end + 1;
        } else {
            assert(line_starts(content@, end + 1) =~= Seq::empty());
            assert(line_starts(content@, content@.len() as int) =~= Seq::empty());
            i = content.len();
        }
    }
    proof {
        assert(line_starts(content@, i as int) =~= Seq::empty());
        assert(starts =~= done);
    }
    offsets
}

fn number_of(line: &[u8]) -> (r: Option<u64>)
    ensures
        r is Some <==> number_on(line@) is Some,
        r is Some ==> number_on(line@) == Some(r->0 as int),
{
    match text_from_bytes(line) {
        Some(text) => parse_u64(trim(text.as_str())),
        None => None,
    }
}

/// The numbers that stand on the lines of an index file.
pub fn read_index(content: &[u8]) -> (r: Vec<u64>)
    ensures
        offsets_view(r@) == index_read(content@),
{
    let ghost starts = line_starts(content@, 0);
    let ghost mut done: Seq<int> = Seq::empty();
    let ghost f = |s: int| number_on(text_line(content@, s));
    let mut offsets: Vec<u64> = Vec::new();
    let mut i: usize = 0;
    proof {
        assert(starts =~= done + line_starts(content@, 0));
        assert(offsets_view(offsets@) =~= picked(done, f));
    }
    while i < content.len()
        invariant
            i <= content@.len(),
            starts == line_starts(content@, 0),
            starts == done + line_starts(content@, i as int),
            f == (|s: int| number_on(text_line(content@, s))),
            offsets_view(offsets@) == picked(done, f),
        decreases content@.len() - i,
    {
        let end: usize = find_newline(content, i);
        let line: Vec<u8> = read_text_line(content, i);
        let ghost next = done.push(i as int);
        let ghost before = offsets_view(offsets@);
        proof {
            assert(starts =~= next + line_starts(content@, end + 1));
            assert(next.take(next.len() as int) =~= next);
            assert(next.take(done.len() as int) =~= done);
            lemma_picked_take(next, done.len() as int, f);
        }
        if let Some(number) = number_of(line.as_slice()) {
            offsets.push(number);
            assert(offsets_view(offsets@) =~= before.push(number as int));
        }
        proof {
            done = next;
        }
        if end < content.len() {
            i = end + 1;
        } else {
            assert(line_starts(content@, end + 1) =~= Seq::empty());
            assert(line_starts(content@, content@.len() as int) =~= Seq::empty());
            i = content.len();
        }
    }
    proof {
        assert(line_starts(content@, i as int) =~= Seq::empty());
        assert(starts =~= done);
    }
    offsets
}

/// An index file that lists the given offsets.
pub fn write_index(offsets: &[u64]) -> (r: Vec<u8>)
    ensures
        r@ == index_bytes(offsets_view(offsets@)),
{
    let ghost texts = index_texts(offsets_view(offsets@));
    let mut out: Vec<u8> = Vec::new();
    let mut i: usize = 0;
    assert(texts.take(0) =~= Seq::empty());
    while i < offsets.len()
        invariant
            i <= offsets@.len(),
            texts == index_texts(offsets_view(offsets@)),
            out@ == lines_bytes(texts.take(i as int)),
        decreases offsets@.len() - i,
    {
        proof {
            assert(texts.take(i + 1).drop_last() =~= texts.take(i as int));
            assert(texts.take(i + 1).last() == decimal(offsets@[i as int] as nat));
        }
        push_line(&mut out, decimal_text(offsets[i]).as_str());
        i += 1;
    }
    assert(texts.take(texts.len() as int) =~= texts);
    out
}

/// A text without the line ends at its end.
pub open spec fn without_line_ends(s: Seq<char>) -> Seq<char>
    decreases s.len(),
{
    if s.len() > 0 && (s.last() == '\n' || s.last() == '\r') {
        without_line_ends(s.drop_last())
    } else {
        s
    }
}

/// The bytes from an offset up to the end of the line; none past the end of
/// the file.
pub open spec fn line_from(content: Seq<u8>, offset: int) -> Seq<u8> {
    if 0 <= offset < content.len() {
        raw_line(content, offset)
    } else {
        Seq::empty()
    }
}

/// What the line at an offset comes to.
pub open spec fn state_from(content: Seq<u8>, offset: int) -> LineState {
    page_line_state(line_from(content, offset))
}

/// What a line of a page comes to.
pub open spec fn page_line_state(line: Seq<u8>) -> LineState {
    if !valid_utf8(line) {
        LineState::NotText
    } else {
        text_state(without_line_ends(decode_utf8(line)))
    }
}

/// The messages of the lines at the given offsets, or the error of the first
/// line that is neither a message nor a trailer.
pub open spec fn collected(content: Seq<u8>, path: Seq<char>, offsets: Seq<int>) -> Result<
    Seq<ChatMessageView>,
    CacheErrorView,
>
    decreases offsets.len(),
{
    if offsets.len() == 0 {
        Ok(Seq::empty())
    } else {
        match collected(content, path, offsets.drop_last()) {
            Ok(messages) => {
                let state = state_from(content, offsets.last());
                if bad_state(state) {
                    Err(line_error(state, path, 0))
                } else {
                    match state_message(state) {
                        Some(m) => Ok(messages.push(m)),
                        None => Ok(messages),
                    }
                }
            },
            Err(e) => Err(e),
        }
    }
}

/// The messages of a thread's lines at the given offsets; no file is needed
/// for none.
pub open spec fn messages_at(v: StoreView, id: Seq<char>, offsets: Seq<int>) -> Result<
    Seq<ChatMessageView>,
    CacheErrorView,
> {
    if offsets.len() == 0 {
        Ok(Seq::empty())
    } else {
        match v.file(jsonl_path(v, id)) {
            Some(content) => collected(content, jsonl_path(v, id), offsets),
            None => Err(
                CacheErrorView::Io { path: jsonl_path(v, id), reason: IoReason::NotFound },
            ),
        }
    }
}

/// The content of a thread's file of lines; nothing where there is none.
pub open spec fn content_of(v: StoreView, id: Seq<char>) -> Seq<u8> {
    match v.file(jsonl_path(v, id)) {
        Some(content) => content,
        None => Seq::empty(),
    }
}

/// The store with a thread's index written anew.
pub open spec fn reindexed(v: StoreView, id: Seq<char>) -> StoreView {
    v.with(index_path(v, id), index_bytes(offsets_of(content_of(v, id))))
}

/// The offsets that a thread's index lists, and the store afterwards. The
/// index is written anew where there is none, or where it lists nothing though
/// the thread has lines.
pub open spec fn ensured(v: StoreView, id: Seq<char>) -> (
    StoreView,
    Result<Seq<int>, CacheErrorView>,
) {
    match v.file(index_path(v, id)) {
        None => (reindexed(v, id), Ok(offsets_of(content_of(v, id)))),
        Some(index) => if !valid_utf8(index) {
            (
                v,
                Err(
                    CacheErrorView::Io {
                        path: index_path(v, id),
                        reason: IoReason::InvalidUtf8,
                    },
                ),
            )
        } else if index_read(index).len() == 0 && content_of(v, id).len() > 0 {
            (reindexed(v, id), Ok(offsets_of(content_of(v, id))))
        } else {
            (v, Ok(index_read(index)))
        },
    }
}

/// Where a page of at most `page_size` messages before position `before`
/// starts.
pub open spec fn page_start(before: int, page_size: int) -> int {
    if before > page_size {
        before - page_size
    } else {
        0
    }
}

/// The page from `start` to `end`.
pub open spec fn page_read(
    v: StoreView,
    id: Seq<char>,
    offsets: Seq<int>,
    start: int,
    end: int,
) -> Result<PageView, CacheErrorView> {
    match messages_at(v, id, offsets.subrange(start, end)) {
        Ok(messages) => Ok(
            PageView { messages, older_available: start > 0, oldest_loaded_index: start },
        ),
        Err(e) => Err(e),
    }
}

/// The smaller of two numbers.
pub open spec fn lesser(a: int, b: int) -> int {
    if a < b {
        a
    } else {
        b
    }
}

/// The page of at most `page_size` messages right before `before_index`.
pub open spec fn page_before(
    v: StoreView,
    id: Seq<char>,
    before_index: int,
    page_size: int,
) -> Result<PageView, CacheErrorView> {
    let (then, index) = ensured(v, id);
    match index {
        Ok(offsets) => {
            let end = lesser(before_index, offsets.len() as int);
            page_read(then, id, offsets, page_start(end, page_size), end)
        },
        Err(e) => Err(e),
    }
}

/// The newest page of at most `page_size` messages.
pub open spec fn tail_read(v: StoreView, id: Seq<char>, page_size: int) -> Result<
    PageView,
    CacheErrorView,
> {
    let (then, index) = ensured(v, id);
    match index {
        Ok(offsets) => page_read(
            then,
            id,
            offsets,
            page_start(offsets.len() as int, page_size),
            offsets.len() as int,
        ),
        Err(e) => Err(e),
    }
}

/// How many messages the index of a thread lists.
pub open spec fn count_read(v: StoreView, id: Seq<char>) -> Result<int, CacheErrorView> {
    match ensured(v, id).1 {
        Ok(offsets) => Ok(offsets.len() as int),
        Err(e) => Err(e),
    }
}

/// Offsets, or an error, as a mathematical value.
pub open spec fn offsets_result(r: Result<Vec<u64>, CacheError>) -> Result<
    Seq<int>,
    CacheErrorView,
> {
    match r {
        Ok(v) => Ok(offsets_view(v@)),
        Err(e) => Err(e@),
    }
}

/// Messages, or an error, as a mathematical value.
pub open spec fn messages_result(r: Result<Vec<ChatMessage>, CacheError>) -> Result<
    Seq<ChatMessageView>,
    CacheErrorView,
> {
    match r {
        Ok(v) => Ok(messages_view(v@)),
        Err(e) => Err(e@),
    }
}

/// A page, or an error, as a mathematical value.
pub open spec fn page_result(r: Result<MessagePage, CacheError>) -> Result<
    PageView,
    CacheErrorView,
> {
    match r {
        Ok(p) => Ok(p@),
        Err(e) => Err(e@),
    }
}

/// A count, or an error, as a mathematical value.
pub open spec fn count_result(r: Result<usize, CacheError>) -> Result<int, CacheErrorView> {
    match r {
        Ok(n) => Ok(n as int),
        Err(e) => Err(e@),
    }
}

fn drop_line_ends(text: &str) -> (r: &str)
    ensures
        r@ == without_line_ends(text@),
{
    let chars: Vec<char> = crate::text::chars_of(text);
    let mut end: usize = chars.len();
    assert(text@.subrange(0, end as int) =~= text@);
    while end > 0 && (chars[end - 1] == '\n' || chars[end - 1] == '\r')
        invariant
            end <= chars.len(),
            chars@ == text@,
            without_line_ends(text@) == without_line_ends(text@.subrange(0, end as int)),
        decreases end,
    {
        assert(text@.subrange(0, end as int).drop_last() =~= text@.subrange(0, end - 1));
        end -= 1;
    }
    text.substring_char(0, end)
}

fn read_page_line(line: &[u8]) -> (r: ReadLine)
    ensures
        read_view(r) == page_line_state(line@),
{
    match text_from_bytes(line) {
        Some(text) => read_text(drop_line_ends(text.as_str())),
        None => ReadLine::NotText,
    }
}

fn read_from(content: &[u8], offset: u64) -> (r: ReadLine)
    ensures
        read_view(r) == state_from(content@, offset as int),
{
    let line: Vec<u8> = if offset < content.len() as u64 {
        let from: usize = offset as usize;
        let end: usize = find_newline(content, from);
        part(content, from, end)
    } else {
        Vec::new()
    };
    assert(offset >= content@.len() ==> line@ =~= Seq::empty());
    read_page_line(line.as_slice())
}

fn collect_at(content: &[u8], path: String, offsets: &[u64], start: usize, end: usize) -> (r:
    Result<Vec<ChatMessage>, CacheError>)
    requires
        start <= end <= offsets@.len(),
    ensures
        messages_result(r) == collected(
            content@,
            path@,
            offsets_view(offsets@).subrange(start as int, end as int),
        ),
{
    let ghost asked = offsets_view(offsets@).subrange(start as int, end as int);
    let mut out: Vec<ChatMessage> = Vec::new();
    let mut i: usize = start;
    proof {
        assert(asked.take(0) =~= Seq::empty());
        assert(messages_view(out@) =~= Seq::empty());
    }
    while i < end
        invariant
            start <= i <= end <= offsets@.len(),
            asked == offsets_view(offsets@).subrange(start as int, end as int),
            collected(content@, path@, asked.take(i - start)) == Ok::<
                Seq<ChatMessageView>,
                CacheErrorView,
            >(messages_view(out@)),
        decreases end - i,
    {
        proof {
            assert(asked.take(i + 1 - start).drop_last() =~= asked.take(i - start));
            assert(asked.take(i + 1 - start).last() == offsets@[i as int]);
        }
        let ghost before = messages_view(out@);
        match read_from(content, offsets[i]) {
            ReadLine::NotText => {
                proof {
                    lemma_collected_error(content@, path@, asked, i + 1 - start);
                }
                return Err(CacheError::Io { path, reason: IoReason::InvalidUtf8 });
            },
            ReadLine::Malformed => {
                proof {
                    lemma_collected_error(content@, path@, asked, i + 1 - start);
                }
                return Err(CacheError::Parse { path, line_no: 0 });
            },
            ReadLine::Holds(Line::Message(m)) => {
                out.push(m);
                assert(messages_view(out@) =~= before.push(m@));
            },
            _ => {},
        }
        i += 1;
    }
    assert(asked.take(end - start) =~= asked);
    Ok(out)
}

proof fn lemma_collected_error(
    content: Seq<u8>,
    path: Seq<char>,
    offsets: Seq<int>,
    upto: int,
)
    requires
        0 <= upto <= offsets.len(),
        collected(content, path, offsets.take(upto)) is Err,
    ensures
        collected(content, path, offsets) == collected(content, path, offsets.take(upto)),
    decreases offsets.len(),
{
    if upto == offsets.len() {
        assert(offsets.take(upto) =~= offsets);
    } else {
        assert(offsets.drop_last().take(upto) =~= offsets.take(upto));
        lemma_collected_error(content, path, offsets.drop_last(), upto);
    }
}

impl JsonlStore {
    fn rebuild_index(&mut self, thread_id: &str) -> (r: Vec<u64>)
        ensures
            final(self)@ == reindexed(old(self)@, thread_id@),
            offsets_view(r@) == offsets_of(content_of(old(self)@, thread_id@)),
    {
        let path: String = self.path_for(thread_id);
        let offsets: Vec<u64> = match self.file(path.as_str()) {
            Some(content) => compute_offsets(content.as_slice()),
            None => {
                let empty: Vec<u8> = Vec::new();
                assert(empty@ =~= Seq::empty());
                compute_offsets(empty.as_slice())
            },
        };
        let index: String = self.index_path_for(thread_id);
        self.put_file(index, write_index(offsets.as_slice()));
        offsets
    }

    fn ensure_index(&mut self, thread_id: &str) -> (r: Result<Vec<u64>, CacheError>)
        ensures
            (final(self)@, offsets_result(r)) == ensured(old(self)@, thread_id@),
    {
        let index_at: String = self.index_path_for(thread_id);
        let path: String = self.path_for(thread_id);
        let lines_len: u64 = match self.file(path.as_str()) {
            Some(content) => content.len() as u64,
            None => 0,
        };
        let good_for: IndexUse = match self.file(index_at.as_str()) {
            Some(index) => use_of_index(Some(index.as_slice()), lines_len),
            None => use_of_index(None, lines_len),
        };
        match good_for {
            IndexUse::Listed(offsets) => Ok(offsets),
            IndexUse::Rebuild => Ok(self.rebuild_index(thread_id)),
            IndexUse::NotText => Err(
                CacheError::Io { path: index_at, reason: IoReason::InvalidUtf8 },
            ),
        }
    }

    fn read_messages_at_offsets(
        &self,
        thread_id: &str,
        offsets: &[u64],
        start: usize,
        end: usize,
    ) -> (r: Result<Vec<ChatMessage>, CacheError>)
        requires
            start <= end <= offsets@.len(),
        ensures
            messages_result(r) == messages_at(
                self@,
                thread_id@,
                offsets_view(offsets@).subrange(start as int, end as int),
            ),
    {
        if start == end {
            let none: Vec<ChatMessage> = Vec::new();
            assert(messages_view(none@) =~= Seq::empty());
            return Ok(none);
        }
        let path: String = self.path_for(thread_id);
        match self.file(path.as_str()) {
            Some(content) => collect_at(content.as_slice(), path, offsets, start, end),
            None => Err(CacheError::Io { path, reason: IoReason::NotFound }),
        }
    }

    fn read_page(&self, thread_id: &str, offsets: &[u64], start: usize, end: usize) -> (r: Result<
        MessagePage,
        CacheError,
    >)
        requires
            start <= end <= offsets@.len(),
        ensures
            page_result(r) == page_read(
                self@,
                thread_id@,
                offsets_view(offsets@),
                start as int,
                end as int,
            ),
    {
        match self.read_messages_at_offsets(thread_id, offsets, start, end) {
            Ok(messages) => Ok(
                MessagePage { messages, older_available: start > 0, oldest_loaded_index: start },
            ),
            Err(e) => Err(e),
        }
    }
}

/// Whether a text is one that the cache writes as a line: an object on one
/// line that reads as a message or a trailer.
pub open spec fn good_text(text: Seq<char>) -> bool {
    one_line(text) && text.len() > 0 && text[0] == '{' && json_parsed(text)->0 is Object
        && text_state(text) is Holds
}

/// Whether content is what writing the given texts as lines leaves.
pub open spec fn wrote(content: Seq<u8>, texts: Seq<Seq<char>>) -> bool {
    &&& content == lines_bytes(texts)
    &&& forall|i: int| 0 <= i < texts.len() ==> good_text(#[trigger] texts[i])
}

/// Whether content is what the cache writes: nothing but whole lines that each
/// hold a message or a trailer.
pub open spec fn sound(content: Seq<u8>) -> bool {
    exists|texts: Seq<Seq<char>>| #[trigger] wrote(content, texts)
}

/// Whether a thread has no index, or one that lists nothing.
pub open spec fn unlisted(v: StoreView, id: Seq<char>) -> bool {
    match v.file(index_path(v, id)) {
        Some(index) => valid_utf8(index) && index_read(index).len() == 0,
        None => true,
    }
}

/// Whether a thread's index is what the cache writes for its message lines. One
/// that is missing, or lists nothing, is written when it is needed.
pub open spec fn indexed(v: StoreView, id: Seq<char>) -> bool {
    unlisted(v, id) || v.file(index_path(v, id)) == Some(
        index_bytes(offsets_of(content_of(v, id))),
    )
}

/// Whether a thread's index does not mislead: it is missing, or lists nothing,
/// or lists just the message lines.
pub open spec fn index_agrees(v: StoreView, id: Seq<char>) -> bool {
    unlisted(v, id) || match v.file(index_path(v, id)) {
        Some(index) => valid_utf8(index) && index_read(index) == offsets_of(content_of(v, id)),
        None => false,
    }
}

spec fn text_message(text: Seq<char>) -> Option<ChatMessageView> {
    state_message(text_state(text))
}

proof fn lemma_good_text(text: Seq<char>)
    requires
        good_text(text),
    ensures
        line_state(encode_utf8(text)) == text_state(text),
        without_line_ends(text) == text,
        valid_utf8(encode_utf8(text)),
        decode_utf8(encode_utf8(text)) == text,
        encode_utf8(text).len() > 0,
        message_line(encode_utf8(text)) <==> text_message(text) is Some,
        forall|i: int| 0 <= i < encode_utf8(text).len() ==> (#[trigger] encode_utf8(text)[i])
            >= 0x20,
{
    encode_utf8_valid_utf8(text);
    encode_utf8_decode_utf8(text);
    lemma_one_line_bytes(text);
    lemma_blank_is_trimmed_empty(text);
    assert(!white(text[0]));
    assert(text[text.len() - 1] as u32 >= 0x20);
    if encode_utf8(text).len() == 0 {
        assert(encode_utf8(text) =~= encode_utf8(Seq::<char>::empty()));
        encode_utf8_decode_utf8(Seq::<char>::empty());
        assert(text =~= Seq::<char>::empty());
    }
}

proof fn lemma_wrote_lines(content: Seq<u8>, texts: Seq<Seq<char>>)
    requires
        wrote(content, texts),
    ensures
        terminated(content),
        line_starts(content, 0).len() == texts.len(),
        forall|i: int|
            0 <= i < texts.len() ==> state_at(content, #[trigger] line_starts(content, 0)[i])
                == text_state(texts[i]),
        forall|i: int|
            0 <= i < texts.len() ==> state_from(content, #[trigger] line_starts(content, 0)[i])
                == text_state(texts[i]),
        forall|i: int|
            0 <= i < texts.len() ==> (message_line(
                raw_line(content, #[trigger] line_starts(content, 0)[i]),
            ) <==> text_message(texts[i]) is Some),
{
    assert forall|i: int| 0 <= i < texts.len() implies one_line(#[trigger] texts[i]) by {
        assert(good_text(texts[i]));
    }
    lemma_written_lines(texts);
    lemma_starts_inside(content, 0);
    let starts = line_starts(content, 0);
    assert forall|i: int| 0 <= i < texts.len() implies state_at(content, #[trigger] starts[i])
        == text_state(texts[i]) && state_from(content, starts[i]) == text_state(texts[i]) && (
    message_line(raw_line(content, starts[i])) <==> text_message(texts[i]) is Some) by {
        assert(good_text(texts[i]));
        lemma_good_text(texts[i]);
        assert(text_line(content, starts[i]) == encode_utf8(texts[i]));
        assert(raw_line(content, starts[i]) == encode_utf8(texts[i]));
    }
}

/// Sound content loads, and its index is in step with its messages: each
/// offset leads to the message at its position.
proof fn lemma_sound_in_step(content: Seq<u8>, path: Seq<char>)
    requires
        sound(content),
    ensures
        terminated(content),
        loaded(content, path) is Ok,
        loaded(content, path)->Ok_0.messages.len() == offsets_of(content).len(),
        forall|k: int|
            0 <= k < offsets_of(content).len() ==> state_from(
                content,
                #[trigger] offsets_of(content)[k],
            ) == LineState::Holds(LineView::Message(loaded(content, path)->Ok_0.messages[k])),
{
    let texts = choose|texts: Seq<Seq<char>>| #[trigger] wrote(content, texts);
    lemma_wrote_lines(content, texts);
    let starts = line_starts(content, 0);
    assert forall|i: int| 0 <= i < starts.len() implies !bad_state(
        state_at(content, #[trigger] starts[i]),
    ) by {
        assert(good_text(texts[i]));
    }
    lemma_first_bad(content, starts, 0, starts.len() as int);
    let f = |s: int|
        if message_line(raw_line(content, s)) {
            Some(s)
        } else {
            None
        };
    let g = |s: int| state_message(state_at(content, s));
    let related = |o: int, m: ChatMessageView|
        state_from(content, o) == LineState::Holds(LineView::Message(m));
    assert forall|i: int| 0 <= i < starts.len() implies (f(#[trigger] starts[i]) is Some <==> g(
        starts[i],
    ) is Some) by {
        assert(state_at(content, starts[i]) == text_state(texts[i]));
    }
    assert forall|i: int| 0 <= i < starts.len() && f(#[trigger] starts[i]) is Some implies related(
        f(starts[i])->0,
        g(starts[i])->0,
    ) by {
        assert(state_at(content, starts[i]) == text_state(texts[i]));
        assert(state_from(content, starts[i]) == text_state(texts[i]));
    }
    crate::seqs::lemma_picked_in_step(starts, f, starts, g, related);
    assert forall|k: int| 0 <= k < offsets_of(content).len() implies state_from(
        content,
        #[trigger] offsets_of(content)[k],
    ) == LineState::Holds(LineView::Message(loaded(content, path)->Ok_0.messages[k])) by {
        assert(related(picked(starts, f)[k], picked(starts, g)[k]));
    }
}

proof fn lemma_collected_in_step(
    content: Seq<u8>,
    path: Seq<char>,
    offsets: Seq<int>,
    messages: Seq<ChatMessageView>,
)
    requires
        offsets.len() == messages.len(),
        forall|k: int|
            0 <= k < offsets.len() ==> state_from(content, #[trigger] offsets[k])
                == LineState::Holds(LineView::Message(messages[k])),
    ensures
        collected(content, path, offsets) == Ok::<Seq<ChatMessageView>, CacheErrorView>(messages),
    decreases offsets.len(),
{
    if offsets.len() > 0 {
        let n = offsets.len() - 1;
        assert forall|k: int| 0 <= k < n implies state_from(
            content,
            #[trigger] offsets.drop_last()[k],
        ) == LineState::Holds(LineView::Message(messages.drop_last()[k])) by {
            assert(offsets.drop_last()[k] == offsets[k]);
        }
        lemma_collected_in_step(content, path, offsets.drop_last(), messages.drop_last());
        assert(state_from(content, offsets[n]) == LineState::Holds(LineView::Message(messages[n])));
        assert(messages.drop_last().push(messages[n]) =~= messages);
    } else {
        assert(messages =~= Seq::empty());
    }
}

proof fn lemma_offsets_inside(content: Seq<u8>)
    ensures
        forall|k: int|
            0 <= k < offsets_of(content).len() ==> 0 <= (#[trigger] offsets_of(content)[k])
                < content.len(),
        offsets_of(content).len() <= content.len(),
{
    let starts = line_starts(content, 0);
    let f = |s: int|
        if message_line(raw_line(content, s)) {
            Some(s)
        } else {
            None
        };
    lemma_starts_inside(content, 0);
    assert forall|k: int| 0 <= k < offsets_of(content).len() implies 0 <= (#[trigger] offsets_of(
        content,
    )[k]) < content.len() by {
        crate::seqs::lemma_picked_from(starts, f, k);
        let i = choose|i: int|
            0 <= i < starts.len() && f(#[trigger] starts[i]) == Some(picked(starts, f)[k]);
        assert(f(starts[i]) == Some(starts[i]));
    }
    crate::seqs::lemma_picked_len(starts, f);
}

/// The index of a thread that the cache wrote does not mislead.
pub proof fn law_written_index_agrees(v: StoreView, id: Seq<char>)
    requires
        indexed(v, id),
        content_of(v, id).len() <= u64::MAX,
    ensures
        index_agrees(v, id),
{
    let offsets = offsets_of(content_of(v, id));
    lemma_offsets_inside(content_of(v, id));
    assert forall|i: int| 0 <= i < offsets.len() implies 0 <= (#[trigger] offsets[i])
        <= u64::MAX by {}
    law_index_round_trip(offsets);
}

/// An index that does not mislead leads to the message lines, and making sure of
/// it once is enough.
proof fn lemma_ensured(v: StoreView, id: Seq<char>)
    requires
        index_agrees(v, id),
        content_of(v, id).len() <= u64::MAX,
    ensures
        ensured(v, id).1 == Ok::<Seq<int>, CacheErrorView>(offsets_of(content_of(v, id))),
        ensured(v, id).0.dir == v.dir,
        ensured(v, id).0.file(jsonl_path(v, id)) == v.file(jsonl_path(v, id)),
        index_agrees(ensured(v, id).0, id),
        ensured(ensured(v, id).0, id).0 == ensured(v, id).0,
{
    law_thread_files_differ(v, id);
    let offsets = offsets_of(content_of(v, id));
    lemma_offsets_inside(content_of(v, id));
    assert forall|i: int| 0 <= i < offsets.len() implies 0 <= (#[trigger] offsets[i])
        <= u64::MAX by {}
    law_index_round_trip(offsets);
    if content_of(v, id).len() == 0 {
        assert(offsets =~= Seq::empty());
        if let Some(index) = v.file(index_path(v, id)) {
            if valid_utf8(index) && index_read(index).len() == 0 {
                assert(index_read(index) =~= offsets);
            }
        }
    }
    let then = ensured(v, id).0;
    assert(content_of(then, id) == content_of(v, id));
    assert(ensured(then, id).0.files =~= then.files);
}

/// A thread without a file of lines has no messages.
proof fn lemma_no_lines(v: StoreView, id: Seq<char>)
    requires
        v.file(jsonl_path(v, id)) is None,
    ensures
        offsets_of(content_of(v, id)) == Seq::<int>::empty(),
        load_read(v, id)->Ok_0.messages == Seq::<ChatMessageView>::empty(),
{
    assert(line_starts(content_of(v, id), 0) =~= Seq::empty());
    assert(offsets_of(content_of(v, id)) =~= Seq::empty());
}

/// Pages are parts of what the thread loads as: the page before a position
/// holds, in order, the messages right before it, up to the page's size, and
/// says whether older ones remain.
pub proof fn law_pages_are_parts_of_load(
    v: StoreView,
    id: Seq<char>,
    before_index: int,
    page_size: int,
)
    requires
        sound(content_of(v, id)),
        index_agrees(v, id),
        content_of(v, id).len() <= u64::MAX,
        0 <= before_index,
        0 <= page_size,
    ensures
        load_read(v, id) is Ok,
        ({
            let all = load_read(v, id)->Ok_0.messages;
            let end = lesser(before_index, all.len() as int);
            let start = page_start(end, page_size);
            page_before(v, id, before_index, page_size) == Ok::<PageView, CacheErrorView>(
                PageView {
                    messages: all.subrange(start, end),
                    older_available: start > 0,
                    oldest_loaded_index: start,
                },
            )
        }),
{
    let content = content_of(v, id);
    let path = jsonl_path(v, id);
    lemma_ensured(v, id);
    lemma_sound_in_step(content, path);
    let offsets = offsets_of(content);
    if v.file(path) is None {
        lemma_no_lines(v, id);
    }
    let all = load_read(v, id)->Ok_0.messages;
    let end = lesser(before_index, all.len() as int);
    let start = page_start(end, page_size);
    let asked = offsets.subrange(start, end);
    assert forall|k: int| 0 <= k < asked.len() implies state_from(content, #[trigger] asked[k])
        == LineState::Holds(LineView::Message(all.subrange(start, end)[k])) by {
        assert(asked[k] == offsets[start + k]);
    }
    lemma_collected_in_step(content, path, asked, all.subrange(start, end));
    if asked.len() == 0 {
        assert(all.subrange(start, end) =~= Seq::empty());
    }
}

/// The newest page is the page before the end of the thread: its newest
/// messages, up to the page's size.
pub proof fn law_tail_is_the_newest_page(v: StoreView, id: Seq<char>, page_size: int)
    requires
        sound(content_of(v, id)),
        index_agrees(v, id),
        content_of(v, id).len() <= u64::MAX,
        0 <= page_size,
    ensures
        load_read(v, id) is Ok,
        tail_read(v, id, page_size) == page_before(
            v,
            id,
            load_read(v, id)->Ok_0.messages.len() as int,
            page_size,
        ),
{
    law_pages_are_parts_of_load(v, id, load_read(v, id)->Ok_0.messages.len() as int, page_size);
    lemma_ensured(v, id);
    lemma_sound_in_step(content_of(v, id), jsonl_path(v, id));
    if v.file(jsonl_path(v, id)) is None {
        lemma_no_lines(v, id);
    }
}

/// Paging back from a page gives the messages right before it: the two pages
/// together are one part of what the thread loads as.
pub proof fn law_pages_join(v: StoreView, id: Seq<char>, before_index: int, later: int, earlier: int)
    requires
        sound(content_of(v, id)),
        index_agrees(v, id),
        content_of(v, id).len() <= u64::MAX,
        0 <= before_index,
        0 <= later,
        0 <= earlier,
    ensures
        ({
            let page = page_before(v, id, before_index, later)->Ok_0;
            let older = page_before(v, id, page.oldest_loaded_index, earlier)->Ok_0;
            let all = load_read(v, id)->Ok_0.messages;
            &&& older.messages + page.messages == all.subrange(
                older.oldest_loaded_index,
                lesser(before_index, all.len() as int),
            )
            &&& page.older_available && earlier > 0 ==> older.messages.len() > 0
            &&& !page.older_available ==> older.messages.len() == 0
        }),
{
    law_pages_are_parts_of_load(v, id, before_index, later);
    let page = page_before(v, id, before_index, later)->Ok_0;
    law_pages_are_parts_of_load(v, id, page.oldest_loaded_index, earlier);
    let older = page_before(v, id, page.oldest_loaded_index, earlier)->Ok_0;
    let all = load_read(v, id)->Ok_0.messages;
    let end = lesser(before_index, all.len() as int);
    assert(older.messages + page.messages =~= all.subrange(older.oldest_loaded_index, end));
}

/// The count of a thread's messages is the number of those that it loads as.
pub proof fn law_count_is_of_loaded(v: StoreView, id: Seq<char>)
    requires
        sound(content_of(v, id)),
        index_agrees(v, id),
        content_of(v, id).len() <= u64::MAX,
    ensures
        load_read(v, id) is Ok,
        count_read(v, id) == Ok::<int, CacheErrorView>(
            load_read(v, id)->Ok_0.messages.len() as int,
        ),
{
    lemma_ensured(v, id);
    lemma_sound_in_step(content_of(v, id), jsonl_path(v, id));
    if v.file(jsonl_path(v, id)) is None {
        lemma_no_lines(v, id);
    }
}

/// Looking at a thread, which may write its index anew, changes no message of it
/// and leaves its index in order.
pub proof fn law_looking_changes_no_message(v: StoreView, id: Seq<char>)
    ensures
        content_of(ensured(v, id).0, id) == content_of(v, id),
        load_read(ensured(v, id).0, id) == load_read(v, id),
        trailer_file_read(ensured(v, id).0, id) == trailer_file_read(v, id),
        indexed(v, id) ==> indexed(ensured(v, id).0, id),
{
    law_thread_files_differ(v, id);
}

/// A thread that was never written is sound and indexed, and holds nothing.
pub proof fn law_fresh_thread(v: StoreView, id: Seq<char>)
    requires
        v.file(jsonl_path(v, id)) is None,
        v.file(index_path(v, id)) is None,
    ensures
        sound(content_of(v, id)),
        indexed(v, id),
        load_read(v, id) == Ok::<CachedView, CacheErrorView>(
            CachedView { messages: Seq::empty(), trailer: None },
        ),
{
    lemma_empty_sound(jsonl_path(v, id));
}

/// The page that is reached by paging back `steps` times from the newest one.
pub open spec fn page_back(v: StoreView, id: Seq<char>, page_size: int, steps: nat) -> Result<
    PageView,
    CacheErrorView,
>
    decreases steps,
{
    if steps == 0 {
        tail_read(v, id, page_size)
    } else {
        match page_back(v, id, page_size, (steps - 1) as nat) {
            Ok(page) => page_before(
                ensured(v, id).0,
                id,
                page.oldest_loaded_index,
                page_size,
            ),
            Err(e) => Err(e),
        }
    }
}

/// The messages of the newest `pages` pages, oldest first.
pub open spec fn walked_back(v: StoreView, id: Seq<char>, page_size: int, pages: nat) -> Seq<
    ChatMessageView,
>
    decreases pages,
{
    if pages == 0 {
        Seq::empty()
    } else {
        page_back(v, id, page_size, (pages - 1) as nat)->Ok_0.messages + walked_back(
            v,
            id,
            page_size,
            (pages - 1) as nat,
        )
    }
}

/// How many pages of `page_size` messages there are; a thread without messages
/// has one, which is empty.
pub open spec fn page_count(messages: int, page_size: int) -> int {
    if messages == 0 {
        1
    } else {
        (messages + page_size - 1) / page_size
    }
}

/// Where the page starts that is reached by paging back `steps` times.
spec fn start_back(messages: int, page_size: int, steps: nat) -> int {
    page_start(messages, (steps + 1) * page_size)
}

proof fn lemma_start_back(messages: int, page_size: int, steps: nat)
    requires
        0 <= messages,
        0 < page_size,
    ensures
        page_start(start_back(messages, page_size, steps), page_size) == start_back(
            messages,
            page_size,
            steps + 1,
        ),
        start_back(messages, page_size, 0) == page_start(messages, page_size),
{
    assert((steps + 1 + 1) * page_size == (steps + 1) * page_size + page_size)
        by (nonlinear_arith);
    assert((steps + 1) * page_size >= 0) by (nonlinear_arith)
        requires
            0 < page_size,
    ;
    assert((0 + 1) * page_size == page_size) by (nonlinear_arith);
}

proof fn lemma_page_back(v: StoreView, id: Seq<char>, page_size: int, steps: nat)
    requires
        sound(content_of(v, id)),
        index_agrees(v, id),
        content_of(v, id).len() <= u64::MAX,
        0 < page_size,
    ensures
        load_read(v, id) is Ok,
        ({
            let all = load_read(v, id)->Ok_0.messages;
            let total = all.len() as int;
            let start = start_back(total, page_size, steps);
            let end = if steps == 0 {
                total
            } else {
                start_back(total, page_size, (steps - 1) as nat)
            };
            &&& 0 <= start <= end <= total
            &&& end > 0 ==> start < end
            &&& page_back(v, id, page_size, steps) == Ok::<PageView, CacheErrorView>(
                PageView {
                    messages: all.subrange(start, end),
                    older_available: start > 0,
                    oldest_loaded_index: start,
                },
            )
            &&& walked_back(v, id, page_size, steps + 1) == all.subrange(start, total)
        }),
    decreases steps,
{
    let total = load_read(v, id)->Ok_0.messages.len() as int;
    law_tail_is_the_newest_page(v, id, page_size);
    law_pages_are_parts_of_load(v, id, total, page_size);
    lemma_ensured(v, id);
    let then = ensured(v, id).0;
    assert(content_of(then, id) == content_of(v, id));
    assert(load_read(then, id) == load_read(v, id));
    let all = load_read(v, id)->Ok_0.messages;
    let start = start_back(total, page_size, steps);
    if steps == 0 {
        lemma_start_back(total, page_size, 0);
        assert(walked_back(v, id, page_size, 0) =~= Seq::empty());
        assert(walked_back(v, id, page_size, 1) =~= all.subrange(start, total));
    } else {
        let end = start_back(total, page_size, (steps - 1) as nat);
        lemma_page_back(v, id, page_size, (steps - 1) as nat);
        lemma_start_back(total, page_size, (steps - 1) as nat);
        law_pages_are_parts_of_load(then, id, end, page_size);
        assert(walked_back(v, id, page_size, steps + 1) =~= all.subrange(start, end)
            + all.subrange(end, total));
        assert(all.subrange(start, end) + all.subrange(end, total) =~= all.subrange(start, total));
    }
}

/// Walking back page by page from the newest one, as long as older messages
/// remain, gives every message of the thread once and in order: the pages
/// together are what it loads as. The walk takes as many pages as the messages
/// need, each page asked for holds messages, and only the last one has no older
/// ones.
pub proof fn law_walk_back_gives_all(v: StoreView, id: Seq<char>, page_size: int)
    requires
        sound(content_of(v, id)),
        index_agrees(v, id),
        content_of(v, id).len() <= u64::MAX,
        0 < page_size,
    ensures
        load_read(v, id) is Ok,
        ({
            let all = load_read(v, id)->Ok_0.messages;
            let pages = page_count(all.len() as int, page_size);
            &&& 1 <= pages
            &&& walked_back(v, id, page_size, pages as nat) == all
            &&& forall|i: int|
                #![trigger page_back(v, id, page_size, i as nat)]
                0 <= i < pages ==> {
                    let page = page_back(v, id, page_size, i as nat);
                    &&& page is Ok
                    &&& page->Ok_0.older_available == (i < pages - 1)
                    &&& i > 0 ==> page->Ok_0.messages.len() > 0
                }
            &&& page_back(v, id, page_size, (pages - 1) as nat)->Ok_0.oldest_loaded_index == 0
        }),
{
    lemma_page_back(v, id, page_size, 0);
    let all = load_read(v, id)->Ok_0.messages;
    let total = all.len() as int;
    let pages = page_count(total, page_size);
    lemma_page_count(total, page_size);
    lemma_page_back(v, id, page_size, (pages - 1) as nat);
    assert(all.subrange(0, total) =~= all);
    assert forall|i: int| 0 <= i < pages implies ({
        let page = #[trigger] page_back(v, id, page_size, i as nat);
        &&& page is Ok
        &&& page->Ok_0.older_available == (i < pages - 1)
        &&& i > 0 ==> page->Ok_0.messages.len() > 0
    }) by {
        lemma_page_back(v, id, page_size, i as nat);
        if i < pages - 1 {
            assert((i + 1) * page_size <= (pages - 1) * page_size) by (nonlinear_arith)
                requires
                    i + 1 <= pages - 1,
                    0 < page_size,
            ;
        }
        if i > 0 {
            assert(i * page_size <= (pages - 1) * page_size) by (nonlinear_arith)
                requires
                    i <= pages - 1,
                    0 < page_size,
            ;
        }
    }
}

proof fn lemma_page_count(total: int, page_size: int)
    requires
        0 <= total,
        0 < page_size,
    ensures
        1 <= page_count(total, page_size),
        page_count(total, page_size) * page_size >= total,
        total > 0 ==> (page_count(total, page_size) - 1) * page_size < total,
        total == 0 ==> (page_count(total, page_size) - 1) * page_size == 0,
{
    if total > 0 {
        let n = total + page_size - 1;
        let q = n / page_size;
        assert(n == q * page_size + n % page_size && 0 <= n % page_size < page_size)
            by (nonlinear_arith)
            requires
                n >= 0,
                page_size > 0,
                q == n / page_size,
        ;
        assert(q >= 1) by (nonlinear_arith)
            requires
                n >= page_size,
                n == q * page_size + n % page_size,
                0 <= n % page_size < page_size,
                page_size > 0,
        ;
        assert((q - 1) * page_size == q * page_size - page_size) by (nonlinear_arith);
    } else {
        assert((1 - 1) * page_size == 0) by (nonlinear_arith);
        assert(1 * page_size == page_size) by (nonlinear_arith);
    }
}

/// The bytes of lines as mathematical values.
pub open spec fn byte_lines(lines: Seq<Vec<u8>>) -> Seq<Seq<u8>> {
    lines.map_values(|line: Vec<u8>| line@)
}

/// The messages of lines, or the error of the first one that is neither a
/// message nor a trailer.
pub open spec fn lines_read(path: Seq<char>, lines: Seq<Seq<u8>>) -> Result<
    Seq<ChatMessageView>,
    CacheErrorView,
>
    decreases lines.len(),
{
    if lines.len() == 0 {
        Ok(Seq::empty())
    } else {
        match lines_read(path, lines.drop_last()) {
            Ok(messages) => {
                let state = page_line_state(lines.last());
                if bad_state(state) {
                    Err(line_error(state, path, 0))
                } else {
                    match state_message(state) {
                        Some(m) => Ok(messages.push(m)),
                        None => Ok(messages),
                    }
                }
            },
            Err(e) => Err(e),
        }
    }
}

/// The page of the given lines, which starts at a position.
pub open spec fn page_of(path: Seq<char>, lines: Seq<Seq<u8>>, start: int) -> Result<
    PageView,
    CacheErrorView,
> {
    match lines_read(path, lines) {
        Ok(messages) => Ok(
            PageView { messages, older_available: start > 0, oldest_loaded_index: start },
        ),
        Err(e) => Err(e),
    }
}

proof fn lemma_lines_error(path: Seq<char>, lines: Seq<Seq<u8>>, upto: int)
    requires
        0 <= upto <= lines.len(),
        lines_read(path, lines.take(upto)) is Err,
    ensures
        lines_read(path, lines) == lines_read(path, lines.take(upto)),
    decreases lines.len(),
{
    if upto == lines.len() {
        assert(lines.take(upto) =~= lines);
    } else {
        assert(lines.drop_last().take(upto) =~= lines.take(upto));
        lemma_lines_error(path, lines.drop_last(), upto);
    }
}

/// Makes a page of the lines that stand at its offsets, without the rest of
/// their file. `start` is the position of the first one.
pub fn page_from_lines(path: String, lines: &Vec<Vec<u8>>, start: usize) -> (r: Result<
    MessagePage,
    CacheError,
>)
    ensures
        page_result(r) == page_of(path@, byte_lines(lines@), start as int),
{
    let ghost all = byte_lines(lines@);
    let mut out: Vec<ChatMessage> = Vec::new();
    let mut i: usize = 0;
    proof {
        assert(all.take(0) =~= Seq::empty());
        assert(messages_view(out@) =~= Seq::empty());
    }
    while i < lines.len()
        invariant
            i <= lines@.len(),
            all == byte_lines(lines@),
            lines_read(path@, all.take(i as int)) == Ok::<Seq<ChatMessageView>, CacheErrorView>(
                messages_view(out@),
            ),
        decreases lines@.len() - i,
    {
        proof {
            assert(all.take(i + 1).drop_last() =~= all.take(i as int));
            assert(all.take(i + 1).last() == lines@[i as int]@);
        }
        let ghost before = messages_view(out@);
        match read_page_line(lines[i].as_slice()) {
            ReadLine::NotText => {
                proof {
                    lemma_lines_error(path@, all, i + 1);
                }
                return Err(CacheError::Io { path, reason: IoReason::InvalidUtf8 });
            },
            ReadLine::Malformed => {
                proof {
                    lemma_lines_error(path@, all, i + 1);
                }
                return Err(CacheError::Parse { path, line_no: 0 });
            },
            ReadLine::Holds(Line::Message(m)) => {
                out.push(m);
                assert(messages_view(out@) =~= before.push(m@));
            },
            _ => {},
        }
        i += 1;
    }
    assert(all.take(i as int) =~= all);
    Ok(MessagePage { messages: out, older_available: start > 0, oldest_loaded_index: start })
}

/// The lines at the given offsets of a file.
pub open spec fn lines_at(content: Seq<u8>, offsets: Seq<int>) -> Seq<Seq<u8>> {
    offsets.map_values(|o: int| line_from(content, o))
}

proof fn lemma_lines_are_collected(content: Seq<u8>, path: Seq<char>, offsets: Seq<int>)
    ensures
        lines_read(path, lines_at(content, offsets)) == collected(content, path, offsets),
    decreases offsets.len(),
{
    let lines = lines_at(content, offsets);
    if offsets.len() > 0 {
        lemma_lines_are_collected(content, path, offsets.drop_last());
        assert(lines.drop_last() =~= lines_at(content, offsets.drop_last()));
        assert(lines.last() == line_from(content, offsets.last()));
    }
}

/// A page needs nothing of its thread's file but its own lines.
pub proof fn law_page_needs_its_lines_alone(
    v: StoreView,
    id: Seq<char>,
    offsets: Seq<int>,
    start: int,
    end: int,
)
    requires
        0 <= start <= end <= offsets.len(),
        v.file(jsonl_path(v, id)) is Some || start == end,
    ensures
        page_read(v, id, offsets, start, end) == page_of(
            jsonl_path(v, id),
            lines_at(content_of(v, id), offsets.subrange(start, end)),
            start,
        ),
{
    let asked = offsets.subrange(start, end);
    lemma_lines_are_collected(content_of(v, id), jsonl_path(v, id), asked);
}

/// From where to where a page goes.
pub open spec fn range_of(listed: int, before: Option<int>, page_size: int) -> (int, int) {
    let end = match before {
        Some(before) => lesser(before, listed),
        None => listed,
    };
    (page_start(end, page_size), end)
}

/// From where to where the page goes that ends before a position, or at the end
/// of `listed` messages where none is given.
pub fn page_range(listed: usize, before: Option<usize>, page_size: usize) -> (r: (usize, usize))
    ensures
        (r.0 as int, r.1 as int) == range_of(
            listed as int,
            match before {
                Some(before) => Some(before as int),
                None => None,
            },
            page_size as int,
        ),
        r.0 <= r.1 <= listed,
{
    let end: usize = match before {
        Some(before) => if before < listed {
            before
        } else {
            listed
        },
        None => listed,
    };
    (end.saturating_sub(page_size), end)
}

/// What the index of a thread is good for.
#[derive(Debug, PartialEq)]
pub enum IndexUse {
    /// It lists these offsets.
    Listed(Vec<u64>),
    /// It is written anew from the lines.
    Rebuild,
    /// It is no text.
    NotText,
}

/// Whether an index is good for something.
pub open spec fn index_used(index: Option<Seq<u8>>, lines_len: u64, r: IndexUse) -> bool {
    match index {
        None => r is Rebuild,
        Some(index) => if !valid_utf8(index) {
            r is NotText
        } else if index_read(index).len() == 0 && lines_len > 0 {
            r is Rebuild
        } else {
            r is Listed && offsets_view(r->Listed_0@) == index_read(index)
        },
    }
}

/// Says what an index is good for, where `lines_len` is the length of the file
/// of lines.
pub fn use_of_index(index: Option<&[u8]>, lines_len: u64) -> (r: IndexUse)
    ensures
        index_used(
            match index {
                None => None,
                Some(index) => Some(index@),
            },
            lines_len,
            r,
        ),
{
    match index {
        Some(index) => {
            if text_from_bytes(index).is_none() {
                return IndexUse::NotText;
            }
            let listed: Vec<u64> = read_index(index);
            if listed.len() == 0 && lines_len > 0 {
                IndexUse::Rebuild
            } else {
                IndexUse::Listed(listed)
            }
        },
        None => IndexUse::Rebuild,
    }
}

/// What becomes of an index when a line is added.
#[derive(Debug, PartialEq)]
pub enum IndexChange {
    /// These bytes are added to it.
    Add(Vec<u8>),
    /// It consists of these bytes.
    Begin(Vec<u8>),
    /// It is written anew from the lines.
    Rebuild,
}

/// Whether a change is what becomes of an index when a line is added at an
/// offset.
pub open spec fn index_changed(index: Option<Seq<u8>>, offset: u64, r: IndexChange) -> bool {
    let nothing = match index {
        Some(index) => valid_utf8(index) && index_read(index).len() == 0,
        None => true,
    };
    if !nothing {
        r is Add && r->Add_0@ == encode_utf8(decimal(offset as nat)) + seq![NEWLINE]
    } else if offset == 0 {
        r is Begin && r->Begin_0@ == index_bytes(seq![0int])
    } else {
        r is Rebuild
    }
}

/// Says what becomes of an index when a line is added at an offset.
pub fn index_after_append(index: Option<&[u8]>, offset: u64) -> (r: IndexChange)
    ensures
        index_changed(
            match index {
                None => None,
                Some(index) => Some(index@),
            },
            offset,
            r,
        ),
{
    let nothing: bool = match index {
        Some(index) => text_from_bytes(index).is_some() && read_index(index).len() == 0,
        None => true,
    };
    if !nothing {
        IndexChange::Add(index_line_bytes(offset))
    } else if offset == 0 {
        proof {
            lemma_index_grows(Seq::empty(), 0);
            assert(Seq::<int>::empty().push(0) =~= seq![0int]);
            assert(index_texts(Seq::<int>::empty()) =~= Seq::empty());
        }
        let begun: Vec<u8> = index_line_bytes(0);
        assert(begun@ =~= index_bytes(seq![0int]));
        IndexChange::Begin(begun)
    } else {
        IndexChange::Rebuild
    }
}

/// A message as a line of its thread's file.
pub fn message_line_bytes(message: &ChatMessage) -> (r: Vec<u8>)
    ensures
        r@ == encode_utf8(json_text(message_json(message@))) + seq![NEWLINE],
{
    let text: String = message_to_json(message).to_text();
    let mut out: Vec<u8> = Vec::new();
    push_line(&mut out, text.as_str());
    assert(out@ =~= encode_utf8(json_text(message_json(message@))) + seq![NEWLINE]);
    out
}

/// An offset as a line of an index.
fn index_line_bytes(offset: u64) -> (r: Vec<u8>)
    ensures
        r@ == encode_utf8(decimal(offset as nat)) + seq![NEWLINE],
{
    let mut out: Vec<u8> = Vec::new();
    push_line(&mut out, decimal_text(offset).as_str());
    assert(out@ =~= encode_utf8(decimal(offset as nat)) + seq![NEWLINE]);
    out
}

/// Adding a message leaves the lines of its thread in front of the message's
/// own, and an index that lists something in front of where the message starts.
pub proof fn law_append_only_adds(v: StoreView, id: Seq<char>, message: ChatMessageView)
    ensures
        ({
            let after = appended(v, id, message);
            &&& content_of(after, id) == content_of(v, id) + (encode_utf8(
                json_text(message_json(message)),
            ) + seq![NEWLINE])
            &&& !unlisted(v, id) ==> after.file(index_path(v, id)) == Some(
                v.file(index_path(v, id))->0 + (encode_utf8(decimal(content_of(v, id).len()))
                    + seq![NEWLINE]),
            )
        }),
{
    law_thread_files_differ(v, id);
    let after = appended(v, id, message);
    assert(content_of(after, id) =~= content_of(v, id) + (encode_utf8(
        json_text(message_json(message)),
    ) + seq![NEWLINE]));
    if !unlisted(v, id) {
        assert(after.file(index_path(v, id))->0 =~= v.file(index_path(v, id))->0 + (encode_utf8(
            decimal(content_of(v, id).len()),
        ) + seq![NEWLINE]));
    }
}

impl JsonlStore {
    /// The newest messages of a thread, at most `page_size`, oldest first.
    pub fn tail(&mut self, thread_id: &str, page_size: usize) -> (r: Result<MessagePage, CacheError>)
        ensures
            final(self)@ == ensured(old(self)@, thread_id@).0,
            page_result(r) == tail_read(old(self)@, thread_id@, page_size as int),
    {
        let offsets: Vec<u64> = match self.ensure_index(thread_id) {
            Ok(offsets) => offsets,
            Err(e) => {
                return Err(e);
            },
        };
        let (start, end): (usize, usize) = page_range(offsets.len(), None, page_size);
        self.read_page(thread_id, offsets.as_slice(), start, end)
    }

    /// The messages of a thread right before position `before_index`, at most
    /// `page_size`, oldest first.
    pub fn predecessor_page(&mut self, thread_id: &str, before_index: usize, page_size: usize) -> (r:
        Result<MessagePage, CacheError>)
        ensures
            final(self)@ == ensured(old(self)@, thread_id@).0,
            page_result(r) == page_before(
                old(self)@,
                thread_id@,
                before_index as int,
                page_size as int,
            ),
    {
        let offsets: Vec<u64> = match self.ensure_index(thread_id) {
            Ok(offsets) => offsets,
            Err(e) => {
                return Err(e);
            },
        };
        let (start, end): (usize, usize) = page_range(offsets.len(), Some(before_index), page_size);
        self.read_page(thread_id, offsets.as_slice(), start, end)
    }

    /// How many messages the index of a thread lists.
    pub fn message_count(&mut self, thread_id: &str) -> (r: Result<usize, CacheError>)
        ensures
            final(self)@ == ensured(old(self)@, thread_id@).0,
            count_result(r) == count_read(old(self)@, thread_id@),
    {
        match self.ensure_index(thread_id) {
            Ok(offsets) => Ok(offsets.len()),
            Err(e) => Err(e),
        }
    }
}

/// The texts of a thread's lines: its messages, and its trailer at the end.
pub open spec fn thread_texts(messages: Seq<ChatMessageView>, trailer: TrailerView) -> Seq<
    Seq<char>,
> {
    messages.map_values(|m: ChatMessageView| json_text(message_json(m))).push(
        json_text(trailer_line_json(trailer)),
    )
}

/// The store after a thread was written anew.
pub open spec fn overwritten(
    v: StoreView,
    id: Seq<char>,
    messages: Seq<ChatMessageView>,
    trailer: TrailerView,
) -> StoreView {
    let lines = v.with(jsonl_path(v, id), lines_bytes(thread_texts(messages, trailer)));
    reindexed(lines, id).with(
        trailer_path(v, id),
        encode_utf8(json_text(trailer_json(trailer))),
    )
}

/// The content of a thread's lines after a message was added.
pub open spec fn grown(v: StoreView, id: Seq<char>, message: ChatMessageView) -> Seq<u8> {
    content_of(v, id) + encode_utf8(json_text(message_json(message))) + seq![NEWLINE]
}

/// The store after a message was added to a thread. The index grows by where the
/// message starts. Where there is none, or it lists nothing, it is written anew
/// from the lines; for the first line it is begun.
pub open spec fn appended(v: StoreView, id: Seq<char>, message: ChatMessageView) -> StoreView {
    let lines = v.with(jsonl_path(v, id), grown(v, id, message));
    if !unlisted(v, id) {
        lines.with(
            index_path(v, id),
            v.file(index_path(v, id))->0 + encode_utf8(decimal(content_of(v, id).len()))
                + seq![NEWLINE],
        )
    } else if content_of(v, id).len() == 0 {
        lines.with(index_path(v, id), index_bytes(seq![0int]))
    } else {
        reindexed(lines, id)
    }
}

/// What the trailer file of a thread reads as.
pub open spec fn trailer_file_read(v: StoreView, id: Seq<char>) -> Result<
    Option<TrailerView>,
    CacheErrorView,
> {
    match v.file(trailer_path(v, id)) {
        None => Ok(None),
        Some(content) => if !valid_utf8(content) {
            Err(
                CacheErrorView::Io { path: trailer_path(v, id), reason: IoReason::InvalidUtf8 },
            )
        } else {
            match json_parsed(decode_utf8(content)) {
                Some(j) => match trailer_read(j) {
                    Some(t) if text_without_repeats(
                        decode_utf8(content),
                        Part::One(Record::Trailer),
                    ) => Ok(Some(t)),
                    _ => Err(CacheErrorView::Parse { path: trailer_path(v, id), line_no: 0 }),
                },
                None => Err(CacheErrorView::Parse { path: trailer_path(v, id), line_no: 0 }),
            }
        },
    }
}

/// A trailer that may be absent, or an error, as a mathematical value.
pub open spec fn trailer_result(r: Result<Option<ThreadTrailer>, CacheError>) -> Result<
    Option<TrailerView>,
    CacheErrorView,
> {
    match r {
        Ok(o) => Ok(trailer_option(o)),
        Err(e) => Err(e@),
    }
}

proof fn lemma_message_text_good(m: ChatMessageView, text: Seq<char>)
    requires
        faithful_message(m),
        text == json_text(message_json(m)),
        forall|i: int| 0 <= i < text.len() ==> (#[trigger] text[i]) as u32 >= 0x20,
        text.len() > 0 && text[0] == '{',
        faithful(message_json(m), MAX_DEPTH as nat) ==> json_parsed(text) == Some(message_json(m)),
        faithful(message_json(m), MAX_DEPTH as nat) ==> json_shown(text) == Some(message_json(m)),
    ensures
        good_text(text),
        text_state(text) == LineState::Holds(LineView::Message(reread(m))),
{
    lemma_message_faithful(m);
    law_message_json_round_trip(m);
    lemma_faithful_without_repeats(
        message_json(m),
        MAX_DEPTH as nat,
        Part::One(Record::MessageLine),
    );
}

proof fn lemma_trailer_text_good(t: TrailerView, text: Seq<char>)
    requires
        text == json_text(trailer_line_json(t)),
        forall|i: int| 0 <= i < text.len() ==> (#[trigger] text[i]) as u32 >= 0x20,
        text.len() > 0 && text[0] == '{',
        faithful(trailer_line_json(t), MAX_DEPTH as nat) ==> json_parsed(text) == Some(
            trailer_line_json(t),
        ),
        faithful(trailer_line_json(t), MAX_DEPTH as nat) ==> json_shown(text) == Some(
            trailer_line_json(t),
        ),
    ensures
        good_text(text),
        text_state(text) == LineState::Holds(LineView::Trailer(t)),
{
    lemma_trailer_faithful(t);
    law_trailer_json_round_trip(t);
    lemma_faithful_without_repeats(
        trailer_line_json(t),
        MAX_DEPTH as nat,
        Part::One(Record::TrailerLine),
    );
}

/// Adding a good line to sound content: it stays sound, what it loads as grows
/// by what the line holds, and its message lines by the new one.
proof fn lemma_sound_grows(content: Seq<u8>, text: Seq<char>, path: Seq<char>)
    requires
        sound(content),
        good_text(text),
    ensures
        ({
            let grown = content + encode_utf8(text) + seq![NEWLINE];
            let before = loaded(content, path)->Ok_0;
            &&& sound(grown)
            &&& loaded(content, path) is Ok
            &&& loaded(grown, path) == Ok::<CachedView, CacheErrorView>(
                CachedView {
                    messages: match text_message(text) {
                        Some(m) => before.messages.push(m),
                        None => before.messages,
                    },
                    trailer: match state_trailer(text_state(text)) {
                        Some(t) => Some(t),
                        None => before.trailer,
                    },
                },
            )
            &&& offsets_of(grown) == (match text_message(text) {
                Some(m) => offsets_of(content).push(content.len() as int),
                None => offsets_of(content),
            })
        }),
{
    let texts = choose|texts: Seq<Seq<char>>| #[trigger] wrote(content, texts);
    lemma_wrote_lines(content, texts);
    lemma_good_text(text);
    let grown = content + encode_utf8(text) + seq![NEWLINE];
    let all = texts.push(text);
    assert(all.drop_last() =~= texts);
    assert forall|i: int| 0 <= i < all.len() implies good_text(#[trigger] all[i]) by {
        if i < texts.len() {
            assert(all[i] == texts[i]);
        }
    }
    assert(wrote(grown, all));
    lemma_wrote_lines(grown, all);
    lemma_sound_in_step(content, path);
    lemma_sound_in_step(grown, path);
    lemma_line_added(content, encode_utf8(text));
    let old_starts = line_starts(content, 0);
    let starts = line_starts(grown, 0);
    assert(starts.drop_last() =~= old_starts);
    assert(starts.last() == content.len());
    assert forall|i: int| 0 <= i < old_starts.len() implies state_at(
        grown,
        #[trigger] old_starts[i],
    ) == state_at(content, old_starts[i]) && raw_line(grown, old_starts[i]) == raw_line(
        content,
        old_starts[i],
    ) by {}
    let g_old = |s: int| state_message(state_at(content, s));
    let g_new = |s: int| state_message(state_at(grown, s));
    crate::seqs::lemma_picked_same(old_starts, g_old, g_new);
    let f_old = |s: int|
        if message_line(raw_line(content, s)) {
            Some(s)
        } else {
            None
        };
    let f_new = |s: int|
        if message_line(raw_line(grown, s)) {
            Some(s)
        } else {
            None
        };
    crate::seqs::lemma_picked_same(old_starts, f_old, f_new);
    lemma_last_trailer_same(content, grown, old_starts);
    assert(state_at(grown, starts.last()) == text_state(text)) by {
        assert(starts[texts.len() as int] == starts.last());
        assert(all[texts.len() as int] == text);
    }
}

proof fn lemma_last_trailer_same(content: Seq<u8>, grown: Seq<u8>, starts: Seq<int>)
    requires
        forall|i: int|
            0 <= i < starts.len() ==> state_at(grown, #[trigger] starts[i]) == state_at(
                content,
                starts[i],
            ),
    ensures
        last_trailer(grown, starts) == last_trailer(content, starts),
    decreases starts.len(),
{
    if starts.len() > 0 {
        assert forall|i: int| 0 <= i < starts.drop_last().len() implies state_at(
            grown,
            #[trigger] starts.drop_last()[i],
        ) == state_at(content, starts.drop_last()[i]) by {
            assert(starts.drop_last()[i] == starts[i]);
        }
        lemma_last_trailer_same(content, grown, starts.drop_last());
        assert(state_at(grown, starts[starts.len() - 1]) == state_at(
            content,
            starts[starts.len() - 1],
        ));
    }
}

/// Content with no lines is sound, and loads as nothing.
proof fn lemma_empty_sound(path: Seq<char>)
    ensures
        sound(Seq::<u8>::empty()),
        loaded(Seq::<u8>::empty(), path) == Ok::<CachedView, CacheErrorView>(
            CachedView { messages: Seq::empty(), trailer: None },
        ),
        offsets_of(Seq::<u8>::empty()) == Seq::<int>::empty(),
{
    let empty = Seq::<u8>::empty();
    assert(wrote(empty, Seq::<Seq<char>>::empty()));
    assert(line_starts(empty, 0) =~= Seq::empty());
    assert(messages_of(empty, line_starts(empty, 0)) =~= Seq::empty());
}

proof fn lemma_index_grows(offsets: Seq<int>, offset: int)
    ensures
        index_bytes(offsets.push(offset)) == index_bytes(offsets) + encode_utf8(
            decimal(offset as nat),
        ) + seq![NEWLINE],
{
    let texts = index_texts(offsets.push(offset));
    assert(texts.drop_last() =~= index_texts(offsets));
    assert(texts.last() == decimal(offset as nat));
}

impl JsonlStore {
    /// Writes a thread anew: its lines, its index and its trailer. Where the
    /// messages' payloads survive being printed as JSON, the thread then loads
    /// as just these messages and this trailer; a payload that is `null` is read
    /// as none.
    pub fn overwrite(&mut self, thread_id: &str, messages: &[ChatMessage], trailer: &ThreadTrailer)
        ensures
            final(self)@ == overwritten(
                old(self)@,
                thread_id@,
                messages_view(messages@),
                trailer@,
            ),
            indexed(final(self)@, thread_id@),
            trailer_file_read(final(self)@, thread_id@) == Ok::<
                Option<TrailerView>,
                CacheErrorView,
            >(Some(trailer@)),
            (forall|i: int|
                0 <= i < messages@.len() ==> faithful_message((#[trigger] messages@[i])@)) ==> {
                &&& sound(content_of(final(self)@, thread_id@))
                &&& load_read(final(self)@, thread_id@) == Ok::<CachedView, CacheErrorView>(
                    CachedView {
                        messages: reread_all(messages_view(messages@)),
                        trailer: Some(trailer@),
                    },
                )
            },
            (forall|i: int|
                0 <= i < messages@.len() ==> faithful_message((#[trigger] messages@[i])@)
                    && storable(messages@[i]@)) ==> load_read(final(self)@, thread_id@) == Ok::<
                CachedView,
                CacheErrorView,
            >(CachedView { messages: messages_view(messages@), trailer: Some(trailer@) }),
    {
        let ghost v0 = self@;
        let ghost all = messages_view(messages@);
        let ghost read = reread_all(all);
        let ghost texts = thread_texts(all, trailer@);
        let ghost path = jsonl_path(v0, thread_id@);
        let ghost ok = forall|i: int|
            0 <= i < messages@.len() ==> faithful_message((#[trigger] messages@[i])@);
        let mut lines: Vec<u8> = Vec::new();
        let mut i: usize = 0;
        proof {
            assert(texts.take(0) =~= Seq::empty());
            lemma_empty_sound(path);
            assert(lines@ =~= Seq::empty());
            assert(read.take(0) =~= Seq::empty());
        }
        while i < messages.len()
            invariant
                i <= messages@.len(),
                all == messages_view(messages@),
                read == reread_all(all),
                texts == thread_texts(all, trailer@),
                ok == (forall|i: int|
                    0 <= i < messages@.len() ==> faithful_message((#[trigger] messages@[i])@)),
                lines@ == lines_bytes(texts.take(i as int)),
                ok ==> sound(lines@) && loaded(lines@, path) == Ok::<CachedView, CacheErrorView>(
                    CachedView { messages: read.take(i as int), trailer: None },
                ),
            decreases messages@.len() - i,
        {
            let text: String = message_to_json(&messages[i]).to_text();
            proof {
                assert(texts.take(i + 1).drop_last() =~= texts.take(i as int));
                assert(texts.take(i + 1).last() == text@);
                if ok {
                    assert(faithful_message(messages@[i as int]@));
                    lemma_message_text_good(messages@[i as int]@, text@);
                    lemma_sound_grows(lines@, text@, path);
                    assert(read.take(i as int).push(read[i as int]) =~= read.take(i + 1));
                }
            }
            push_line(&mut lines, text.as_str());
            i += 1;
        }
        let last: String = trailer_to_line_json(trailer).to_text();
        proof {
            assert(texts.drop_last() =~= texts.take(messages@.len() as int));
            assert(texts.last() == last@);
            assert(read.take(messages@.len() as int) =~= read);
            lemma_trailer_text_good(trailer@, last@);
            if ok {
                lemma_sound_grows(lines@, last@, path);
            }
        }
        push_line(&mut lines, last.as_str());
        assert(lines@ == lines_bytes(texts));
        let ghost content = lines@;
        let jsonl: String = self.path_for(thread_id);
        self.put_file(jsonl, lines);
        self.rebuild_index(thread_id);
        let ghost v2 = self@;
        self.update_trailer(thread_id, trailer);
        proof {
            law_thread_files_differ(v0, thread_id@);
            assert(content_of(self@, thread_id@) == content);
            assert(content_of(v0.with(path, content), thread_id@) == content);
            if forall|i: int|
                0 <= i < messages@.len() ==> faithful_message((#[trigger] messages@[i])@)
                    && storable(messages@[i]@) {
                assert forall|i: int| 0 <= i < all.len() implies #[trigger] read[i] == all[i] by {
                    assert(storable(messages@[i]@));
                }
                assert(read =~= all);
            }
        }
    }

    /// Replaces the trailer file of a thread, and nothing else.
    pub fn update_trailer(&mut self, thread_id: &str, trailer: &ThreadTrailer)
        ensures
            final(self)@ == old(self)@.with(
                trailer_path(old(self)@, thread_id@),
                encode_utf8(json_text(trailer_json(trailer@))),
            ),
            trailer_file_read(final(self)@, thread_id@) == Ok::<
                Option<TrailerView>,
                CacheErrorView,
            >(Some(trailer@)),
            content_of(final(self)@, thread_id@) == content_of(old(self)@, thread_id@),
            load_read(final(self)@, thread_id@) == load_read(old(self)@, thread_id@),
            indexed(final(self)@, thread_id@) == indexed(old(self)@, thread_id@),
    {
        let text: String = trailer_to_json(trailer).to_text();
        let path: String = self.trailer_path_for(thread_id);
        let bytes: Vec<u8> = text.as_str().as_bytes_vec();
        self.put_file(path, bytes);
        proof {
            law_thread_files_differ(old(self)@, thread_id@);
            lemma_trailer_faithful(trailer@);
            law_trailer_json_round_trip(trailer@);
            lemma_faithful_without_repeats(
                trailer_json(trailer@),
                MAX_DEPTH as nat,
                Part::One(Record::Trailer),
            );
            encode_utf8_valid_utf8(text@);
            encode_utf8_decode_utf8(text@);
        }
    }

    /// The trailer of a thread, from its own file; none where there is no such
    /// file.
    pub fn trailer(&self, thread_id: &str) -> (r: Result<Option<ThreadTrailer>, CacheError>)
        ensures
            trailer_result(r) == trailer_file_read(self@, thread_id@),
    {
        let path: String = self.trailer_path_for(thread_id);
        match self.file(path.as_str()) {
            Some(content) => match text_from_bytes(content.as_slice()) {
                Some(text) => match JsonValue::parse(text.as_str()) {
                    Ok(value) => match trailer_from_json(&value) {
                        Some(t) if is_text_without_repeats(
                            text.as_str(),
                            Part::One(Record::Trailer),
                        ) => Ok(Some(t)),
                        _ => Err(CacheError::Parse { path, line_no: 0 }),
                    },
                    Err(_) => Err(CacheError::Parse { path, line_no: 0 }),
                },
                None => Err(CacheError::Io { path, reason: IoReason::InvalidUtf8 }),
            },
            None => Ok(None),
        }
    }

    /// Adds a message to a thread, at the end of its lines and of its index;
    /// the trailer stays. An index that is missing, or lists nothing, is written
    /// anew. A thread that is sound and indexed stays so, where the message's
    /// payloads survive being printed as JSON, and loads as before with the
    /// message at the end; a payload that is `null` is read as none.
    pub fn append(&mut self, thread_id: &str, message: &ChatMessage)
        ensures
            final(self)@ == appended(old(self)@, thread_id@, message@),
            trailer_file_read(final(self)@, thread_id@) == trailer_file_read(
                old(self)@,
                thread_id@,
            ),
            sound(content_of(old(self)@, thread_id@)) && faithful_message(message@) ==> {
                let before = load_read(old(self)@, thread_id@)->Ok_0;
                &&& sound(content_of(final(self)@, thread_id@))
                &&& indexed(old(self)@, thread_id@) ==> indexed(final(self)@, thread_id@)
                &&& load_read(old(self)@, thread_id@) is Ok
                &&& load_read(final(self)@, thread_id@) == Ok::<CachedView, CacheErrorView>(
                    CachedView {
                        messages: before.messages.push(reread(message@)),
                        trailer: before.trailer,
                    },
                )
            },
    {
        let ghost v0 = self@;
        let ghost content = content_of(v0, thread_id@);
        let ghost at = jsonl_path(v0, thread_id@);
        let text: String = message_to_json(message).to_text();
        let path: String = self.path_for(thread_id);
        let index_at: String = self.index_path_for(thread_id);
        let mut lines: Vec<u8> = match self.file(path.as_str()) {
            Some(stored) => part(stored.as_slice(), 0, stored.len()),
            None => Vec::new(),
        };
        assert(lines@ =~= content);
        let offset: u64 = lines.len() as u64;
        push_line(&mut lines, text.as_str());
        proof {
            law_thread_files_differ(v0, thread_id@);
        }
        let change: IndexChange = match self.file(index_at.as_str()) {
            Some(index) => index_after_append(Some(index.as_slice()), offset),
            None => index_after_append(None, offset),
        };
        match change {
            IndexChange::Add(mut bytes) => {
                let mut index: Vec<u8> = match self.file(index_at.as_str()) {
                    Some(stored) => part(stored.as_slice(), 0, stored.len()),
                    None => Vec::new(),
                };
                let ghost stored = v0.file(index_path(v0, thread_id@))->0;
                assert(index@ =~= stored);
                index.append(&mut bytes);
                assert(index@ =~= stored + encode_utf8(decimal(content.len())) + seq![NEWLINE]);
                self.put_file(path, lines);
                self.put_file(index_at, index);
            },
            IndexChange::Begin(index) => {
                self.put_file(path, lines);
                self.put_file(index_at, index);
            },
            IndexChange::Rebuild => {
                self.put_file(path, lines);
                self.rebuild_index(thread_id);
            },
        }
        proof {
            assert(content_of(v0.with(at, grown(v0, thread_id@, message@)), thread_id@) == grown(
                v0,
                thread_id@,
                message@,
            ));
            assert(content_of(self@, thread_id@) == grown(v0, thread_id@, message@));
            if sound(content) && faithful_message(message@) {
                lemma_message_text_good(message@, text@);
                lemma_sound_grows(content, text@, at);
                lemma_empty_sound(at);
                lemma_index_grows(offsets_of(content), content.len() as int);
                if content.len() == 0 {
                    assert(content =~= Seq::empty());
                }
                if v0.file(at) is None {
                    assert(content =~= Seq::empty());
                }
            }
        }
    }
}

/// What the snapshot file of a thread reads as: no state where there is no
/// such file.
pub open spec fn snapshot_read(v: StoreView, id: Seq<char>) -> Result<
    SnapshotView,
    CacheErrorView,
> {
    match v.file(runtime_path(v, id)) {
        None => Ok(empty_snapshot()),
        Some(content) => if !valid_utf8(content) {
            Err(CacheErrorView::Parse { path: runtime_path(v, id), line_no: 0 })
        } else {
            match json_parsed(decode_utf8(content)) {
                Some(j) => match ThreadRuntimeSnapshot::decoded(j) {
                    Some(snapshot) if text_without_repeats(
                        decode_utf8(content),
                        Part::One(Record::Snapshot),
                    ) => Ok(snapshot),
                    _ => Err(CacheErrorView::Parse { path: runtime_path(v, id), line_no: 0 }),
                },
                None => Err(CacheErrorView::Parse { path: runtime_path(v, id), line_no: 0 }),
            }
        },
    }
}

/// A snapshot, or an error, as a mathematical value.
pub open spec fn snapshot_result(r: Result<ThreadRuntimeSnapshot, CacheError>) -> Result<
    SnapshotView,
    CacheErrorView,
> {
    match r {
        Ok(s) => Ok(s@),
        Err(e) => Err(e@),
    }
}

impl JsonlStore {
    /// The interaction state of a thread; none where it was never saved.
    pub fn runtime_snapshot(&self, thread_id: &str) -> (r: Result<
        ThreadRuntimeSnapshot,
        CacheError,
    >)
        ensures
            snapshot_result(r) == snapshot_read(self@, thread_id@),
    {
        let path: String = self.runtime_snapshot_path_for(thread_id);
        match self.file(path.as_str()) {
            Some(content) => match text_from_bytes(content.as_slice()) {
                Some(text) => match JsonValue::parse(text.as_str()) {
                    Ok(value) => match ThreadRuntimeSnapshot::from_json(&value) {
                        Some(snapshot) if is_text_without_repeats(
                            text.as_str(),
                            Part::One(Record::Snapshot),
                        ) => Ok(snapshot),
                        _ => Err(CacheError::Parse { path, line_no: 0 }),
                    },
                    Err(_) => Err(CacheError::Parse { path, line_no: 0 }),
                },
                None => Err(CacheError::Parse { path, line_no: 0 }),
            },
            None => Ok(ThreadRuntimeSnapshot::default()),
        }
    }

    /// Saves the interaction state of a thread. Its lines, index and trailer
    /// stay; the state is read again as it was saved, where the requests that
    /// it carries survive being printed as JSON.
    pub fn write_runtime_snapshot(&mut self, thread_id: &str, snapshot: &ThreadRuntimeSnapshot)
        ensures
            final(self)@ == old(self)@.with(
                runtime_path(old(self)@, thread_id@),
                encode_utf8(json_text(ThreadRuntimeSnapshot::encoded(snapshot@))),
            ),
            content_of(final(self)@, thread_id@) == content_of(old(self)@, thread_id@),
            load_read(final(self)@, thread_id@) == load_read(old(self)@, thread_id@),
            trailer_file_read(final(self)@, thread_id@) == trailer_file_read(
                old(self)@,
                thread_id@,
            ),
            indexed(final(self)@, thread_id@) == indexed(old(self)@, thread_id@),
            ThreadRuntimeSnapshot::carries_faithful(snapshot@) ==> snapshot_read(
                final(self)@,
                thread_id@,
            ) == Ok::<SnapshotView, CacheErrorView>(snapshot@),
    {
        let text: String = snapshot.to_json().to_text();
        let path: String = self.runtime_snapshot_path_for(thread_id);
        let bytes: Vec<u8> = text.as_str().as_bytes_vec();
        self.put_file(path, bytes);
        proof {
            law_thread_files_differ(old(self)@, thread_id@);
            ThreadRuntimeSnapshot::law_round_trip(snapshot@);
            if ThreadRuntimeSnapshot::carries_faithful(snapshot@) {
                ThreadRuntimeSnapshot::law_faithful(snapshot@);
                lemma_faithful_without_repeats(
                    ThreadRuntimeSnapshot::encoded(snapshot@),
                    ThreadRuntimeSnapshot::levels(),
                    Part::One(Record::Snapshot),
                );
            }
            encode_utf8_valid_utf8(text@);
            encode_utf8_decode_utf8(text@);
        }
    }
}

} // verus!
