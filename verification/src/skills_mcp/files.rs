//! The files beside a skill: which paths lead to them, and which there are.
//!
//! A path from an agent must lead from the skill's directory downwards, by
//! names alone and over no symbolic link. Symbolic links are not listed either.

use crate::json::{json_seq, json_text, text_value, Json, JsonValue};
use crate::paths::{join_path, joined};
use crate::skills_mcp::tools::{failed, given};
use crate::text::{
    before, chars_of, comes_before, debug_shown, debug_text, join, join3,
    law_before_is_a_total_order, law_before_is_transitive, same, text_from_chars, texts,
};
use vstd::prelude::*;
use vstd::seq_lib::{to_multiset_build, to_multiset_insert, to_multiset_len};

verus! {

/// The most files that are listed in one directory and what is below it.
pub const MAX_SKILL_FILES: usize = 512;

/// A part of a path.
#[verifier::ext_equal]
pub enum PartView {
    /// A name.
    Name(Seq<char>),
    /// Anything else: the root, the directory itself, or the one above.
    Other,
}

/// The parts of a path between its slashes, from a position on, where `start` is
/// the position of the part that is being read.
pub open spec fn split_from(s: Seq<char>, start: int, at: int) -> Seq<Seq<char>>
    decreases s.len() - at,
{
    if at < 0 || at >= s.len() {
        seq![s.subrange(start, s.len() as int)]
    } else if s[at] == '/' {
        seq![s.subrange(start, at)] + split_from(s, at + 1, at + 1)
    } else {
        split_from(s, start, at + 1)
    }
}

/// What a part of a path stands for, where it stands for anything: an empty part
/// does not, nor does one for the directory itself, except as the first.
pub open spec fn part_of(parts: Seq<Seq<char>>, k: int) -> Option<PartView> {
    let part = parts[k];
    if part.len() == 0 {
        if k == 0 && parts.len() > 1 {
            Some(PartView::Other)
        } else {
            None
        }
    } else if part == seq!['.'] {
        if k == 0 {
            Some(PartView::Other)
        } else {
            None
        }
    } else if part == seq!['.', '.'] {
        Some(PartView::Other)
    } else {
        Some(PartView::Name(part))
    }
}

/// The names that a path starts with, from a part on, up to the first part that
/// is none; and whether there is such a part.
pub open spec fn names_from(parts: Seq<Seq<char>>, k: int) -> (Seq<Seq<char>>, bool)
    decreases parts.len() - k,
{
    if k < 0 || k >= parts.len() {
        (Seq::empty(), false)
    } else {
        match part_of(parts, k) {
            None => names_from(parts, k + 1),
            Some(PartView::Other) => (Seq::empty(), true),
            Some(PartView::Name(name)) => {
                let rest = names_from(parts, k + 1);
                (seq![name] + rest.0, rest.1)
            },
        }
    }
}

/// The names of a path, and whether something else is among them.
pub open spec fn path_names(path: Seq<char>) -> (Seq<Seq<char>>, bool) {
    names_from(split_from(path, 0, 0), 0)
}

/// A directory with names joined to it.
pub open spec fn below(dir: Seq<char>, names: Seq<Seq<char>>) -> Seq<char>
    decreases names.len(),
{
    if names.len() == 0 {
        dir
    } else {
        joined(below(dir, names.drop_last()), names.last())
    }
}

fn copy_chars(s: &Vec<char>, from: usize, to: usize) -> (r: String)
    requires
        from <= to <= s@.len(),
    ensures
        r@ == s@.subrange(from as int, to as int),
{
    let mut out: Vec<char> = Vec::new();
    let mut i: usize = from;
    while i < to
        invariant
            from <= i <= to <= s@.len(),
            out@ == s@.subrange(from as int, i as int),
        decreases to - i,
    {
        out.push(s[i]);
        i += 1;
        assert(out@ =~= s@.subrange(from as int, i as int));
    }
    text_from_chars(out.as_slice())
}

fn split_path(path: &str) -> (r: Vec<String>)
    ensures
        texts(r@) == split_from(path@, 0, 0),
        r@.len() >= 1,
{
    let s: Vec<char> = chars_of(path);
    let mut out: Vec<String> = Vec::new();
    let mut start: usize = 0;
    let mut at: usize = 0;
    assert(texts(out@) + split_from(path@, 0, 0) =~= split_from(path@, 0, 0));
    while at < s.len()
        invariant
            start <= at <= s@.len(),
            s@ == path@,
            texts(out@) + split_from(path@, start as int, at as int) == split_from(path@, 0, 0),
        decreases s@.len() - at,
    {
        if s[at] == '/' {
            let ghost before_texts = texts(out@);
            out.push(copy_chars(&s, start, at));
            assert(texts(out@) =~= before_texts.push(path@.subrange(start as int, at as int)));
            assert(texts(out@) + split_from(path@, at + 1, at + 1) =~= before_texts + split_from(
                path@,
                start as int,
                at as int,
            ));
            start = at + 1;
        }
        at += 1;
    }
    let ghost before_texts = texts(out@);
    out.push(copy_chars(&s, start, at));
    assert(texts(out@) =~= before_texts + split_from(path@, start as int, at as int));
    out
}

/// What is looked at to follow a path: the path after each of its names, in
/// order, and whether something else than a name follows.
#[derive(Debug, Clone, PartialEq, Eq)]
pub struct PathWalk {
    pub paths: Vec<String>,
    pub leaves: bool,
}

/// Whether a walk follows the names of a path from a directory.
pub open spec fn walks(dir: Seq<char>, path: Seq<char>, walk: PathWalk) -> bool {
    let (names, leaves) = path_names(path);
    &&& walk.leaves == leaves
    &&& walk.paths@.len() == names.len()
    &&& forall|k: int|
        0 <= k < names.len() ==> (#[trigger] walk.paths@[k])@ == below(dir, names.take(k + 1))
}

fn is_name(part: &str) -> (r: bool)
    ensures
        r == (part@.len() > 0 && part@ != seq!['.'] && part@ != seq!['.', '.']),
{
    let chars: Vec<char> = chars_of(part);
    let dot: bool = chars.len() == 1 && chars[0] == '.';
    let dots: bool = chars.len() == 2 && chars[0] == '.' && chars[1] == '.';
    proof {
        if dot {
            assert(part@ =~= seq!['.']);
        }
        if dots {
            assert(part@ =~= seq!['.', '.']);
        }
    }
    chars.len() > 0 && !dot && !dots
}

/// What is looked at to follow a path from the directory of a skill.
pub fn walk_path(skill_dir: &str, relative_path: &str) -> (r: PathWalk)
    ensures
        walks(skill_dir@, relative_path@, r),
{
    let parts: Vec<String> = split_path(relative_path);
    let ghost split = texts(parts@);
    let ghost all = path_names(relative_path@);
    let mut paths: Vec<String> = Vec::new();
    let mut dir: String = skill_dir.to_owned();
    let ghost mut names: Seq<Seq<char>> = Seq::empty();
    let mut k: usize = 0;
    proof {
        let rest = names_from(split, 0);
        assert(names + rest.0 =~= rest.0);
    }
    while k < parts.len()
        invariant
            k <= parts@.len(),
            split == texts(parts@),
            all == path_names(relative_path@),
            all == ((names + names_from(split, k as int).0, names_from(split, k as int).1)),
            dir@ == below(skill_dir@, names),
            paths@.len() == names.len(),
            forall|j: int|
                0 <= j < names.len() ==> (#[trigger] paths@[j])@ == below(
                    skill_dir@,
                    names.take(j + 1),
                ),
        decreases parts@.len() - k,
    {
        let part: &String = &parts[k];
        assert(split[k as int] == part@);
        let ghost rest = names_from(split, k as int);
        let ghost next = names_from(split, k + 1);
        if is_name(part.as_str()) {
            dir = join_path(dir.as_str(), part.as_str());
            paths.push(dir.clone());
            proof {
                let before_names = names;
                names = names.push(part@);
                assert(names.drop_last() =~= before_names);
                assert(names + next.0 =~= before_names + rest.0);
                assert forall|j: int| 0 <= j < names.len() implies (#[trigger] paths@[j])@ == below(
                    skill_dir@,
                    names.take(j + 1),
                ) by {
                    if j < before_names.len() {
                        assert(names.take(j + 1) =~= before_names.take(j + 1));
                    } else {
                        assert(names.take(j + 1) =~= names);
                    }
                }
            }
        } else {
            let empty: bool = part.as_str().unicode_len() == 0;
            let single: bool = part.as_str().unicode_len() == 1;
            proof {
                if part@ == seq!['.'] {
                    assert(part@.len() == 1);
                }
                if part@ == seq!['.', '.'] {
                    assert(part@.len() == 2);
                }
            }
            let idle: bool = (empty && !(k == 0 && parts.len() > 1)) || (single && k > 0);
            if !idle {
                assert(rest == ((Seq::<Seq<char>>::empty(), true)));
                assert(names + rest.0 =~= names);
                return PathWalk { paths, leaves: true };
            }
            assert(rest == next);
        }
        k += 1;
    }
    proof {
        assert(names + Seq::<Seq<char>>::empty() =~= names);
    }
    PathWalk { paths, leaves: false }
}

/// What was found at a path, not following a symbolic link.
#[derive(Debug, Clone, PartialEq, Eq)]
pub enum Looked {
    Failed { error: String },
    Symlink,
    Directory,
    File,
    Other,
}

/// Whether a path that was looked at can be gone on from.
pub open spec fn passable(look: Looked) -> bool {
    !(look is Failed || look is Symlink)
}

/// Why a path that was looked at cannot be gone on from.
pub open spec fn obstacle(path: Seq<char>, look: Looked) -> Option<Seq<char>> {
    match look {
        Looked::Failed { error } => Some(
            "failed to access "@ + debug_shown(path) + ": "@ + error@,
        ),
        Looked::Symlink => Some("symbolic links are not available through skills"@),
        _ => None,
    }
}

/// The first obstacle, from a position on.
pub open spec fn first_obstacle(path: Seq<char>, looks: Seq<Looked>, from: int) -> Option<Seq<char>>
    decreases looks.len() - from,
{
    if from < 0 || from >= looks.len() {
        None
    } else {
        match obstacle(path, looks[from]) {
            Some(why) => Some(why),
            None => first_obstacle(path, looks, from + 1),
        }
    }
}

/// Why a path does not lead to a file beside a skill, if it does not.
pub open spec fn refusal(path: Seq<char>, looks: Seq<Looked>, leaves: bool) -> Option<Seq<char>> {
    if path.len() == 0 {
        Some("path is required"@)
    } else {
        match first_obstacle(path, looks, 0) {
            Some(why) => Some(why),
            None => if leaves {
                Some("path must be a relative file path without traversal"@)
            } else if looks.len() == 0 {
                Some("path is required"@)
            } else if looks.last() != Looked::File {
                Some("path must name a regular file"@)
            } else {
                None
            },
        }
    }
}

/// Whether a result is where a path leads, or why it leads nowhere.
pub open spec fn leads_to(
    path: Seq<char>,
    walk: PathWalk,
    looks: Seq<Looked>,
    r: Result<String, String>,
) -> bool {
    match refusal(path, looks, walk.leaves) {
        Some(why) => r is Err && r->Err_0@ == why,
        None => r is Ok && r->Ok_0 == walk.paths@.last(),
    }
}

/// Follows a path: `walk` is what was looked at, and `looks` what was found
/// there, as far as the first obstacle. Gives the file that the path leads to,
/// or why it leads to none.
pub fn resolve_skill_file(relative_path: &str, walk: &PathWalk, looks: &Vec<Looked>) -> (r: Result<
    String,
    String,
>)
    requires
        (forall|k: int| 0 <= k < looks@.len() ==> passable(#[trigger] looks@[k])) ==> looks@.len()
            == walk.paths@.len(),
    ensures
        leads_to(relative_path@, *walk, looks@, r),
{
    if relative_path.unicode_len() == 0 {
        return Err("path is required".to_owned());
    }
    let mut i: usize = 0;
    while i < looks.len()
        invariant
            i <= looks@.len(),
            relative_path@.len() > 0,
            forall|k: int| 0 <= k < i ==> passable(#[trigger] looks@[k]),
            first_obstacle(relative_path@, looks@, 0) == first_obstacle(
                relative_path@,
                looks@,
                i as int,
            ),
        decreases looks@.len() - i,
    {
        match &looks[i] {
            Looked::Failed { error } => {
                let quoted: String = debug_text(relative_path);
                let what: String = join3("failed to access ", quoted.as_str(), ": ");
                return Err(join(what.as_str(), error.as_str()));
            },
            Looked::Symlink => {
                return Err("symbolic links are not available through skills".to_owned());
            },
            _ => {},
        }
        i += 1;
    }
    if walk.leaves {
        return Err("path must be a relative file path without traversal".to_owned());
    }
    if looks.len() == 0 {
        return Err("path is required".to_owned());
    }
    match &looks[looks.len() - 1] {
        Looked::File => Ok(walk.paths[walk.paths.len() - 1].clone()),
        _ => Err("path must name a regular file".to_owned()),
    }
}

/// A path in which anything but names stands, such as one that goes upwards or
/// starts at the root, leads to no file, whatever is on disk.
pub proof fn law_no_path_leaves_the_skill(path: Seq<char>, looks: Seq<Looked>)
    requires
        path_names(path).1,
    ensures
        refusal(path, looks, path_names(path).1) is Some,
{
}

/// Whether a text is a name of an entry of a directory.
pub open spec fn plain_name(name: Seq<char>) -> bool {
    &&& name.len() > 0
    &&& name != seq!['.']
    &&& name != seq!['.', '.']
    &&& forall|k: int| 0 <= k < name.len() ==> name[k] != '/'
}

/// What a path leads by are names of entries: none of them leads upwards, and
/// none is a path itself.
pub proof fn law_names_lead_downwards(path: Seq<char>, k: int)
    requires
        0 <= k < path_names(path).0.len(),
    ensures
        plain_name(path_names(path).0[k]),
{
    lemma_split_has_no_slash(path, 0, 0);
    lemma_names_are_plain(split_from(path, 0, 0), 0, k);
}

proof fn lemma_split_has_no_slash(s: Seq<char>, start: int, at: int)
    requires
        0 <= start <= at <= s.len(),
        forall|k: int| start <= k < at ==> s[k] != '/',
    ensures
        forall|p: int, k: int|
            0 <= p < split_from(s, start, at).len() && 0 <= k < split_from(s, start, at)[p].len()
                ==> #[trigger] split_from(s, start, at)[p][k] != '/',
    decreases s.len() - at,
{
    if at < s.len() {
        if s[at] == '/' {
            lemma_split_has_no_slash(s, at + 1, at + 1);
            let rest = split_from(s, at + 1, at + 1);
            assert forall|p: int, k: int|
                0 <= p < split_from(s, start, at).len() && 0 <= k < split_from(
                    s,
                    start,
                    at,
                )[p].len() implies #[trigger] split_from(s, start, at)[p][k] != '/' by {
                if p > 0 {
                    assert(split_from(s, start, at)[p] == rest[p - 1]);
                    assert(rest[p - 1][k] != '/');
                } else {
                    assert(split_from(s, start, at)[0] == s.subrange(start, at));
                }
            }
        } else {
            lemma_split_has_no_slash(s, start, at + 1);
            let later = split_from(s, start, at + 1);
            assert(split_from(s, start, at) == later);
            assert forall|p: int, k: int|
                0 <= p < split_from(s, start, at).len() && 0 <= k < split_from(
                    s,
                    start,
                    at,
                )[p].len() implies #[trigger] split_from(s, start, at)[p][k] != '/' by {
                assert(later[p][k] != '/');
            }
        }
    } else {
        let parts = split_from(s, start, at);
        assert(parts == seq![s.subrange(start, s.len() as int)]);
        assert forall|p: int, k: int|
            0 <= p < parts.len() && 0 <= k < parts[p].len() implies #[trigger] parts[p][k]
            != '/' by {
            assert(parts[p][k] == s[start + k]);
        }
    }
}

proof fn lemma_names_are_plain(parts: Seq<Seq<char>>, from: int, k: int)
    requires
        0 <= from,
        0 <= k < names_from(parts, from).0.len(),
        forall|p: int, c: int|
            0 <= p < parts.len() && 0 <= c < parts[p].len() ==> #[trigger] parts[p][c] != '/',
    ensures
        plain_name(names_from(parts, from).0[k]),
    decreases parts.len() - from,
{
    if from < parts.len() {
        match part_of(parts, from) {
            None => {
                lemma_names_are_plain(parts, from + 1, k);
            },
            Some(PartView::Other) => {},
            Some(PartView::Name(name)) => {
                let rest = names_from(parts, from + 1);
                if k > 0 {
                    lemma_names_are_plain(parts, from + 1, k - 1);
                    assert(names_from(parts, from).0[k] == rest.0[k - 1]);
                } else {
                    assert(names_from(parts, from).0[0] == parts[from]);
                }
            },
        }
    }
}

/// A path that leads to a file leads there over no symbolic link.
pub proof fn law_no_link_is_followed(path: Seq<char>, looks: Seq<Looked>, leaves: bool, k: int)
    requires
        refusal(path, looks, leaves) is None,
        0 <= k < looks.len(),
    ensures
        looks[k] != Looked::Symlink,
{
    lemma_no_obstacle(path, looks, 0, k);
}

proof fn lemma_no_obstacle(path: Seq<char>, looks: Seq<Looked>, from: int, k: int)
    requires
        first_obstacle(path, looks, from) is None,
        0 <= from <= k < looks.len(),
    ensures
        obstacle(path, looks[k]) is None,
    decreases k - from,
{
    if from < k {
        lemma_no_obstacle(path, looks, from + 1, k);
    }
}

/// An entry of a directory, with what is below it.
#[derive(Debug, PartialEq, Eq)]
pub enum DirNode {
    File { name: String },
    Directory { name: String, children: Vec<DirNode> },
    Symlink { name: String },
    Other { name: String },
}

/// The files of a directory and of what is below it, added to a list, from an
/// entry on. Once the list is full, no directory is looked into; the entry that
/// fills it is the last of its directory.
pub open spec fn gathered_from(
    entries: Vec<DirNode>,
    relative: Seq<char>,
    files: Seq<Seq<char>>,
    i: int,
) -> Seq<Seq<char>>
    decreases entries, entries@.len() - i,
    via gathered_decreases
{
    if i < 0 || i >= entries@.len() {
        files
    } else {
        match entries@[i] {
            DirNode::File { name } => if joined(relative, name@) == "SKILL.md"@ {
                gathered_from(entries, relative, files, i + 1)
            } else if files.len() + 1 >= MAX_SKILL_FILES {
                files.push(joined(relative, name@))
            } else {
                gathered_from(entries, relative, files.push(joined(relative, name@)), i + 1)
            },
            DirNode::Directory { name, children } => {
                let inner = if files.len() >= MAX_SKILL_FILES {
                    files
                } else {
                    gathered_from(children, joined(relative, name@), files, 0)
                };
                gathered_from(entries, relative, inner, i + 1)
            },
            _ => gathered_from(entries, relative, files, i + 1),
        }
    }
}

#[via_fn]
proof fn gathered_decreases(
    entries: Vec<DirNode>,
    relative: Seq<char>,
    files: Seq<Seq<char>>,
    i: int,
) {
    if 0 <= i < entries@.len() {
        assert(decreases_to!(entries => entries@));
        assert(decreases_to!(entries@ => entries@[i]));
        if let DirNode::Directory { name, children } = entries@[i] {
            assert(decreases_to!(entries@[i] => entries@[i]->children));
        }
    }
}

/// The files of a directory and of what is below it.
pub open spec fn gathered(
    entries: Vec<DirNode>,
    relative: Seq<char>,
    files: Seq<Seq<char>>,
) -> Seq<Seq<char>> {
    if files.len() >= MAX_SKILL_FILES {
        files
    } else {
        gathered_from(entries, relative, files, 0)
    }
}

/// Adds the files of a directory, and of what is below it, to a list, by their
/// paths from the skill. The skill's own file is not among them.
pub fn collect_skill_files(entries: &Vec<DirNode>, relative: &str, files: &mut Vec<String>)
    ensures
        texts(final(files)@) == gathered(*entries, relative@, texts(old(files)@)),
    decreases entries,
{
    if files.len() >= MAX_SKILL_FILES {
        return;
    }
    let ghost first = texts(files@);
    let mut i: usize = 0;
    while i < entries.len()
        invariant
            i <= entries@.len(),
            first == texts(old(files)@),
            first.len() < MAX_SKILL_FILES,
            gathered_from(*entries, relative@, first, 0) == gathered_from(
                *entries,
                relative@,
                texts(files@),
                i as int,
            ),
        decreases entries@.len() - i,
    {
        let ghost held = texts(files@);
        match &entries[i] {
            DirNode::File { name } => {
                let path: String = join_path(relative, name.as_str());
                if !same(path.as_str(), "SKILL.md") {
                    files.push(path);
                    assert(texts(files@) =~= held.push(path@));
                    if files.len() >= MAX_SKILL_FILES {
                        return;
                    }
                }
            },
            DirNode::Directory { name, children } => {
                let inner: String = join_path(relative, name.as_str());
                proof {
                    assert(decreases_to!(*entries => entries@));
                    assert(decreases_to!(entries@ => entries@[i as int]));
                    assert(decreases_to!(entries@[i as int] => entries@[i as int]->children));
                    assert(*children == entries@[i as int]->children);
                }
                collect_skill_files(children, inner.as_str(), files);
            },
            _ => {},
        }
        i += 1;
    }
}

/// Whether a list of texts is in order.
pub open spec fn ordered(s: Seq<Seq<char>>) -> bool {
    forall|i: int, j: int|
        0 <= i < j < s.len() ==> !before(#[trigger] s[j], #[trigger] s[i])
}

proof fn lemma_not_before_transitive(a: Seq<char>, b: Seq<char>, c: Seq<char>)
    requires
        !before(b, a),
        !before(c, b),
    ensures
        !before(c, a),
{
    law_before_is_a_total_order(a, b);
    law_before_is_a_total_order(b, c);
    law_before_is_a_total_order(a, c);
    if before(c, a) {
        if a == b {
        } else if before(a, b) {
            law_before_is_transitive(c, a, b);
        }
    }
}

fn insert_sorted(sorted: &mut Vec<String>, item: String)
    requires
        ordered(texts(old(sorted)@)),
    ensures
        ordered(texts(final(sorted)@)),
        texts(final(sorted)@).to_multiset() == texts(old(sorted)@).to_multiset().insert(item@),
{
    let ghost held = texts(sorted@);
    let mut at: usize = sorted.len();
    while at > 0 && comes_before(item.as_str(), sorted[at - 1].as_str())
        invariant
            at <= sorted@.len(),
            held == texts(sorted@),
            forall|k: int| at <= k < held.len() ==> before(item@, #[trigger] held[k]),
        decreases at,
    {
        at -= 1;
    }
    let ghost new = item@;
    sorted.insert(at, item);
    proof {
        assert(texts(sorted@) =~= held.insert(at as int, new));
        to_multiset_insert(held, at as int, new);
        assert forall|i: int, j: int| 0 <= i < j < sorted@.len() implies !before(
            #[trigger] texts(sorted@)[j],
            #[trigger] texts(sorted@)[i],
        ) by {
            let s = texts(sorted@);
            if i < at && j == at {
                assert(s[i] == held[i]);
                assert(!before(new, held[at - 1]));
                if i < at - 1 {
                    assert(!before(held[at - 1], held[i]));
                    lemma_not_before_transitive(held[i], held[at - 1], new);
                }
            } else if i == at {
                law_before_is_a_total_order(new, held[j - 1]);
            } else if i < at && j > at {
                assert(s[i] == held[i] && s[j] == held[j - 1]);
            } else if i > at {
                assert(s[i] == held[i - 1] && s[j] == held[j - 1]);
            }
        }
    }
}

fn sort_texts(items: Vec<String>) -> (r: Vec<String>)
    ensures
        ordered(texts(r@)),
        texts(r@).to_multiset() == texts(items@).to_multiset(),
{
    let ghost given_texts = texts(items@);
    let mut rest: Vec<String> = items;
    let mut out: Vec<String> = Vec::new();
    proof {
        assert(texts(out@) =~= Seq::empty());
        to_multiset_len(texts(out@));
        assert(texts(rest@).to_multiset() =~= texts(out@).to_multiset().add(
            texts(rest@).to_multiset(),
        ));
    }
    while rest.len() > 0
        invariant
            ordered(texts(out@)),
            texts(out@).to_multiset().add(texts(rest@).to_multiset()) == given_texts.to_multiset(),
        decreases rest@.len(),
    {
        let ghost all = texts(rest@);
        if let Some(item) = rest.pop() {
            proof {
                assert(all =~= texts(rest@).push(item@));
                to_multiset_build(texts(rest@), item@);
                assert(all.to_multiset() == texts(rest@).to_multiset().insert(item@));
            }
            let ghost done = texts(out@);
            insert_sorted(&mut out, item);
            assert(texts(out@).to_multiset().add(texts(rest@).to_multiset()) =~= done.to_multiset()
                .add(all.to_multiset()));
        }
    }
    proof {
        assert(texts(rest@) =~= Seq::empty());
        to_multiset_len(texts(rest@));
        assert(texts(out@).to_multiset().add(texts(rest@).to_multiset()) =~= texts(
            out@,
        ).to_multiset());
    }
    out
}

/// Whether what is given is a list of texts, as JSON in a text, that is in order
/// and holds the given ones.
pub open spec fn lists_in_order(value: Json, files: Seq<Seq<char>>) -> bool {
    exists|listed: Seq<Seq<char>>|
        {
            &&& #[trigger] ordered(listed)
            &&& listed.to_multiset() == files.to_multiset()
            &&& value == given(
                json_text(Json::Array(listed.map_values(|name: Seq<char>| Json::Text(name)))),
            )
        }
}

/// What is given where the files beside a skill could not be listed.
pub open spec fn unlisted_given(error: Seq<char>) -> Json {
    failed("failed to list skill files: "@ + error)
}

/// Whether a value is what is given of the files beside a skill.
pub open spec fn files_given(tree: Result<Vec<DirNode>, String>, value: Json) -> bool {
    match tree {
        Ok(entries) => lists_in_order(value, gathered(entries, Seq::empty(), Seq::empty())),
        Err(error) => value == unlisted_given(error@),
    }
}

/// What is given of the files beside a skill: their paths in order; or why they
/// could not be listed.
pub fn list_skill_files_result(tree: &Result<Vec<DirNode>, String>) -> (r: JsonValue)
    ensures
        files_given(*tree, r@),
{
    match tree {
        Ok(entries) => {
            let mut files: Vec<String> = Vec::new();
            proof {
                reveal_strlit("");
                assert(""@ =~= Seq::<char>::empty());
                assert(texts(files@) =~= Seq::empty());
            }
            collect_skill_files(entries, "", &mut files);
            let sorted: Vec<String> = sort_texts(files);
            let mut out: Vec<JsonValue> = Vec::new();
            let mut i: usize = 0;
            while i < sorted.len()
                invariant
                    i <= sorted@.len(),
                    out@.len() == i,
                    forall|k: int|
                        0 <= k < i ==> (#[trigger] out@[k])@ == Json::Text(sorted@[k]@),
                decreases sorted@.len() - i,
            {
                out.push(text_value(sorted[i].as_str()));
                i += 1;
            }
            assert(json_seq(out@) =~= texts(sorted@).map_values(
                |name: Seq<char>| Json::Text(name),
            ));
            let text: String = crate::json::array(out).to_text();
            assert(ordered(texts(sorted@)));
            crate::skills_mcp::tools::give_text(text.as_str())
        },
        Err(error) => {
            let text: String = join("failed to list skill files: ", error.as_str());
            crate::skills_mcp::tools::fail_text(text.as_str())
        },
    }
}

} // verus!
