//! Paths as texts, with `/` between their components.

pub mod laws;

use crate::text::{chars_of, join, join3, same, text_from_chars, texts};
use vstd::prelude::*;

verus! {

/// A name joined to a directory: an absolute name stands for itself.
pub open spec fn joined(dir: Seq<char>, name: Seq<char>) -> Seq<char> {
    if name.len() > 0 && name[0] == '/' {
        name
    } else if dir.len() == 0 || dir.last() == '/' {
        dir + name
    } else {
        dir + "/"@ + name
    }
}

/// Joins a name to a directory.
pub fn join_path(dir: &str, name: &str) -> (r: String)
    ensures
        r@ == joined(dir@, name@),
{
    let absolute: bool = name.unicode_len() > 0 && name.get_char(0) == '/';
    if absolute {
        name.to_owned()
    } else {
        let len: usize = dir.unicode_len();
        if len == 0 || dir.get_char(len - 1) == '/' {
            join(dir, name)
        } else {
            join3(dir, "/", name)
        }
    }
}

/// The position of the last `/`, and -1 where there is none.
pub open spec fn last_slash(s: Seq<char>) -> int
    decreases s.len(),
{
    if s.len() == 0 {
        -1
    } else if s.last() == '/' {
        s.len() - 1
    } else {
        last_slash(s.drop_last())
    }
}

/// What follows the last `/`.
pub open spec fn last_part(s: Seq<char>) -> Seq<char> {
    s.skip(last_slash(s) + 1)
}

/// Whether a part of a path names nothing: an empty part, and the one for the
/// directory itself.
pub open spec fn idle_part(part: Seq<char>) -> bool {
    part.len() == 0 || part == seq!['.']
}

proof fn lemma_last_slash(s: Seq<char>)
    ensures
        -1 <= last_slash(s) < s.len(),
        last_slash(s) >= 0 ==> s[last_slash(s)] == '/',
        forall|k: int| last_slash(s) < k < s.len() ==> s[k] != '/',
    decreases s.len(),
{
    if s.len() > 0 && s.last() != '/' {
        lemma_last_slash(s.drop_last());
        assert forall|k: int| last_slash(s) < k < s.len() implies s[k] != '/' by {
            if k < s.len() - 1 {
                assert(s.drop_last()[k] == s[k]);
            }
        }
    }
}

/// The name of what a path leads to, where it leads to something by name.
pub open spec fn named_by(s: Seq<char>) -> Option<Seq<char>>
    decreases s.len(),
    via named_by_decreases
{
    let part = last_part(s);
    if !idle_part(part) {
        if part == seq!['.', '.'] {
            None
        } else {
            Some(part)
        }
    } else if last_slash(s) < 0 {
        None
    } else {
        named_by(s.take(last_slash(s)))
    }
}

#[via_fn]
proof fn named_by_decreases(s: Seq<char>) {
    lemma_last_slash(s);
}

/// A path without the parts at its end that name nothing; the root and a lone
/// `.` stay.
pub open spec fn without_tail(s: Seq<char>) -> Seq<char>
    decreases s.len(),
    via without_tail_decreases
{
    let at = last_slash(s);
    if at < 0 || !idle_part(last_part(s)) {
        s
    } else if at == 0 {
        s.take(1)
    } else {
        without_tail(s.take(at))
    }
}

#[via_fn]
proof fn without_tail_decreases(s: Seq<char>) {
    lemma_last_slash(s);
}

/// The path without its last component, where it has one: nothing of the empty
/// path and of the root, and the empty path of a single component.
pub open spec fn parent_of(s: Seq<char>) -> Option<Seq<char>> {
    let whole = without_tail(s);
    if whole.len() == 0 || whole == seq!['/'] {
        None
    } else {
        let at = last_slash(whole);
        if at < 0 {
            Some(Seq::empty())
        } else if at == 0 {
            Some(whole.take(1))
        } else {
            Some(without_tail(whole.take(at)))
        }
    }
}

/// One past the last `/` before `end`, and 0 where there is none.
fn part_start(s: &Vec<char>, end: usize) -> (r: usize)
    requires
        end <= s@.len(),
    ensures
        r == last_slash(s@.take(end as int)) + 1,
        r <= end,
{
    let mut i: usize = end;
    while i > 0 && s[i - 1] != '/'
        invariant
            i <= end <= s@.len(),
            last_slash(s@.take(end as int)) == last_slash(s@.take(i as int)),
        decreases i,
    {
        assert(s@.take(i as int).drop_last() =~= s@.take(i - 1));
        assert(s@.take(i as int).last() == s@[i - 1]);
        i -= 1;
    }
    proof {
        if i > 0 {
            assert(s@.take(i as int).last() == s@[i - 1]);
        }
    }
    i
}

fn is_idle(s: &Vec<char>, from: usize, to: usize) -> (r: bool)
    requires
        from <= to <= s@.len(),
    ensures
        r == idle_part(s@.subrange(from as int, to as int)),
{
    let ghost part = s@.subrange(from as int, to as int);
    if from == to {
        true
    } else if to - from == 1 && s[from] == '.' {
        assert(part =~= seq!['.']);
        true
    } else {
        proof {
            if part == seq!['.'] {
                assert(part.len() == 1 && part[0] == '.');
            }
        }
        false
    }
}

fn copied(s: &Vec<char>, from: usize, to: usize) -> (r: String)
    requires
        from <= to <= s@.len(),
    ensures
        r@ == s@.subrange(from as int, to as int),
{
    let mut out: Vec<char> = Vec::new();
    let mut i: usize = from;
    while i < to
        invariant
            from <= i <= to <= s@.len(),
            out@ == s@.subrange(from as int, i as int),
        decreases to - i,
    {
        out.push(s[i]);
        i += 1;
        assert(out@ =~= s@.subrange(from as int, i as int));
    }
    text_from_chars(out.as_slice())
}

/// The name of what a path leads to, such as `b` of `/a/b` and of `/a/b/.`;
/// none where it ends in the root or in `..`.
pub fn file_name(path: &str) -> (r: Option<String>)
    ensures
        r is Some <==> named_by(path@) is Some,
        r is Some ==> r->0@ == named_by(path@)->0,
{
    let s: Vec<char> = chars_of(path);
    let mut end: usize = s.len();
    assert(s@.take(end as int) =~= s@);
    loop
        invariant
            end <= s@.len(),
            s@ == path@,
            named_by(path@) == named_by(s@.take(end as int)),
        decreases end,
    {
        let ghost head = s@.take(end as int);
        let from: usize = part_start(&s, end);
        assert(last_part(head) =~= s@.subrange(from as int, end as int));
        if !is_idle(&s, from, end) {
            let ghost part = s@.subrange(from as int, end as int);
            if end - from == 2 && s[from] == '.' && s[from + 1] == '.' {
                assert(part =~= seq!['.', '.']);
                return None;
            }
            proof {
                if part == seq!['.', '.'] {
                    assert(part.len() == 2 && part[0] == '.' && part[1] == '.');
                }
            }
            return Some(copied(&s, from, end));
        }
        if from == 0 {
            return None;
        }
        assert(head.take(from - 1) =~= s@.take(from - 1));
        end = from - 1;
    }
}

fn tail_start(s: &Vec<char>, len: usize) -> (r: usize)
    requires
        len <= s@.len(),
    ensures
        r <= len,
        without_tail(s@.take(len as int)) == s@.take(r as int),
{
    let mut end: usize = len;
    loop
        invariant
            end <= len <= s@.len(),
            without_tail(s@.take(len as int)) == without_tail(s@.take(end as int)),
        decreases end,
    {
        let ghost head = s@.take(end as int);
        let from: usize = part_start(s, end);
        assert(last_part(head) =~= s@.subrange(from as int, end as int));
        if from == 0 || !is_idle(s, from, end) {
            return end;
        }
        if from == 1 {
            assert(head.take(1) =~= s@.take(1));
            return 1;
        }
        assert(head.take(from - 1) =~= s@.take(from - 1));
        end = from - 1;
    }
}

/// The path without its last component, such as `/a` of `/a/b`.
pub fn parent(path: &str) -> (r: Option<String>)
    ensures
        r is Some <==> parent_of(path@) is Some,
        r is Some ==> r->0@ == parent_of(path@)->0,
{
    let s: Vec<char> = chars_of(path);
    assert(s@.take(s@.len() as int) =~= s@);
    let end: usize = tail_start(&s, s.len());
    let ghost whole = s@.take(end as int);
    if end == 0 {
        return None;
    }
    if end == 1 && s[0] == '/' {
        assert(whole =~= seq!['/']);
        return None;
    }
    proof {
        if whole == seq!['/'] {
            assert(whole.len() == 1 && whole[0] == '/');
        }
    }
    let from: usize = part_start(&s, end);
    let to: usize = if from == 0 {
        0
    } else if from == 1 {
        1
    } else {
        assert(whole.take(from - 1) =~= s@.take(from - 1));
        tail_start(&s, from - 1)
    };
    assert(from == 1 ==> whole.take(1) =~= s@.take(1));
    assert(s@.subrange(0, to as int) =~= s@.take(to as int));
    assert(to == 0 ==> s@.take(to as int) =~= Seq::<char>::empty());
    Some(copied(&s, 0, to))
}

/// The components of a path: the root where it starts there, and the parts that
/// name something. A `.` counts only as the first part, and repeated `/` as one.
pub open spec fn components_of(s: Seq<char>) -> Seq<Seq<char>>
    decreases s.len(),
    via components_of_decreases
{
    let part = last_part(s);
    let at = last_slash(s);
    if at < 0 {
        if part.len() == 0 {
            Seq::empty()
        } else {
            seq![part]
        }
    } else {
        let before = if at == 0 {
            seq!["/"@]
        } else {
            components_of(s.take(at))
        };
        if idle_part(part) {
            before
        } else {
            before.push(part)
        }
    }
}

#[via_fn]
proof fn components_of_decreases(s: Seq<char>) {
    lemma_last_slash(s);
}

proof fn lemma_last_slash_is(s: Seq<char>, at: int)
    requires
        -1 <= at < s.len(),
        at >= 0 ==> s[at] == '/',
        forall|k: int| at < k < s.len() ==> s[k] != '/',
    ensures
        last_slash(s) == at,
{
    lemma_last_slash(s);
    if last_slash(s) < at {
        assert(s[at] != '/');
    } else if at < last_slash(s) {
        assert(s[last_slash(s)] != '/');
    }
}

/// The position of the first `/` at `from` or later, and the length where there
/// is none.
fn next_slash(s: &Vec<char>, from: usize) -> (r: usize)
    requires
        from <= s@.len(),
    ensures
        from <= r <= s@.len(),
        r < s@.len() ==> s@[r as int] == '/',
        forall|k: int| from <= k < r ==> s@[k] != '/',
{
    let mut i: usize = from;
    while i < s.len() && s[i] != '/'
        invariant
            from <= i <= s@.len(),
            forall|k: int| from <= k < i ==> s@[k] != '/',
        decreases s@.len() - i,
    {
        i += 1;
    }
    i
}

/// The components of a path.
pub fn components(path: &str) -> (r: Vec<String>)
    ensures
        texts(r@) == components_of(path@),
{
    let s: Vec<char> = chars_of(path);
    let mut out: Vec<String> = Vec::new();
    let mut end: usize = next_slash(&s, 0);
    let ghost first = s@.take(end as int);
    proof {
        lemma_last_slash_is(first, -1);
        assert(last_part(first) =~= s@.subrange(0, end as int));
    }
    if end == 0 {
        if s.len() > 0 {
            out.push("/".to_owned());
            assert(texts(out@) =~= seq!["/"@]);
        } else {
            assert(first =~= s@);
            assert(texts(out@) =~= Seq::empty());
        }
    } else {
        out.push(copied(&s, 0, end));
        assert(texts(out@) =~= seq![s@.subrange(0, end as int)]);
    }
    while end < s.len()
        invariant
            end <= s@.len(),
            end < s@.len() ==> s@[end as int] == '/',
            texts(out@) == if end == 0 && s@.len() > 0 {
                seq!["/"@]
            } else {
                components_of(s@.take(end as int))
            },
        decreases s@.len() - end,
    {
        let to: usize = next_slash(&s, end + 1);
        let ghost before = texts(out@);
        let ghost head = s@.take(to as int);
        let ghost part = s@.subrange(end + 1, to as int);
        proof {
            lemma_last_slash_is(head, end as int);
            assert(last_part(head) =~= part);
            assert(head.take(end as int) =~= s@.take(end as int));
        }
        if !is_idle(&s, end + 1, to) {
            out.push(copied(&s, end + 1, to));
            assert(texts(out@) =~= before.push(part));
        }
        end = to;
    }
    assert(s@.take(end as int) =~= s@);
    out
}

/// Whether two texts are the same path: they have the same components.
pub fn same_path(a: &str, b: &str) -> (r: bool)
    ensures
        r == (components_of(a@) == components_of(b@)),
{
    let left: Vec<String> = components(a);
    let right: Vec<String> = components(b);
    if left.len() != right.len() {
        assert(texts(left@).len() != texts(right@).len());
        return false;
    }
    let mut i: usize = 0;
    while i < left.len()
        invariant
            i <= left@.len(),
            left@.len() == right@.len(),
            texts(left@) == components_of(a@),
            texts(right@) == components_of(b@),
            forall|k: int| 0 <= k < i ==> (#[trigger] left@[k])@ == right@[k]@,
        decreases left@.len() - i,
    {
        if !same(left[i].as_str(), right[i].as_str()) {
            assert(texts(left@)[i as int] != texts(right@)[i as int]);
            return false;
        }
        i += 1;
    }
    assert(texts(left@) =~= texts(right@));
    true
}

/// What is joined to a directory by a plain name is named by that name.
pub proof fn law_joined_name(dir: Seq<char>, name: Seq<char>)
    requires
        !idle_part(name),
        name != seq!['.', '.'],
        forall|k: int| 0 <= k < name.len() ==> name[k] != '/',
    ensures
        named_by(joined(dir, name)) == Some(name),
{
    reveal_strlit("/");
    let whole = joined(dir, name);
    let at = whole.len() - name.len();
    lemma_last_slash(whole);
    assert(whole.skip(at) =~= name);
    assert(at > 0 ==> whole[at - 1] == '/');
    assert forall|k: int| at <= k < whole.len() implies whole[k] != '/' by {
        assert(whole[k] == name[k - at]);
    }
    assert(last_slash(whole) == at - 1);
}

} // verus!
