//! What the answers about texts mean, said of the characters.

use crate::text::{lowered, stands_at, trimmed_end, white};
use crate::text_util::{after_last_white, holds_ci, offset, starting_at, word_start};
use vstd::prelude::*;

verus! {

/// Upper and lower case make no difference to a search, and a text is found in
/// itself and wherever it stands.
pub proof fn law_case_makes_no_difference(
    haystack: Seq<char>,
    other: Seq<char>,
    needle: Seq<char>,
    at: int,
)
    ensures
        lowered(haystack) == lowered(other) ==> holds_ci(haystack, needle) == holds_ci(
            other,
            needle,
        ),
        lowered(haystack) == lowered(other) ==> holds_ci(needle, haystack) == holds_ci(
            needle,
            other,
        ),
        holds_ci(haystack, haystack),
        0 <= at <= lowered(haystack).len() - lowered(needle).len() && lowered(haystack).subrange(
            at,
            at + lowered(needle).len(),
        ) == lowered(needle) ==> holds_ci(haystack, needle),
{
    let s = lowered(haystack);
    assert(s.subrange(0, s.len() as int) =~= s);
    assert(stands_at(s, s, 0));
    if 0 <= at <= s.len() - lowered(needle).len() && s.subrange(at, at + lowered(needle).len())
        == lowered(needle) {
        assert(stands_at(s, lowered(needle), at));
    }
}

proof fn lemma_trimmed(s: Seq<char>)
    ensures
        trimmed_end(s).len() <= s.len(),
        trimmed_end(s) == s.take(trimmed_end(s).len() as int),
        forall|i: int| trimmed_end(s).len() <= i < s.len() ==> white(#[trigger] s[i]),
        trimmed_end(s).len() > 0 ==> !white(s[trimmed_end(s).len() - 1]),
    decreases s.len(),
{
    if s.len() > 0 && white(s.last()) {
        lemma_trimmed(s.drop_last());
        let n = trimmed_end(s).len() as int;
        assert(s.drop_last().take(n) =~= s.take(n));
        assert forall|i: int| n <= i < s.len() implies white(#[trigger] s[i]) by {
            if i < s.len() - 1 {
                assert(s.drop_last()[i] == s[i]);
            }
        }
    } else {
        assert(s.take(s.len() as int) =~= s);
    }
}

proof fn lemma_last_white(s: Seq<char>)
    ensures
        0 <= after_last_white(s) <= s.len(),
        after_last_white(s) > 0 ==> white(s[after_last_white(s) - 1]),
        forall|i: int| after_last_white(s) <= i < s.len() ==> !white(#[trigger] s[i]),
    decreases s.len(),
{
    if s.len() > 0 && !white(s.last()) {
        lemma_last_white(s.drop_last());
        assert forall|i: int| after_last_white(s) <= i < s.len() implies !white(
            #[trigger] s[i],
        ) by {
            if i < s.len() - 1 {
                assert(s.drop_last()[i] == s[i]);
            }
        }
    }
}

proof fn lemma_starting(s: Seq<char>, k: int, from: int)
    requires
        0 <= from <= k <= s.len(),
        forall|i: int| 0 <= i < k ==> #[trigger] offset(s, i) < offset(s, k),
    ensures
        starting_at(s, offset(s, k), from) == Some(k),
    decreases k - from,
{
    if from < k {
        assert(offset(s, from) < offset(s, k));
        lemma_starting(s, k, from + 1);
    }
}

proof fn lemma_offset(s: Seq<char>, a: int, b: int)
    requires
        0 <= a <= b <= s.len(),
    ensures
        0 <= offset(s, a) <= offset(s, b),
        a < b ==> offset(s, a) < offset(s, b),
    decreases b,
{
    if a < b {
        lemma_offset(s, a, b - 1);
    } else if a > 0 {
        lemma_offset(s, a - 1, a - 1);
    }
}

/// Whether the characters from `start` to `end` are the last word before a place:
/// only white space follows it, and white space or nothing stands before it.
pub open spec fn is_word_before(s: Seq<char>, start: int, end: int, k: int) -> bool {
    &&& 0 <= start <= end <= k <= s.len()
    &&& start > 0 ==> white(s[start - 1])
    &&& forall|i: int| start <= i < end ==> !white(#[trigger] s[i])
    &&& forall|i: int| end <= i < k ==> white(#[trigger] s[i])
    &&& start == end ==> end == 0
}

/// From a place between characters, the word before it starts where one goes
/// back over white space and then over what is none: at the start of the text, or
/// behind white space.
pub proof fn law_word_before_a_place(s: Seq<char>, k: int)
    requires
        0 <= k <= s.len(),
    ensures
        exists|start: int, end: int|
            #[trigger] is_word_before(s, start, end, k) && word_start(s, offset(s, k)) == offset(
                s,
                start,
            ),
{
    let n = s.len() as int;
    lemma_offset(s, k, n);
    assert forall|i: int| 0 <= i < k implies #[trigger] offset(s, i) < offset(s, k) by {
        lemma_offset(s, i, k);
    }
    lemma_starting(s, k, 0);
    let head = s.take(k);
    lemma_trimmed(head);
    let body = trimmed_end(head);
    let end = body.len() as int;
    lemma_last_white(body);
    let start = after_last_white(body);
    assert(word_start(s, offset(s, k)) == offset(s, start));
    if start > 0 {
        assert(body[start - 1] == s[start - 1]);
    }
    assert forall|i: int| start <= i < end implies !white(#[trigger] s[i]) by {
        assert(body[i] == s[i]);
    }
    assert forall|i: int| end <= i < k implies white(#[trigger] s[i]) by {
        assert(head[i] == s[i]);
    }
    if start == end && end > 0 {
        assert(body[end - 1] == head[end - 1]);
    }
    assert(is_word_before(s, start, end, k));
}

} // verus!
