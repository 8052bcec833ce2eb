//! What the markup of the panel asks about texts.

pub mod laws;

use crate::text::{
    char_width, chars_of, contains, holds, is_white, lower_text, lowered, trimmed_end, white, width,
};
use vstd::prelude::*;

verus! {

/// Whether one text stands in another, both in lower case.
pub open spec fn holds_ci(haystack: Seq<char>, needle: Seq<char>) -> bool {
    holds(lowered(haystack), lowered(needle))
}

/// Whether `needle` stands in `haystack`, both in lower case.
pub fn contains_ci(haystack: &str, needle: &str) -> (r: bool)
    ensures
        r == holds_ci(haystack@, needle@),
{
    let whole: String = lower_text(haystack);
    let part: String = lower_text(needle);
    contains(whole.as_str(), part.as_str())
}

/// The position in bytes at which the character number `k` starts.
pub open spec fn offset(s: Seq<char>, k: int) -> int
    decreases k,
{
    if k <= 0 {
        0
    } else {
        offset(s, k - 1) + width(s[k - 1])
    }
}

/// The number, at `k` or later, of the character that starts at a position in
/// bytes, where one does; the end counts as one.
pub open spec fn starting_at(s: Seq<char>, bytes: int, k: int) -> Option<int>
    decreases s.len() - k,
{
    if offset(s, k) >= bytes || k >= s.len() {
        if offset(s, k) == bytes {
            Some(k)
        } else {
            None
        }
    } else {
        starting_at(s, bytes, k + 1)
    }
}

/// One past the last white space, and 0 where there is none.
pub open spec fn after_last_white(s: Seq<char>) -> int
    decreases s.len(),
{
    if s.len() == 0 {
        0
    } else if white(s.last()) {
        s.len() as int
    } else {
        after_last_white(s.drop_last())
    }
}

/// A position in bytes, brought into the text.
pub open spec fn in_text(s: Seq<char>, cursor: int) -> int {
    if cursor < 0 {
        0
    } else if cursor > offset(s, s.len() as int) {
        offset(s, s.len() as int)
    } else {
        cursor
    }
}

/// Where the word before a position starts, positions in bytes; a position
/// inside a character stays.
pub open spec fn word_start(s: Seq<char>, cursor: int) -> int {
    let at = in_text(s, cursor);
    match starting_at(s, at, 0) {
        Some(k) => offset(s, after_last_white(trimmed_end(s.take(k)))),
        None => at,
    }
}

proof fn lemma_offset_grows(s: Seq<char>, a: int, b: int)
    requires
        0 <= a <= b <= s.len(),
    ensures
        0 <= offset(s, a) <= offset(s, b) <= 4 * b,
        a < b ==> offset(s, a) < offset(s, b),
    decreases b - a, b,
{
    if a < b {
        lemma_offset_grows(s, a, b - 1);
    } else if a > 0 {
        lemma_offset_grows(s, a - 1, a - 1);
    }
}

fn offset_of(s: &Vec<char>, k: usize) -> (r: u128)
    requires
        k <= s@.len(),
    ensures
        r == offset(s@, k as int),
{
    let mut i: usize = 0;
    let mut bytes: u128 = 0;
    while i < k
        invariant
            i <= k <= s@.len(),
            bytes == offset(s@, i as int),
            bytes <= 4 * i,
        decreases k - i,
    {
        bytes = bytes + char_width(s[i]) as u128;
        i += 1;
    }
    bytes
}

/// Where the word before a position starts: white space before the position is
/// passed over, and then what is none. Positions are in bytes.
pub fn word_boundary_before(text: &str, cursor: i32) -> (r: i32)
    ensures
        r == word_start(text@, cursor as int),
{
    let s: Vec<char> = chars_of(text);
    let total: u128 = offset_of(&s, s.len());
    let wanted: u128 = if cursor < 0 {
        0
    } else {
        cursor as u128
    };
    proof {
        lemma_offset_grows(s@, 0, s@.len() as int);
    }
    let at: u128 = if wanted > total {
        total
    } else {
        wanted
    };
    assert(at == in_text(text@, cursor as int));
    let mut k: usize = 0;
    let mut bytes: u128 = 0;
    while k < s.len() && bytes < at
        invariant
            k <= s@.len() <= usize::MAX,
            s@ == text@,
            bytes == offset(s@, k as int),
            bytes <= 4 * k,
            starting_at(text@, at as int, 0) == starting_at(text@, at as int, k as int),
        decreases s@.len() - k,
    {
        bytes = bytes + char_width(s[k]) as u128;
        k += 1;
    }
    if bytes != at {
        return at as i32;
    }
    let ghost head = text@.take(k as int);
    let mut end: usize = k;
    assert(head.take(end as int) =~= head);
    while end > 0 && is_white(s[end - 1])
        invariant
            end <= k <= s@.len(),
            s@ == text@,
            head == text@.take(k as int),
            trimmed_end(head) == trimmed_end(head.take(end as int)),
        decreases end,
    {
        assert(head.take(end as int).drop_last() =~= head.take(end - 1));
        assert(head.take(end as int).last() == s@[end - 1]);
        end -= 1;
    }
    let ghost body = head.take(end as int);
    proof {
        if end > 0 {
            assert(body.last() == s@[end - 1]);
        }
        assert(trimmed_end(head) == body);
    }
    let mut start: usize = end;
    assert(body.take(start as int) =~= body);
    while start > 0 && !is_white(s[start - 1])
        invariant
            start <= end <= k <= s@.len(),
            s@ == text@,
            head == text@.take(k as int),
            body == head.take(end as int),
            after_last_white(body) == after_last_white(body.take(start as int)),
        decreases start,
    {
        assert(body.take(start as int).drop_last() =~= body.take(start - 1));
        assert(body.take(start as int).last() == s@[start - 1]);
        start -= 1;
    }
    proof {
        if start > 0 {
            assert(body.take(start as int).last() == s@[start - 1]);
        }
        assert(after_last_white(body) == start);
        lemma_offset_grows(s@, start as int, k as int);
    }
    offset_of(&s, start) as i32
}

/// The start of the word before a position does not lie after it.
pub proof fn law_word_starts_before(s: Seq<char>, cursor: int)
    requires
        0 <= cursor,
    ensures
        0 <= word_start(s, cursor) <= cursor,
{
    lemma_offset_grows(s, 0, s.len() as int);
    let at = in_text(s, cursor);
    lemma_starting_at(s, at, 0);
    if let Some(k) = starting_at(s, at, 0) {
        lemma_trimmed_end_len(s.take(k));
        lemma_after_last_white(trimmed_end(s.take(k)));
        lemma_offset_grows(s, after_last_white(trimmed_end(s.take(k))), k);
    }
}

proof fn lemma_starting_at(s: Seq<char>, bytes: int, k: int)
    requires
        0 <= k <= s.len(),
    ensures
        match starting_at(s, bytes, k) {
            Some(at) => k <= at <= s.len() && offset(s, at) == bytes,
            None => true,
        },
    decreases s.len() - k,
{
    if offset(s, k) < bytes && k < s.len() {
        lemma_starting_at(s, bytes, k + 1);
    }
}

proof fn lemma_trimmed_end_len(s: Seq<char>)
    ensures
        trimmed_end(s).len() <= s.len(),
    decreases s.len(),
{
    if s.len() > 0 && white(s.last()) {
        lemma_trimmed_end_len(s.drop_last());
    }
}

proof fn lemma_after_last_white(s: Seq<char>)
    ensures
        0 <= after_last_white(s) <= s.len(),
    decreases s.len(),
{
    if s.len() > 0 && !white(s.last()) {
        lemma_after_last_white(s.drop_last());
    }
}

} // verus!
