//! What the functions on texts mean, said of the characters.

use crate::text::{
    all_digits, before, blank, digits_value, is_digit, trimmed, trimmed_end, trimmed_start,
    u64_read, white,
};
use vstd::prelude::*;

verus! {

proof fn lemma_end(s: Seq<char>)
    ensures
        trimmed_end(s).is_prefix_of(s),
        trimmed_end(s).len() > 0 ==> !white(trimmed_end(s).last()),
        blank(s.skip(trimmed_end(s).len() as int)),
    decreases s.len(),
{
    if s.len() > 0 && white(s.last()) {
        lemma_end(s.drop_last());
        let n = trimmed_end(s).len() as int;
        assert(s.take(n) =~= s.drop_last().take(n));
        assert forall|i: int| 0 <= i < s.skip(n).len() implies white(#[trigger] s.skip(n)[i]) by {
            if i < s.skip(n).len() - 1 {
                assert(s.drop_last().skip(n)[i] == s.skip(n)[i]);
            }
        }
    } else {
        assert(s.take(s.len() as int) =~= s);
    }
}

proof fn lemma_start(s: Seq<char>)
    ensures
        trimmed_start(s).is_suffix_of(s),
        trimmed_start(s).len() > 0 ==> !white(trimmed_start(s)[0]),
        blank(s.take(s.len() - trimmed_start(s).len())),
    decreases s.len(),
{
    if s.len() > 0 && white(s[0]) {
        lemma_start(s.skip(1));
        let n = s.len() - trimmed_start(s).len();
        assert(s.skip(n) =~= s.skip(1).skip(n - 1));
        assert forall|i: int| 0 <= i < n implies white(#[trigger] s.take(n)[i]) by {
            if i > 0 {
                assert(s.skip(1).take(n - 1)[i - 1] == s.take(n)[i]);
            }
        }
    } else {
        assert(s.skip(0) =~= s);
    }
}

/// A trimmed text starts and ends with what is no white space, and only white
/// space was taken from around it.
pub proof fn law_trimmed_takes_the_white_space(s: Seq<char>)
    ensures
        trimmed(s).len() > 0 ==> !white(trimmed(s)[0]) && !white(trimmed(s).last()),
        exists|head: Seq<char>, tail: Seq<char>|
            #[trigger] (head + trimmed(s) + tail) == s && blank(head) && blank(tail),
{
    lemma_end(s);
    let body = trimmed_end(s);
    lemma_start(body);
    let tail = s.skip(body.len() as int);
    let head = body.take(body.len() - trimmed(s).len());
    assert(head + trimmed(s) =~= body);
    assert(head + trimmed(s) + tail =~= s);
    if trimmed(s).len() > 0 {
        assert(trimmed(s).last() == body.last());
    }
}

/// Blanks, tabs and line ends are white space; letters, digits and marks are not.
pub proof fn law_white_space(c: char)
    ensures
        c == ' ' || c == '\t' || c == '\n' || c == '\r' ==> white(c),
        0x21 <= c as u32 <= 0x7e ==> !white(c),
{
}

/// A number is read from digits alone, after one plus sign at most, and only where
/// it fits; every digit counts ten times the next.
pub proof fn law_numbers_are_read(s: Seq<char>, digit: char)
    requires
        all_digits(s),
        is_digit(digit),
    ensures
        u64_read(Seq::empty()) is None,
        s.len() > 0 ==> (u64_read(s) matches Some(n) ==> u64_read(s.push(digit)) == (if n * 10 + (
        digit as u32 - 48) <= u64::MAX {
            Some((n * 10 + (digit as u32 - 48)) as nat)
        } else {
            None
        })),
        u64_read(seq![digit]) == Some((digit as u32 - 48) as nat),
        forall|t: Seq<char>, k: int|
            0 < k < t.len() && !is_digit(#[trigger] t[k]) ==> #[trigger] u64_read(t) is None,
{
    let more = s.push(digit);
    assert(more.drop_last() =~= s);
    if s.len() > 0 {
        assert(is_digit(s[0]));
        assert(more[0] == s[0]);
        assert(all_digits(more));
    }
    let one = seq![digit];
    assert(one.drop_last() =~= Seq::empty());
    assert(digits_value(one.drop_last()) == 0);
    assert(all_digits(one));
    assert forall|t: Seq<char>, k: int|
        0 < k < t.len() && !is_digit(#[trigger] t[k]) implies #[trigger] u64_read(t) is None by {
        if t[0] == '+' {
            assert(t.skip(1)[k - 1] == t[k]);
        }
    }
}

/// One text comes before another where it is the start of it, or where the first
/// character in which they differ is the lesser.
pub proof fn law_order_is_by_the_first_difference(a: Seq<char>, b: Seq<char>, k: int)
    requires
        0 <= k <= a.len(),
        k <= b.len(),
        forall|i: int| 0 <= i < k ==> a[i] == b[i],
    ensures
        k < a.len() && k < b.len() && a[k] != b[k] ==> (before(a, b) <==> a[k] < b[k]),
        k == a.len() && k < b.len() ==> before(a, b),
        k == b.len() ==> !before(a, b),
    decreases k,
{
    if k > 0 {
        assert(a[0] == b[0]);
        assert forall|i: int| 0 <= i < k - 1 implies a.skip(1)[i] == b.skip(1)[i] by {
            assert(a[i + 1] == b[i + 1]);
        }
        law_order_is_by_the_first_difference(a.skip(1), b.skip(1), k - 1);
    }
}

} // verus!
