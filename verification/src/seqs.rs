//! Sequences that are built by picking from other sequences.

use vstd::prelude::*;

verus! {

/// What `f` makes of the elements of `s`, in order, without those of which it
/// makes nothing.
pub open spec fn picked<A, B>(s: Seq<A>, f: spec_fn(A) -> Option<B>) -> Seq<B>
    decreases s.len(),
{
    if s.len() == 0 {
        Seq::empty()
    } else {
        match f(s.last()) {
            Some(b) => picked(s.drop_last(), f).push(b),
            None => picked(s.drop_last(), f),
        }
    }
}

/// Picking from one more element.
pub proof fn lemma_picked_take<A, B>(s: Seq<A>, i: int, f: spec_fn(A) -> Option<B>)
    requires
        0 <= i < s.len(),
    ensures
        picked(s.take(i + 1), f) == match f(s[i]) {
            Some(b) => picked(s.take(i), f).push(b),
            None => picked(s.take(i), f),
        },
{
    assert(s.take(i + 1).drop_last() =~= s.take(i));
    assert(s.take(i + 1).last() == s[i]);
}

/// Picking where every element gives something.
pub proof fn lemma_picked_all<A, B>(s: Seq<A>, f: spec_fn(A) -> Option<B>, out: Seq<B>)
    requires
        s.len() == out.len(),
        forall|i: int| 0 <= i < s.len() ==> f(#[trigger] s[i]) == Some(out[i]),
    ensures
        picked(s, f) == out,
    decreases s.len(),
{
    if s.len() > 0 {
        assert forall|i: int| 0 <= i < s.drop_last().len() implies f(#[trigger] s.drop_last()[i])
            == Some(out.drop_last()[i]) by {
            assert(s.drop_last()[i] == s[i]);
        }
        lemma_picked_all(s.drop_last(), f, out.drop_last());
        assert(f(s[s.len() - 1]) == Some(out[s.len() - 1]));
        assert(picked(s, f) =~= out);
    } else {
        assert(picked(s, f) =~= out);
    }
}

/// Whatever is picked was made of some element.
pub proof fn lemma_picked_from<A, B>(s: Seq<A>, f: spec_fn(A) -> Option<B>, k: int)
    requires
        0 <= k < picked(s, f).len(),
    ensures
        exists|i: int| 0 <= i < s.len() && f(#[trigger] s[i]) == Some(picked(s, f)[k]),
    decreases s.len(),
{
    if s.len() > 0 {
        let before = picked(s.drop_last(), f);
        if k < before.len() {
            lemma_picked_from(s.drop_last(), f, k);
            let i = choose|i: int|
                0 <= i < s.drop_last().len() && f(#[trigger] s.drop_last()[i]) == Some(before[k]);
            assert(s.drop_last()[i] == s[i]);
            assert(f(s[i]) == Some(picked(s, f)[k]));
        } else {
            assert(f(s[s.len() - 1]) == Some(picked(s, f)[k]));
        }
    }
}

/// Picking from two lists side by side: where at each position both give
/// something or neither does, what they give is picked in step.
pub proof fn lemma_picked_in_step<A, B, C, D>(
    s: Seq<A>,
    f: spec_fn(A) -> Option<B>,
    t: Seq<C>,
    g: spec_fn(C) -> Option<D>,
    related: spec_fn(B, D) -> bool,
)
    requires
        s.len() == t.len(),
        forall|i: int| 0 <= i < s.len() ==> (f(#[trigger] s[i]) is Some <==> g(t[i]) is Some),
        forall|i: int|
            0 <= i < s.len() && f(#[trigger] s[i]) is Some ==> related(f(s[i])->0, g(t[i])->0),
    ensures
        picked(s, f).len() == picked(t, g).len(),
        forall|k: int|
            0 <= k < picked(s, f).len() ==> related(
                #[trigger] picked(s, f)[k],
                picked(t, g)[k],
            ),
    decreases s.len(),
{
    if s.len() > 0 {
        let n = s.len() - 1;
        assert forall|i: int| 0 <= i < n implies (f(#[trigger] s.drop_last()[i]) is Some <==> g(
            t.drop_last()[i],
        ) is Some) by {
            assert(s.drop_last()[i] == s[i]);
            assert(t.drop_last()[i] == t[i]);
        }
        assert forall|i: int| 0 <= i < n && f(#[trigger] s.drop_last()[i]) is Some implies related(
            f(s.drop_last()[i])->0,
            g(t.drop_last()[i])->0,
        ) by {
            assert(s.drop_last()[i] == s[i]);
            assert(t.drop_last()[i] == t[i]);
        }
        lemma_picked_in_step(s.drop_last(), f, t.drop_last(), g, related);
        assert(f(s[n]) is Some <==> g(t[n]) is Some);
        let before = picked(s.drop_last(), f);
        assert forall|k: int| 0 <= k < picked(s, f).len() implies related(
            #[trigger] picked(s, f)[k],
            picked(t, g)[k],
        ) by {
            if k < before.len() {
                assert(picked(s, f)[k] == before[k]);
                assert(picked(t, g)[k] == picked(t.drop_last(), g)[k]);
            }
        }
    }
}

/// No more is picked than there is.
pub proof fn lemma_picked_len<A, B>(s: Seq<A>, f: spec_fn(A) -> Option<B>)
    ensures
        picked(s, f).len() <= s.len(),
    decreases s.len(),
{
    if s.len() > 0 {
        lemma_picked_len(s.drop_last(), f);
    }
}

/// Picking depends only on what is made of the elements there are.
pub proof fn lemma_picked_same<A, B>(
    s: Seq<A>,
    f: spec_fn(A) -> Option<B>,
    g: spec_fn(A) -> Option<B>,
)
    requires
        forall|i: int| 0 <= i < s.len() ==> f(#[trigger] s[i]) == g(s[i]),
    ensures
        picked(s, f) == picked(s, g),
    decreases s.len(),
{
    if s.len() > 0 {
        assert forall|i: int| 0 <= i < s.drop_last().len() implies f(#[trigger] s.drop_last()[i])
            == g(s.drop_last()[i]) by {
            assert(s.drop_last()[i] == s[i]);
        }
        lemma_picked_same(s.drop_last(), f, g);
        assert(f(s[s.len() - 1]) == g(s[s.len() - 1]));
    }
}

/// What `f` makes of the elements of `s`, in order; nothing where it makes
/// nothing of one of them.
pub open spec fn every<A, B>(s: Seq<A>, f: spec_fn(A) -> Option<B>) -> Option<Seq<B>>
    decreases s.len(),
{
    if s.len() == 0 {
        Some(Seq::empty())
    } else {
        match (every(s.drop_last(), f), f(s.last())) {
            (Some(out), Some(b)) => Some(out.push(b)),
            _ => None,
        }
    }
}

/// Taking every element where each gives something.
pub proof fn lemma_every<A, B>(s: Seq<A>, f: spec_fn(A) -> Option<B>, out: Seq<B>)
    requires
        s.len() == out.len(),
        forall|i: int| 0 <= i < s.len() ==> f(#[trigger] s[i]) == Some(out[i]),
    ensures
        every(s, f) == Some(out),
    decreases s.len(),
{
    if s.len() > 0 {
        assert forall|i: int| 0 <= i < s.drop_last().len() implies f(#[trigger] s.drop_last()[i])
            == Some(out.drop_last()[i]) by {
            assert(s.drop_last()[i] == s[i]);
        }
        lemma_every(s.drop_last(), f, out.drop_last());
        assert(f(s[s.len() - 1]) == Some(out[s.len() - 1]));
        assert(out.drop_last().push(out[s.len() - 1]) =~= out);
    } else {
        assert(out =~= Seq::empty());
    }
}

/// One element that gives nothing leaves nothing.
pub proof fn lemma_every_none<A, B>(s: Seq<A>, f: spec_fn(A) -> Option<B>, i: int)
    requires
        0 <= i < s.len(),
        f(s[i]) is None,
    ensures
        every(s, f) is None,
    decreases s.len(),
{
    if i < s.len() - 1 {
        assert(s.drop_last()[i] == s[i]);
        lemma_every_none(s.drop_last(), f, i);
    }
}

/// What is picked from two lists, one after the other, is what is picked from
/// each.
pub proof fn lemma_picked_add<A, B>(s: Seq<A>, t: Seq<A>, f: spec_fn(A) -> Option<B>)
    ensures
        picked(s + t, f) == picked(s, f) + picked(t, f),
    decreases t.len(),
{
    if t.len() == 0 {
        assert(s + t =~= s);
        assert(picked(s, f) + picked(t, f) =~= picked(s, f));
    } else {
        assert((s + t).drop_last() =~= s + t.drop_last());
        assert((s + t).last() == t.last());
        lemma_picked_add(s, t.drop_last(), f);
        assert(picked(s + t, f) =~= picked(s, f) + picked(t, f));
    }
}

/// What is made of every element is made of each, in order.
pub proof fn lemma_every_gives<A, B>(s: Seq<A>, f: spec_fn(A) -> Option<B>, out: Seq<B>)
    requires
        every(s, f) == Some(out),
    ensures
        s.len() == out.len(),
        forall|i: int| 0 <= i < s.len() ==> f(#[trigger] s[i]) == Some(out[i]),
    decreases s.len(),
{
    if s.len() > 0 {
        let before = every(s.drop_last(), f)->0;
        lemma_every_gives(s.drop_last(), f, before);
        assert forall|i: int| 0 <= i < s.len() implies f(#[trigger] s[i]) == Some(out[i]) by {
            if i < s.len() - 1 {
                assert(s.drop_last()[i] == s[i]);
            }
        }
    }
}

} // verus!
