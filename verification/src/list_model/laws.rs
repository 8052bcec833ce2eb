//! What the changes of a list bring, said of the rows.

use crate::list_model::{diff, diff_from, key_at, moved, OpView};
use vstd::prelude::*;

verus! {

/// Whether no element stands twice.
pub open spec fn all_differ<A>(s: Seq<A>) -> bool {
    forall|i: int, k: int| 0 <= i < k < s.len() ==> s[i] != s[k]
}

proof fn lemma_key_missing<A>(keys: Seq<A>, key: A, from: int)
    requires
        0 <= from,
        key_at(keys, key, from) >= keys.len(),
    ensures
        forall|k: int| from <= k < keys.len() ==> #[trigger] keys[k] != key,
    decreases keys.len() - from,
{
    if from < keys.len() && keys[from] != key {
        lemma_key_missing(keys, key, from + 1);
    }
}

proof fn lemma_key_bounds<A>(keys: Seq<A>, key: A, from: int)
    requires
        0 <= from <= keys.len(),
    ensures
        from <= key_at(keys, key, from) <= keys.len(),
        key_at(keys, key, from) < keys.len() ==> keys[key_at(keys, key, from)] == key,
    decreases keys.len() - from,
{
    if from < keys.len() && keys[from] != key {
        lemma_key_bounds(keys, key, from + 1);
    }
}

proof fn lemma_inserts<A, R>(now: Seq<A>, new: Seq<A>, rows: Seq<R>, done: int, k: int)
    requires
        0 <= done <= new.len(),
        done <= now.len(),
        forall|i: int| 0 <= i < done ==> now[i] == new[i],
        all_differ(new),
        0 <= k < diff_from(now, new, rows, done).len(),
    ensures
        diff_from(now, new, rows, done)[k] matches OpView::Insert { at, row } ==> done <= at
            < new.len() && row == rows[at] && !now.contains(new[at]),
    decreases new.len() - done, now.len(),
{
    let ops = diff_from(now, new, rows, done);
    if done < new.len() {
        lemma_key_bounds(now, new[done], done);
        if done < now.len() && now[done] == new[done] {
            lemma_inserts(now, new, rows, done + 1, k);
        } else {
            let from = key_at(now, new[done], done);
            if from < now.len() {
                let next = moved(now, from, done);
                assert forall|i: int| 0 <= i < done + 1 implies next[i] == new[i] by {}
                if k > 0 {
                    assert(ops[k] == diff_from(next, new, rows, done + 1)[k - 1]);
                    lemma_inserts(next, new, rows, done + 1, k - 1);
                    if let OpView::Insert { at, row } = ops[k] {
                        if now.contains(new[at]) {
                            let i = choose|i: int| 0 <= i < now.len() && now[i] == new[at];
                            let j = if i == from {
                                done
                            } else if done <= i < from {
                                i + 1
                            } else {
                                i
                            };
                            assert(next[j] == now[i]);
                        }
                    }
                }
            } else {
                let next = now.insert(done, new[done]);
                assert forall|i: int| 0 <= i < done + 1 implies next[i] == new[i] by {}
                lemma_key_missing(now, new[done], done);
                if k > 0 {
                    assert(ops[k] == diff_from(next, new, rows, done + 1)[k - 1]);
                    lemma_inserts(next, new, rows, done + 1, k - 1);
                    if let OpView::Insert { at, row } = ops[k] {
                        if now.contains(new[at]) {
                            let i = choose|i: int| 0 <= i < now.len() && now[i] == new[at];
                            let j = if i < done {
                                i
                            } else {
                                i + 1
                            };
                            assert(next[j] == now[i]);
                        }
                    }
                } else {
                    assert(!now.contains(new[done]));
                }
            }
        }
    } else if now.len() > new.len() {
        let next = now.remove(new.len() as int);
        if k > 0 {
            assert(ops[k] == diff_from(next, new, rows, done)[k - 1]);
            lemma_inserts(next, new, rows, done, k - 1);
        }
    }
}

/// Only a row whose key was not there before is inserted, and it is the row that
/// belongs to its key: what stays is kept, and moved where it has to be.
pub proof fn law_only_new_rows_are_inserted<A, R>(
    old_keys: Seq<A>,
    new: Seq<A>,
    rows: Seq<R>,
    k: int,
)
    requires
        all_differ(new),
        new.len() == rows.len(),
        0 <= k < diff(old_keys, new, rows).len(),
    ensures
        diff(old_keys, new, rows)[k] matches OpView::Insert { at, row } ==> 0 <= at < new.len()
            && row == rows[at] && !old_keys.contains(new[at]),
{
    lemma_inserts(old_keys, new, rows, 0, k);
}

/// To a list that grows at its end, only what is added is inserted: a list that
/// gets one more key gets one change, at the end.
pub proof fn law_appended_row_is_one_change<A, R>(keys: Seq<A>, key: A, rows: Seq<R>)
    requires
        !keys.contains(key),
        rows.len() == keys.len() + 1,
    ensures
        diff(keys, keys.push(key), rows) == seq![
            OpView::Insert { at: keys.len() as int, row: rows.last() },
        ],
{
    lemma_appended(keys, key, rows, 0);
}

proof fn lemma_appended<A, R>(keys: Seq<A>, key: A, rows: Seq<R>, done: int)
    requires
        rows.len() == keys.len() + 1,
        0 <= done <= keys.len(),
    ensures
        diff_from(keys, keys.push(key), rows, done) == seq![
            OpView::Insert { at: keys.len() as int, row: rows.last() },
        ],
    decreases keys.len() - done,
{
    let new = keys.push(key);
    let n = keys.len() as int;
    if done < keys.len() {
        assert(keys[done] == new[done]);
        lemma_appended(keys, key, rows, done + 1);
    } else {
        assert(key_at(keys, key, n) == n);
        let next = keys.insert(n, key);
        assert(next =~= new);
        assert(diff_from(next, new, rows, n + 1) =~= Seq::<OpView<R>>::empty());
        assert(diff_from(keys, new, rows, n) =~= seq![
            OpView::Insert { at: n, row: rows.last() },
        ]);
    }
}

} // verus!
