//! Keeping a displayed list in step with its data.
//!
//! A list is displayed by a `slint::VecModel`. Rows are known by keys: from
//! the keys that the model was last brought to and those it is to show now, the
//! structural changes are found that lead from one to the other. A row whose
//! key stays keeps its place in the model and is only given its new content.

pub mod laws;

use crate::dirty::RowOp;
use crate::text::same;
use vstd::prelude::*;

verus! {

/// `slint::VecModel`, the list of rows that a Slint component displays.
#[verifier::external_type_specification]
#[verifier::external_body]
#[verifier::reject_recursive_types(T)]
pub struct ExVecModel<T>(slint::VecModel<T>);

/// The rows of a model, in order.
pub uninterp spec fn model_rows(model: slint::VecModel<String>) -> Seq<Seq<char>>;

/// Counts the rows with `Model::row_count` of `slint::VecModel`; the contract
/// claims that it is their number.
#[verifier::external_body]
fn row_count(model: &slint::VecModel<String>) -> (r: usize)
    ensures
        r == model_rows(*model).len(),
{
    slint::Model::row_count(model)
}

/// Reads a row with `Model::row_data` of `slint::VecModel`; the contract claims
/// that it is the row at that position, and nothing past the end.
#[verifier::external_body]
fn row_data(model: &slint::VecModel<String>, at: usize) -> (r: Option<String>)
    ensures
        r is Some <==> at < model_rows(*model).len(),
        r is Some ==> r->0@ == model_rows(*model)[at as int],
{
    slint::Model::row_data(model, at)
}

/// Writes a row with `Model::set_row_data` of `slint::VecModel`; the contract
/// claims that the row at that position is replaced, and no other.
#[verifier::external_body]
fn set_row_data(model: &mut slint::VecModel<String>, at: usize, row: String)
    requires
        at < model_rows(*old(model)).len(),
    ensures
        model_rows(*final(model)) == model_rows(*old(model)).update(at as int, row@),
{
    slint::Model::set_row_data(model, at, row)
}

/// Inserts a row with `slint::VecModel::insert`; the contract claims that the
/// later rows move up by one. The call panics past the end, which is left out.
#[verifier::external_body]
fn insert_row(model: &mut slint::VecModel<String>, at: usize, row: String)
    requires
        at <= model_rows(*old(model)).len(),
    ensures
        model_rows(*final(model)) == model_rows(*old(model)).insert(at as int, row@),
{
    model.insert(at, row)
}

/// Removes a row with `slint::VecModel::remove`; the contract claims that the
/// row is handed back and the later rows move down by one. The call panics past
/// the end, which is left out.
#[verifier::external_body]
fn remove_row(model: &mut slint::VecModel<String>, at: usize) -> (r: String)
    requires
        at < model_rows(*old(model)).len(),
    ensures
        r@ == model_rows(*old(model))[at as int],
        model_rows(*final(model)) == model_rows(*old(model)).remove(at as int),
{
    model.remove(at)
}

/// What a list is made of: a key, or a row. Its view is what makes it one and
/// not another.
pub trait RowEntry: View + Sized {
    /// Whether two entries are one.
    fn same_entry(&self, other: &Self) -> (r: bool)
        ensures
            r == (self@ == other@),
    ;

    /// A copy of an entry.
    fn copy_entry(&self) -> (r: Self)
        ensures
            r@ == self@,
    ;
}

impl RowEntry for String {
    fn same_entry(&self, other: &String) -> (r: bool) {
        same(self.as_str(), other.as_str())
    }

    fn copy_entry(&self) -> (r: String) {
        self.clone()
    }
}

impl<'a> RowEntry for &'a str {
    fn same_entry(&self, other: &&'a str) -> (r: bool) {
        same(self, other)
    }

    fn copy_entry(&self) -> (r: &'a str) {
        *self
    }
}

impl RowEntry for u64 {
    fn same_entry(&self, other: &u64) -> (r: bool) {
        *self == *other
    }

    fn copy_entry(&self) -> (r: u64) {
        *self
    }
}

impl RowEntry for i32 {
    fn same_entry(&self, other: &i32) -> (r: bool) {
        *self == *other
    }

    fn copy_entry(&self) -> (r: i32) {
        *self
    }
}

/// Entries as mathematical values.
pub open spec fn entries_view<T: RowEntry>(entries: Seq<T>) -> Seq<T::V> {
    entries.map_values(|e: T| e@)
}

/// A structural change as a mathematical value.
#[verifier::ext_equal]
pub enum OpView<R> {
    Insert { at: int, row: R },
    Remove { at: int },
    Move { from: int, to: int },
}

/// What a structural change is.
pub open spec fn op_view<T: RowEntry>(op: RowOp<T>) -> OpView<T::V> {
    match op {
        RowOp::Insert { at, row } => OpView::Insert { at: at as int, row: row@ },
        RowOp::Remove { at } => OpView::Remove { at: at as int },
        RowOp::Move { from, to } => OpView::Move { from: from as int, to: to as int },
    }
}

/// A list of structural changes as mathematical values.
pub open spec fn ops_view<T: RowEntry>(ops: Seq<RowOp<T>>) -> Seq<OpView<T::V>> {
    ops.map_values(|op: RowOp<T>| op_view(op))
}

/// The first position at `from` or later that holds `key`, and the length of
/// the list where there is none.
pub open spec fn key_at<A>(keys: Seq<A>, key: A, from: int) -> int
    decreases keys.len() - from,
{
    if from < 0 || from >= keys.len() {
        keys.len() as int
    } else if keys[from] == key {
        from
    } else {
        key_at(keys, key, from + 1)
    }
}

/// A list with the element at `from` moved to `to`.
pub open spec fn moved<A>(s: Seq<A>, from: int, to: int) -> Seq<A> {
    s.remove(from).insert(to, s[from])
}

/// The changes that lead from the keys `now` to the keys `new`, of which the
/// first `done` are in place: position by position, the key that belongs there
/// is moved from further back, or inserted where it is new; what is left over
/// at the end is removed.
pub open spec fn diff_from<A, R>(
    now: Seq<A>,
    new: Seq<A>,
    rows: Seq<R>,
    done: int,
) -> Seq<OpView<R>>
    decreases new.len() - done, now.len(),
{
    if 0 <= done < new.len() {
        if done < now.len() && now[done] == new[done] {
            diff_from(now, new, rows, done + 1)
        } else {
            let from = key_at(now, new[done], done);
            if from < now.len() {
                seq![OpView::Move { from, to: done }] + diff_from(
                    moved(now, from, done),
                    new,
                    rows,
                    done + 1,
                )
            } else {
                seq![OpView::Insert { at: done, row: rows[done] }] + diff_from(
                    now.insert(done, new[done]),
                    new,
                    rows,
                    done + 1,
                )
            }
        }
    } else if now.len() > new.len() {
        seq![OpView::Remove { at: new.len() as int }] + diff_from(
            now.remove(new.len() as int),
            new,
            rows,
            done,
        )
    } else {
        Seq::empty()
    }
}

/// The changes that lead from one list of keys to another.
pub open spec fn diff<A, R>(old_keys: Seq<A>, new: Seq<A>, rows: Seq<R>) -> Seq<OpView<R>> {
    diff_from(old_keys, new, rows, 0)
}

/// Whether a change can be made to a list of `len` elements.
pub open spec fn op_fits<R>(len: int, op: OpView<R>) -> bool {
    match op {
        OpView::Insert { at, .. } => 0 <= at <= len,
        OpView::Remove { at } => 0 <= at < len,
        OpView::Move { from, to } => 0 <= from < len && 0 <= to < len,
    }
}

/// A list after a change, where an inserted element is what `inserted` says.
pub open spec fn op_done<A, R>(s: Seq<A>, op: OpView<R>, inserted: spec_fn(OpView<R>) -> A) -> Seq<A> {
    match op {
        OpView::Insert { at, .. } => s.insert(at, inserted(op)),
        OpView::Remove { at } => s.remove(at),
        OpView::Move { from, to } => moved(s, from, to),
    }
}

/// A list after a list of changes.
pub open spec fn ops_done<A, R>(
    s: Seq<A>,
    ops: Seq<OpView<R>>,
    inserted: spec_fn(OpView<R>) -> A,
) -> Seq<A>
    decreases ops.len(),
{
    if ops.len() == 0 {
        s
    } else {
        ops_done(op_done(s, ops[0], inserted), ops.skip(1), inserted)
    }
}

/// Whether each of a list of changes can be made when its turn comes.
pub open spec fn ops_fit<A, R>(
    s: Seq<A>,
    ops: Seq<OpView<R>>,
    inserted: spec_fn(OpView<R>) -> A,
) -> bool
    decreases ops.len(),
{
    ops.len() == 0 || (op_fits(s.len() as int, ops[0]) && ops_fit(
        op_done(s, ops[0], inserted),
        ops.skip(1),
        inserted,
    ))
}

proof fn lemma_key_at<A>(keys: Seq<A>, key: A, from: int)
    requires
        0 <= from,
    ensures
        from <= keys.len() ==> from <= key_at(keys, key, from) <= keys.len(),
        from <= key_at(keys, key, from) < keys.len() ==> keys[key_at(keys, key, from)] == key,
    decreases keys.len() - from,
{
    if from < keys.len() && keys[from] != key {
        lemma_key_at(keys, key, from + 1);
    }
}

/// The key that belongs at the position of a change.
pub open spec fn inserted_key<A, R>(new: Seq<A>, op: OpView<R>) -> A {
    match op {
        OpView::Insert { at, .. } => new[at],
        OpView::Remove { at } => new[at],
        OpView::Move { to, .. } => new[to],
    }
}

proof fn lemma_diff_from<A, R>(now: Seq<A>, new: Seq<A>, rows: Seq<R>, done: int)
    requires
        0 <= done <= new.len(),
        done <= now.len(),
        forall|k: int| 0 <= k < done ==> now[k] == new[k],
    ensures
        ops_fit(now, diff_from(now, new, rows, done), |op: OpView<R>| inserted_key(new, op)),
        ops_done(now, diff_from(now, new, rows, done), |op: OpView<R>| inserted_key(new, op)) == new,
    decreases new.len() - done, now.len(),
{
    let put = |op: OpView<R>| inserted_key(new, op);
    let ops = diff_from(now, new, rows, done);
    if done < new.len() {
        lemma_key_at(now, new[done], done);
        if done < now.len() && now[done] == new[done] {
            lemma_diff_from(now, new, rows, done + 1);
        } else {
            let from = key_at(now, new[done], done);
            if from < now.len() {
                let next = moved(now, from, done);
                let rest = diff_from(next, new, rows, done + 1);
                assert forall|k: int| 0 <= k < done + 1 implies next[k] == new[k] by {}
                lemma_diff_from(next, new, rows, done + 1);
                assert(ops.skip(1) =~= rest);
            } else {
                let next = now.insert(done, new[done]);
                let rest = diff_from(next, new, rows, done + 1);
                assert forall|k: int| 0 <= k < done + 1 implies next[k] == new[k] by {}
                lemma_diff_from(next, new, rows, done + 1);
                assert(ops.skip(1) =~= rest);
                assert(put(ops[0]) == new[done]);
            }
        }
    } else if now.len() > new.len() {
        let next = now.remove(new.len() as int);
        lemma_diff_from(next, new, rows, done);
        assert(ops.skip(1) =~= diff_from(next, new, rows, done));
    } else {
        assert(now =~= new);
    }
}

/// The changes between two lists of keys can be made one after the other, and
/// lead from the first list to the second.
pub proof fn law_diff_leads_to_new_keys<A, R>(old_keys: Seq<A>, new: Seq<A>, rows: Seq<R>)
    ensures
        ops_fit(old_keys, diff(old_keys, new, rows), |op: OpView<R>| inserted_key(new, op)),
        ops_done(old_keys, diff(old_keys, new, rows), |op: OpView<R>| inserted_key(new, op)) == new,
{
    lemma_diff_from(old_keys, new, rows, 0);
}

/// Lists whose keys do not change need no structural change.
pub proof fn law_same_keys_no_change<A, R>(keys: Seq<A>, rows: Seq<R>)
    ensures
        diff(keys, keys, rows) == Seq::<OpView<R>>::empty(),
{
    lemma_same_keys(keys, rows, 0);
}

proof fn lemma_same_keys<A, R>(keys: Seq<A>, rows: Seq<R>, done: int)
    requires
        0 <= done <= keys.len(),
    ensures
        diff_from(keys, keys, rows, done) == Seq::<OpView<R>>::empty(),
    decreases keys.len() - done,
{
    if done < keys.len() {
        lemma_same_keys(keys, rows, done + 1);
    }
}

/// Whether changes fit a list depends on its length alone, and so does the
/// length that they leave.
proof fn lemma_fit_by_length<A, B, R>(
    s: Seq<A>,
    t: Seq<B>,
    ops: Seq<OpView<R>>,
    put_s: spec_fn(OpView<R>) -> A,
    put_t: spec_fn(OpView<R>) -> B,
)
    requires
        s.len() == t.len(),
        ops_fit(s, ops, put_s),
    ensures
        ops_fit(t, ops, put_t),
        ops_done(s, ops, put_s).len() == ops_done(t, ops, put_t).len(),
    decreases ops.len(),
{
    if ops.len() > 0 {
        lemma_fit_by_length(
            op_done(s, ops[0], put_s),
            op_done(t, ops[0], put_t),
            ops.skip(1),
            put_s,
            put_t,
        );
    }
}

fn find_key<K: RowEntry>(keys: &Vec<K>, key: &K, from: usize) -> (r: usize)
    requires
        from <= keys@.len(),
    ensures
        r == key_at(entries_view(keys@), key@, from as int),
        from <= r <= keys@.len(),
{
    let mut i: usize = from;
    while i < keys.len() && !keys[i].same_entry(key)
        invariant
            from <= i <= keys@.len(),
            key_at(entries_view(keys@), key@, from as int) == key_at(entries_view(keys@), key@, i as int),
        decreases keys@.len() - i,
    {
        i += 1;
    }
    i
}

fn copied<K: RowEntry>(keys: &[K]) -> (r: Vec<K>)
    ensures
        entries_view(r@) == entries_view(keys@),
{
    let mut out: Vec<K> = Vec::new();
    let mut i: usize = 0;
    while i < keys.len()
        invariant
            i <= keys@.len(),
            out@.len() == i,
            forall|k: int| 0 <= k < i ==> (#[trigger] out@[k])@ == keys@[k]@,
        decreases keys@.len() - i,
    {
        out.push(keys[i].copy_entry());
        i += 1;
    }
    assert(entries_view(out@) =~= entries_view(keys@));
    out
}

/// The changes that lead from one list of keys to another; an inserted row is
/// the one that belongs to its key.
pub fn diff_by_id<T: RowEntry, K: RowEntry>(
    old_keys: &[K],
    new_keys: &[K],
    new_rows: &[T],
) -> (r: Vec<RowOp<T>>)
    requires
        new_keys@.len() == new_rows@.len(),
    ensures
        ops_view(r@) == diff(entries_view(old_keys@), entries_view(new_keys@), entries_view(new_rows@)),
{
    let ghost new = entries_view(new_keys@);
    let ghost rows = entries_view(new_rows@);
    let ghost goal = diff(entries_view(old_keys@), new, rows);
    let mut now: Vec<K> = copied(old_keys);
    let mut ops: Vec<RowOp<T>> = Vec::new();
    let mut done: usize = 0;
    assert(ops_view(ops@) + diff_from(entries_view(now@), new, rows, 0) =~= goal);
    while done < new_keys.len()
        invariant
            done <= new_keys@.len(),
            done <= now@.len(),
            new == entries_view(new_keys@),
            rows == entries_view(new_rows@),
            new_keys@.len() == new_rows@.len(),
            ops_view(ops@) + diff_from(entries_view(now@), new, rows, done as int) == goal,
        decreases new_keys@.len() - done,
    {
        let ghost before = entries_view(now@);
        let ghost so_far = ops_view(ops@);
        if !(done < now.len() && now[done].same_entry(&new_keys[done])) {
            let from: usize = find_key(&now, &new_keys[done], done);
            if from < now.len() {
                let key: K = now.remove(from);
                now.insert(done, key);
                assert(entries_view(now@) =~= moved(before, from as int, done as int));
                ops.push(RowOp::Move { from, to: done });
                assert(ops_view(ops@) =~= so_far.push(
                    OpView::Move { from: from as int, to: done as int },
                ));
            } else {
                now.insert(done, new_keys[done].copy_entry());
                assert(entries_view(now@) =~= before.insert(done as int, new[done as int]));
                let row: T = new_rows[done].copy_entry();
                ops.push(RowOp::Insert { at: done, row });
                assert(ops_view(ops@) =~= so_far.push(
                    OpView::Insert { at: done as int, row: rows[done as int] },
                ));
            }
            assert(ops_view(ops@) + diff_from(entries_view(now@), new, rows, done + 1) =~= so_far
                + diff_from(before, new, rows, done as int));
        }
        done += 1;
    }
    while now.len() > new_keys.len()
        invariant
            done == new_keys@.len(),
            now@.len() >= new_keys@.len(),
            new == entries_view(new_keys@),
            rows == entries_view(new_rows@),
            ops_view(ops@) + diff_from(entries_view(now@), new, rows, done as int) == goal,
        decreases now@.len(),
    {
        let ghost before = entries_view(now@);
        let ghost so_far = ops_view(ops@);
        now.remove(new_keys.len());
        assert(entries_view(now@) =~= before.remove(new.len() as int));
        ops.push(RowOp::Remove { at: new_keys.len() });
        assert(ops_view(ops@) =~= so_far.push(OpView::Remove { at: new.len() as int }));
        assert(ops_view(ops@) + diff_from(entries_view(now@), new, rows, done as int) =~= so_far
            + diff_from(before, new, rows, done as int));
    }
    assert(ops_view(ops@) =~= goal);
    ops
}

/// The row that a change inserts.
pub open spec fn inserted_row(op: OpView<Seq<char>>) -> Seq<char> {
    match op {
        OpView::Insert { row, .. } => row,
        _ => Seq::empty(),
    }
}

/// Brings `model` from the keys `old_keys` to the keys `new_keys` with the rows
/// `new_rows`, and hands back the structural changes that were made.
///
/// Where the model does not have as many rows as there are old keys, the two
/// are out of step; the model is then emptied first and built anew.
pub fn reconcile<K: RowEntry>(
    model: &mut slint::VecModel<String>,
    old_keys: &mut Vec<K>,
    new_keys: &[K],
    new_rows: &[String],
) -> (r: Vec<RowOp<String>>)
    requires
        new_keys@.len() == new_rows@.len(),
    ensures
        model_rows(*final(model)) == entries_view(new_rows@),
        entries_view(final(old_keys)@) == entries_view(new_keys@),
        ops_view(r@) == diff(
            if model_rows(*old(model)).len() == old(old_keys)@.len() {
                entries_view(old(old_keys)@)
            } else {
                Seq::empty()
            },
            entries_view(new_keys@),
            entries_view(new_rows@),
        ),
{
    if row_count(model) != old_keys.len() {
        old_keys.clear();
        while row_count(model) > 0
            invariant
                old_keys@.len() == 0,
            decreases model_rows(*model).len(),
        {
            remove_row(model, 0);
        }
        assert(entries_view(old_keys@) =~= Seq::empty());
    }
    let ghost put_key = |op: OpView<Seq<char>>| inserted_key(entries_view(new_keys@), op);
    let ghost put_row = |op: OpView<Seq<char>>| inserted_row(op);
    let ops: Vec<RowOp<String>> = diff_by_id(old_keys.as_slice(), new_keys, new_rows);
    let ghost all = ops_view(ops@);
    let ghost first = model_rows(*model);
    proof {
        law_diff_leads_to_new_keys(entries_view(old_keys@), entries_view(new_keys@), entries_view(new_rows@));
        lemma_fit_by_length(entries_view(old_keys@), first, all, put_key, put_row);
        assert(all.skip(0) =~= all);
    }
    let mut i: usize = 0;
    while i < ops.len()
        invariant
            i <= ops@.len(),
            all == ops_view(ops@),
            put_row == (|op: OpView<Seq<char>>| inserted_row(op)),
            ops_fit(model_rows(*model), all.skip(i as int), put_row),
            ops_done(model_rows(*model), all.skip(i as int), put_row).len() == new_rows@.len(),
        decreases ops@.len() - i,
    {
        proof {
            assert(all.skip(i as int)[0] == op_view(ops@[i as int]));
            assert(all.skip(i as int).skip(1) =~= all.skip(i + 1));
        }
        match &ops[i] {
            RowOp::Insert { at, row } => {
                insert_row(model, *at, row.clone());
            },
            RowOp::Remove { at } => {
                remove_row(model, *at);
            },
            RowOp::Move { from, to } => {
                let row: String = remove_row(model, *from);
                insert_row(model, *to, row);
            },
        }
        i += 1;
    }
    let mut k: usize = 0;
    while k < new_rows.len()
        invariant
            k <= new_rows@.len(),
            model_rows(*model).len() == new_rows@.len(),
            forall|j: int| 0 <= j < k ==> (#[trigger] model_rows(*model)[j]) == new_rows@[j]@,
        decreases new_rows@.len() - k,
    {
        let shown: bool = match row_data(model, k) {
            Some(row) => same(row.as_str(), new_rows[k].as_str()),
            None => false,
        };
        if !shown {
            set_row_data(model, k, new_rows[k].clone());
        }
        k += 1;
    }
    assert(model_rows(*model) =~= entries_view(new_rows@));
    *old_keys = copied(new_keys);
    ops
}

} // verus!
