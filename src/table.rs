use vstd::prelude::*;
use crate::model::{Effect, ModeRow, Order, PhotoSession, Style, UserSession};
use crate::text::str_eq;

verus! {

/// A record with a string key, stored in a table of unique keys.
pub trait Row: Sized {
    spec fn key(&self) -> Seq<char>;

    fn key_str(&self) -> (r: &str)
        ensures
            r@ == self.key(),
    ;

    fn copy_row(&self) -> (r: Self)
        ensures
            r == *self,
    ;
}

/// Some row of `rows` has key `k`.
pub open spec fn has_key<T: Row>(rows: Seq<T>, k: Seq<char>) -> bool {
    exists|i: int| 0 <= i < rows.len() && #[trigger] rows[i].key() == k
}

/// No two rows of `rows` share a key.
pub open spec fn keys_unique<T: Row>(rows: Seq<T>) -> bool {
    forall|i: int, j: int|
        0 <= i < rows.len() && 0 <= j < rows.len() && #[trigger] rows[i].key()
            == #[trigger] rows[j].key() ==> i == j
}

/// The row of `rows` with key `k`, if there is one.
pub open spec fn lookup<T: Row>(rows: Seq<T>, k: Seq<char>) -> Option<T> {
    if has_key(rows, k) {
        Some(rows[choose|i: int| 0 <= i < rows.len() && #[trigger] rows[i].key() == k])
    } else {
        None
    }
}

/// `rows` followed by each row of `new` whose key is not present by then.
pub open spec fn insert_absent<T: Row>(rows: Seq<T>, new: Seq<T>) -> Seq<T>
    decreases new.len(),
{
    if new.len() == 0 {
        rows
    } else {
        let prev = insert_absent(rows, new.drop_last());
        if has_key(prev, new.last().key()) {
            prev
        } else {
            prev.push(new.last())
        }
    }
}

/// In a table of unique keys, the row at position `i` is the one found by its key.
pub proof fn lemma_lookup_at<T: Row>(rows: Seq<T>, i: int)
    requires
        keys_unique(rows),
        0 <= i < rows.len(),
    ensures
        lookup(rows, rows[i].key()) == Some(rows[i]),
{
}

/// Appending a row with a new key keeps keys unique, finds the new row by
/// its key and every other key as before.
pub proof fn lemma_push_fresh<T: Row>(rows: Seq<T>, x: T)
    requires
        keys_unique(rows),
        !has_key(rows, x.key()),
    ensures
        keys_unique(rows.push(x)),
        lookup(rows.push(x), x.key()) == Some(x),
        forall|k: Seq<char>| k != x.key() ==> #[trigger] lookup(rows.push(x), k) == lookup(rows, k),
{
    let r2 = rows.push(x);
    assert(r2[rows.len() as int] == x);
    assert forall|i: int, j: int|
        0 <= i < r2.len() && 0 <= j < r2.len() && #[trigger] r2[i].key() == #[trigger] r2[j].key()
        implies i == j by {
        if i < rows.len() && j < rows.len() {
            assert(rows[i] == r2[i] && rows[j] == r2[j]);
        } else if i < rows.len() {
            assert(rows[i] == r2[i]);
        } else if j < rows.len() {
            assert(rows[j] == r2[j]);
        }
    }
    lemma_lookup_at(r2, rows.len() as int);
    assert forall|k: Seq<char>| k != x.key() implies #[trigger] lookup(r2, k) == lookup(rows, k) by {
        if has_key(rows, k) {
            let i = choose|i: int| 0 <= i < rows.len() && #[trigger] rows[i].key() == k;
            assert(r2[i] == rows[i]);
            lemma_lookup_at(rows, i);
            lemma_lookup_at(r2, i);
        } else {
            assert forall|i: int| 0 <= i < r2.len() implies #[trigger] r2[i].key() != k by {
                if i < rows.len() {
                    assert(r2[i] == rows[i]);
                }
            }
        }
    }
}

/// The position of the row with key `k`, if there is one.
pub fn position<T: Row>(rows: &Vec<T>, k: &str) -> (r: Option<usize>)
    ensures
        match r {
            Some(i) => i < rows@.len() && rows@[i as int].key() == k@,
            None => !has_key(rows@, k@),
        },
{
    let mut i: usize = 0;
    while i < rows.len()
        invariant
            0 <= i <= rows@.len(),
            forall|j: int| 0 <= j < i ==> #[trigger] rows@[j].key() != k@,
        decreases rows@.len() - i,
    {
        if str_eq(rows[i].key_str(), k) {
            return Some(i);
        }
        i = i + 1;
    }
    None
}

/// A copy of the row with key `k`, if there is one.
pub fn find<T: Row>(rows: &Vec<T>, k: &str) -> (r: Option<T>)
    requires
        keys_unique(rows@),
    ensures
        r == lookup(rows@, k@),
{
    match position(rows, k) {
        Some(i) => {
            proof {
                lemma_lookup_at(rows@, i as int);
            }
            Some(rows[i].copy_row())
        },
        None => None,
    }
}

/// After inserting new rows, each of their keys is present.
pub proof fn lemma_insert_absent_contains<T: Row>(rows: Seq<T>, new: Seq<T>, i: int)
    requires
        0 <= i < new.len(),
    ensures
        has_key(insert_absent(rows, new), new[i].key()),
    decreases new.len(),
{
    let prev = insert_absent(rows, new.drop_last());
    if i < new.len() - 1 {
        assert(new.drop_last()[i] == new[i]);
        lemma_insert_absent_contains(rows, new.drop_last(), i);
        if !has_key(prev, new.last().key()) {
            let j = choose|j: int| 0 <= j < prev.len() && #[trigger] prev[j].key() == new[i].key();
            assert(prev.push(new.last())[j] == prev[j]);
        }
    } else if !has_key(prev, new.last().key()) {
        assert(prev.push(new.last())[prev.len() as int] == new.last());
    }
}

/// Inserting rows whose keys are all present already changes nothing.
pub proof fn lemma_insert_absent_noop<T: Row>(rows: Seq<T>, new: Seq<T>)
    requires
        forall|i: int| 0 <= i < new.len() ==> has_key(rows, #[trigger] new[i].key()),
    ensures
        insert_absent(rows, new) == rows,
    decreases new.len(),
{
    if new.len() > 0 {
        assert forall|i: int| 0 <= i < new.len() - 1 implies has_key(rows, #[trigger] new.drop_last()[i].key()) by {
            assert(new.drop_last()[i] == new[i]);
        }
        lemma_insert_absent_noop(rows, new.drop_last());
        assert(has_key(rows, new[new.len() - 1].key()));
    }
}

/// Inserting absent rows keeps keys unique.
pub proof fn lemma_insert_absent_unique<T: Row>(rows: Seq<T>, new: Seq<T>)
    requires
        keys_unique(rows),
    ensures
        keys_unique(insert_absent(rows, new)),
    decreases new.len(),
{
    if new.len() > 0 {
        lemma_insert_absent_unique(rows, new.drop_last());
        let prev = insert_absent(rows, new.drop_last());
        if !has_key(prev, new.last().key()) {
            lemma_push_fresh(prev, new.last());
        }
    }
}

/// Inserting the same rows twice is the same as inserting them once.
pub proof fn lemma_insert_absent_twice<T: Row>(rows: Seq<T>, new: Seq<T>)
    ensures
        insert_absent(insert_absent(rows, new), new) == insert_absent(rows, new),
{
    let once = insert_absent(rows, new);
    assert forall|i: int| 0 <= i < new.len() implies has_key(once, #[trigger] new[i].key()) by {
        lemma_insert_absent_contains(rows, new, i);
    }
    lemma_insert_absent_noop(once, new);
}

/// Appends each row of `new` whose key is not present by then.
pub fn insert_rows<T: Row>(rows: &mut Vec<T>, new: &Vec<T>)
    requires
        keys_unique(old(rows)@),
    ensures
        keys_unique(final(rows)@),
        final(rows)@ == insert_absent(old(rows)@, new@),
{
    let ghost start = rows@;
    let mut i: usize = 0;
    while i < new.len()
        invariant
            0 <= i <= new@.len(),
            keys_unique(rows@),
            rows@ == insert_absent(start, new@.subrange(0, i as int)),
        decreases new@.len() - i,
    {
        let ghost prefix = new@.subrange(0, i as int + 1);
        assert(prefix.drop_last() =~= new@.subrange(0, i as int));
        if position(rows, new[i].key_str()).is_none() {
            proof {
                lemma_push_fresh(rows@, new@[i as int]);
            }
            rows.push(new[i].copy_row());
        }
        i = i + 1;
    }
    assert(new@.subrange(0, new@.len() as int) =~= new@);
}

impl Row for ModeRow {
    open spec fn key(&self) -> Seq<char> {
        self.id@
    }

    fn key_str(&self) -> (r: &str) {
        self.id.as_str()
    }

    fn copy_row(&self) -> (r: Self) {
        self.clone()
    }
}

impl Row for Effect {
    open spec fn key(&self) -> Seq<char> {
        self.id@
    }

    fn key_str(&self) -> (r: &str) {
        self.id.as_str()
    }

    fn copy_row(&self) -> (r: Self) {
        self.clone()
    }
}

impl Row for Style {
    open spec fn key(&self) -> Seq<char> {
        self.id@
    }

    fn key_str(&self) -> (r: &str) {
        self.id.as_str()
    }

    fn copy_row(&self) -> (r: Self) {
        self.clone()
    }
}

impl Row for PhotoSession {
    open spec fn key(&self) -> Seq<char> {
        self.id@
    }

    fn key_str(&self) -> (r: &str) {
        self.id.as_str()
    }

    fn copy_row(&self) -> (r: Self) {
        self.clone()
    }
}

impl Row for Order {
    open spec fn key(&self) -> Seq<char> {
        self.id@
    }

    fn key_str(&self) -> (r: &str) {
        self.id.as_str()
    }

    fn copy_row(&self) -> (r: Self) {
        self.clone()
    }
}

impl Row for UserSession {
    open spec fn key(&self) -> Seq<char> {
        self.session_id@
    }

    fn key_str(&self) -> (r: &str) {
        self.session_id.as_str()
    }

    fn copy_row(&self) -> (r: Self) {
        self.clone()
    }
}

/// A copy of every row, in order.
pub fn copy_rows<T: Row>(rows: &Vec<T>) -> (r: Vec<T>)
    ensures
        r@ == rows@,
{
    let mut out: Vec<T> = Vec::new();
    let mut i: usize = 0;
    while i < rows.len()
        invariant
            0 <= i <= rows@.len(),
            out@ == rows@.subrange(0, i as int),
        decreases rows@.len() - i,
    {
        out.push(rows[i].copy_row());
        assert(out@ =~= rows@.subrange(0, i + 1));
        i = i + 1;
    }
    assert(out@ =~= rows@);
    out
}

} // verus!
