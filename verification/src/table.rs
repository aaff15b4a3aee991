//! A table of values under text keys, kept as a list in which no key occurs twice.

use crate::text::same_text;
use vstd::prelude::*;

verus! {

/// No two rows have the same key.
pub open spec fn distinct_keys<V>(rows: Seq<(String, V)>) -> bool {
    forall|i: int, j: int|
        0 <= i < rows.len() && 0 <= j < rows.len() && (#[trigger] rows[i]).0@ == (
        #[trigger] rows[j]).0@ ==> i == j
}

/// The keys of the rows, in order.
pub open spec fn row_keys<V>(rows: Seq<(String, V)>) -> Seq<Seq<char>> {
    Seq::new(rows.len(), |i: int| rows[i].0@)
}

/// The map that the rows spell out.
pub open spec fn rows_map<V>(rows: Seq<(String, V)>) -> Map<Seq<char>, V> {
    Map::new(
        |key: Seq<char>| row_keys(rows).contains(key),
        |key: Seq<char>| rows[row_keys(rows).index_of(key)].1,
    )
}

/// A map from text to `V`.
#[derive(Debug)]
pub struct Table<V> {
    rows: Vec<(String, V)>,
}

impl<V> View for Table<V> {
    type V = Map<Seq<char>, V>;

    closed spec fn view(&self) -> Map<Seq<char>, V> {
        rows_map(self.rows@)
    }
}

impl<V> Table<V> {
    /// No key occurs twice.
    pub closed spec fn wf(&self) -> bool {
        distinct_keys(self.rows@)
    }

    /// An empty table.
    pub fn new() -> (res: Self)
        ensures
            res.wf(),
            res@ == Map::<Seq<char>, V>::empty(),
    {
        let res = Table { rows: Vec::new() };
        assert(res@ =~= Map::<Seq<char>, V>::empty());
        res
    }

    /// The number of keys.
    pub fn len(&self) -> (res: usize)
        requires
            self.wf(),
        ensures
            self@.dom().finite(),
            res == self@.dom().len(),
    {
        proof {
            lemma_rows_len(self.rows@);
        }
        self.rows.len()
    }

    fn position(&self, key: &str) -> (res: Option<usize>)
        requires
            self.wf(),
        ensures
            match res {
                Some(i) => i < self.rows@.len() && self.rows@[i as int].0@ == key@,
                None => !self@.contains_key(key@),
            },
    {
        let n: usize = self.rows.len();
        let mut i: usize = 0;
        while i < n
            invariant
                i <= n,
                n == self.rows@.len(),
                forall|j: int| 0 <= j < i ==> (#[trigger] self.rows@[j]).0@ != key@,
            decreases n - i,
        {
            if same_text(self.rows[i].0.as_str(), key) {
                return Some(i);
            }
            i = i + 1;
        }
        proof {
            if self@.contains_key(key@) {
                let j = row_keys(self.rows@).index_of(key@);
                assert(self.rows@[j].0@ == key@);
            }
        }
        None
    }

    /// Whether the key has a value.
    pub fn contains_key(&self, key: &str) -> (res: bool)
        requires
            self.wf(),
        ensures
            res == self@.contains_key(key@),
    {
        match self.position(key) {
            Some(i) => {
                proof {
                    lemma_row(self.rows@, i as int);
                }
                true
            },
            None => false,
        }
    }

    /// The value under the key.
    pub fn get(&self, key: &str) -> (res: Option<&V>)
        requires
            self.wf(),
        ensures
            match res {
                Some(value) => self@.contains_key(key@) && *value == self@[key@],
                None => !self@.contains_key(key@),
            },
    {
        match self.position(key) {
            Some(i) => {
                proof {
                    lemma_row(self.rows@, i as int);
                }
                Some(&self.rows[i].1)
            },
            None => None,
        }
    }

    /// Puts the value under the key, in place of the one that was there.
    pub fn insert(&mut self, key: String, value: V)
        requires
            old(self).wf(),
        ensures
            final(self).wf(),
            final(self)@ == old(self)@.insert(key@, value),
    {
        let ghost before = self.rows@;
        match self.position(key.as_str()) {
            Some(i) => {
                proof {
                    lemma_update(before, i as int, (key, value));
                }
                self.rows.set(i, (key, value));
            },
            None => {
                proof {
                    lemma_push(before, (key, value));
                }
                self.rows.push((key, value));
            },
        }
    }

    /// Takes the key out, and gives back what was under it.
    pub fn remove(&mut self, key: &str) -> (res: Option<V>)
        requires
            old(self).wf(),
        ensures
            final(self).wf(),
            final(self)@ == old(self)@.remove(key@),
            match res {
                Some(value) => old(self)@.contains_key(key@) && value == old(self)@[key@],
                None => !old(self)@.contains_key(key@),
            },
    {
        let ghost before = self.rows@;
        match self.position(key) {
            Some(i) => {
                proof {
                    lemma_row(before, i as int);
                    lemma_remove(before, i as int);
                }
                let row: (String, V) = self.rows.remove(i);
                Some(row.1)
            },
            None => {
                assert(self@ =~= self@.remove(key@));
                None
            },
        }
    }

    /// Empties the table, and gives back every row that it had.
    pub fn drain(&mut self) -> (res: Vec<(String, V)>)
        requires
            old(self).wf(),
        ensures
            final(self).wf(),
            final(self)@ == Map::<Seq<char>, V>::empty(),
            distinct_keys(res@),
            rows_map(res@) == old(self)@,
            res@.len() == old(self)@.dom().len(),
            forall|i: int|
                0 <= i < res@.len() ==> old(self)@.contains_key((#[trigger] res@[i]).0@)
                    && old(self)@[res@[i].0@] == res@[i].1,
            forall|key: Seq<char>| #[trigger]
                old(self)@.contains_key(key) ==> exists|i: int|
                    0 <= i < res@.len() && (#[trigger] res@[i]).0@ == key,
    {
        let mut rows: Vec<(String, V)> = Vec::new();
        std::mem::swap(&mut rows, &mut self.rows);
        assert(self@ =~= Map::<Seq<char>, V>::empty());
        proof {
            law_rows_are_the_map(rows@);
        }
        rows
    }

    /// The rows, in no order that means anything.
    pub fn rows(&self) -> (res: &Vec<(String, V)>)
        requires
            self.wf(),
        ensures
            distinct_keys(res@),
            rows_map(res@) == self@,
    {
        &self.rows
    }
}

/// Each row stands in the map under its key.
pub proof fn lemma_row<V>(rows: Seq<(String, V)>, i: int)
    requires
        distinct_keys(rows),
        0 <= i < rows.len(),
    ensures
        rows_map(rows).contains_key(rows[i].0@),
        rows_map(rows)[rows[i].0@] == rows[i].1,
{
    let keys = row_keys(rows);
    let key = rows[i].0@;
    assert(keys[i] == key);
    let j = keys.index_of(key);
    assert(keys[j] == key);
    assert(rows[j].0@ == rows[i].0@);
}

/// The map has one key for each row.
pub proof fn lemma_rows_len<V>(rows: Seq<(String, V)>)
    requires
        distinct_keys(rows),
    ensures
        rows_map(rows).dom().finite(),
        rows_map(rows).dom().len() == rows.len(),
{
    let keys = row_keys(rows);
    assert(keys.no_duplicates()) by {
        assert forall|i: int, j: int|
            0 <= i < keys.len() && 0 <= j < keys.len() && i != j implies keys[i] != keys[j] by {
            if keys[i] == keys[j] {
                assert(rows[i].0@ == rows[j].0@);
            }
        }
    }
    keys.unique_seq_to_set();
    assert(rows_map(rows).dom() =~= keys.to_set());
    vstd::seq_lib::seq_to_set_is_finite(keys);
}

proof fn lemma_key_has_row<V>(rows: Seq<(String, V)>, key: Seq<char>) -> (i: int)
    requires
        distinct_keys(rows),
        rows_map(rows).contains_key(key),
    ensures
        0 <= i < rows.len(),
        rows[i].0@ == key,
        rows_map(rows)[key] == rows[i].1,
{
    let i = row_keys(rows).index_of(key);
    assert(row_keys(rows)[i] == key);
    i
}

proof fn lemma_push<V>(rows: Seq<(String, V)>, row: (String, V))
    requires
        distinct_keys(rows),
        !rows_map(rows).contains_key(row.0@),
    ensures
        distinct_keys(rows.push(row)),
        rows_map(rows.push(row)) == rows_map(rows).insert(row.0@, row.1),
{
    let after = rows.push(row);
    assert forall|i: int| 0 <= i < rows.len() implies (#[trigger] rows[i]).0@ != row.0@ by {
        lemma_row(rows, i);
    }
    assert(distinct_keys(after)) by {
        assert forall|i: int, j: int|
            0 <= i < after.len() && 0 <= j < after.len() && (#[trigger] after[i]).0@ == (
            #[trigger] after[j]).0@ implies i == j by {
            if i < rows.len() {
                assert(after[i] == rows[i]);
            }
            if j < rows.len() {
                assert(after[j] == rows[j]);
            }
        }
    }
    let got = rows_map(after);
    let want = rows_map(rows).insert(row.0@, row.1);
    assert forall|key: Seq<char>| #[trigger] got.contains_key(key) implies want.contains_key(key)
        && got[key] == want[key] by {
        let i = lemma_key_has_row(after, key);
        if i < rows.len() {
            lemma_row(rows, i);
        }
    }
    assert forall|key: Seq<char>| #[trigger] want.contains_key(key) implies got.contains_key(
        key,
    ) by {
        if key == row.0@ {
            lemma_row(after, rows.len() as int);
        } else {
            let i = lemma_key_has_row(rows, key);
            lemma_row(after, i);
        }
    }
    assert(got =~= want);
}

proof fn lemma_update<V>(rows: Seq<(String, V)>, at: int, row: (String, V))
    requires
        distinct_keys(rows),
        0 <= at < rows.len(),
        rows[at].0@ == row.0@,
    ensures
        distinct_keys(rows.update(at, row)),
        rows_map(rows.update(at, row)) == rows_map(rows).insert(row.0@, row.1),
{
    let after = rows.update(at, row);
    assert(distinct_keys(after)) by {
        assert forall|i: int, j: int|
            0 <= i < after.len() && 0 <= j < after.len() && (#[trigger] after[i]).0@ == (
            #[trigger] after[j]).0@ implies i == j by {
            assert(after[i].0@ == rows[i].0@);
            assert(after[j].0@ == rows[j].0@);
        }
    }
    let got = rows_map(after);
    let want = rows_map(rows).insert(row.0@, row.1);
    assert forall|key: Seq<char>| #[trigger] got.contains_key(key) implies want.contains_key(key)
        && got[key] == want[key] by {
        let i = lemma_key_has_row(after, key);
        lemma_row(rows, i);
        if i != at {
            assert(rows[i].0@ != rows[at].0@);
        }
    }
    assert forall|key: Seq<char>| #[trigger] want.contains_key(key) implies got.contains_key(
        key,
    ) by {
        if key == row.0@ {
            lemma_row(after, at);
        } else {
            let i = lemma_key_has_row(rows, key);
            lemma_row(after, i);
        }
    }
    assert(got =~= want);
}

proof fn lemma_remove<V>(rows: Seq<(String, V)>, at: int)
    requires
        distinct_keys(rows),
        0 <= at < rows.len(),
    ensures
        distinct_keys(rows.remove(at)),
        rows_map(rows.remove(at)) == rows_map(rows).remove(rows[at].0@),
{
    let after = rows.remove(at);
    assert(distinct_keys(after)) by {
        assert forall|i: int, j: int|
            0 <= i < after.len() && 0 <= j < after.len() && (#[trigger] after[i]).0@ == (
            #[trigger] after[j]).0@ implies i == j by {
            let x = if i < at { i } else { i + 1 };
            let y = if j < at { j } else { j + 1 };
            assert(after[i] == rows[x]);
            assert(after[j] == rows[y]);
        }
    }
    let got = rows_map(after);
    let want = rows_map(rows).remove(rows[at].0@);
    assert forall|key: Seq<char>| #[trigger] got.contains_key(key) implies want.contains_key(key)
        && got[key] == want[key] by {
        let i = lemma_key_has_row(after, key);
        let x = if i < at { i } else { i + 1 };
        assert(after[i] == rows[x]);
        lemma_row(rows, x);
        assert(rows[x].0@ != rows[at].0@);
    }
    assert forall|key: Seq<char>| #[trigger] want.contains_key(key) implies got.contains_key(
        key,
    ) by {
        let x = lemma_key_has_row(rows, key);
        let i = if x < at { x } else { x - 1 };
        assert(after[i] == rows[x]);
        lemma_row(after, i);
    }
    assert(got =~= want);
}

/// Rows with distinct keys and the map that they spell out hold the same: each row stands
/// in the map, each key of the map has a row, and there are as many of one as of the
/// other.
pub proof fn law_rows_are_the_map<V>(rows: Seq<(String, V)>)
    requires
        distinct_keys(rows),
    ensures
        rows_map(rows).dom().finite(),
        rows_map(rows).dom().len() == rows.len(),
        forall|i: int|
            0 <= i < rows.len() ==> rows_map(rows).contains_key((#[trigger] rows[i]).0@)
                && rows_map(rows)[rows[i].0@] == rows[i].1,
        forall|key: Seq<char>| #[trigger]
            rows_map(rows).contains_key(key) ==> exists|i: int|
                0 <= i < rows.len() && (#[trigger] rows[i]).0@ == key,
{
    lemma_rows_len(rows);
    assert forall|i: int| 0 <= i < rows.len() implies rows_map(rows).contains_key(
        (#[trigger] rows[i]).0@,
    ) && rows_map(rows)[rows[i].0@] == rows[i].1 by {
        lemma_row(rows, i);
    }
    assert forall|key: Seq<char>| #[trigger] rows_map(rows).contains_key(key) implies exists|i: int|
        0 <= i < rows.len() && (#[trigger] rows[i]).0@ == key by {
        let i = lemma_key_has_row(rows, key);
        assert(rows[i].0@ == key);
    }
}

} // verus!
