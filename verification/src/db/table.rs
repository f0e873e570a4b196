//! A table of rows with a unique integer key, kept in the order of the key.

use vstd::prelude::*;

verus! {

/// A row that carries the key it is stored under.
pub trait Keyed: Sized {
    /// The key of the row.
    spec fn key(&self) -> u32;

    /// Reads the key of the row.
    fn key_of(&self) -> (key: u32)
        ensures
            key == self.key(),
    ;
}

/// Whether some row of `rows` has the key `key`.
pub open spec fn has_key<R: Keyed>(rows: Seq<R>, key: u32) -> bool {
    exists|i: int| 0 <= i < rows.len() && (#[trigger] rows[i]).key() == key
}

/// Whether the keys of `rows` strictly ascend.
pub open spec fn ascending<R: Keyed>(rows: Seq<R>) -> bool {
    forall|i: int, j: int|
        0 <= i < j < rows.len() ==> (#[trigger] rows[i]).key() < (#[trigger] rows[j]).key()
}

/// The rows of `rows` by key.
pub open spec fn table_map<R: Keyed>(rows: Seq<R>) -> Map<u32, R> {
    Map::new(
        |key: u32| has_key(rows, key),
        |key: u32| rows[choose|i: int| 0 <= i < rows.len() && (#[trigger] rows[i]).key() == key],
    )
}

/// A table of rows by key. No key occurs twice.
#[derive(Debug)]
pub struct KeyedTable<R: Keyed> {
    rows: Vec<R>,
}

impl<R: Keyed> View for KeyedTable<R> {
    type V = Map<u32, R>;

    closed spec fn view(&self) -> Map<u32, R> {
        table_map(self.rows@)
    }
}

/// In rows with ascending keys, the row stored under the key of the row at
/// `index` is that row.
pub proof fn lemma_row_by_key<R: Keyed>(rows: Seq<R>, index: int)
    requires
        ascending(rows),
        0 <= index < rows.len(),
    ensures
        table_map(rows).contains_key(rows[index].key()),
        table_map(rows)[rows[index].key()] == rows[index],
{
    let key = rows[index].key();
    let found = choose|i: int| 0 <= i < rows.len() && (#[trigger] rows[i]).key() == key;
    if found < index {
        assert(rows[found].key() < rows[index].key());
    } else if index < found {
        assert(rows[index].key() < rows[found].key());
    }
}

impl<R: Keyed> KeyedTable<R> {
    /// The rows in the order of their keys.
    pub closed spec fn rows(&self) -> Seq<R> {
        self.rows@
    }

    /// Whether the rows stand in the strict order of their keys.
    pub closed spec fn well_formed(&self) -> bool {
        ascending(self.rows@)
    }

    /// The view of a table is the map of its rows; in a well-formed table
    /// the rows stand in the strict order of their keys.
    pub proof fn lemma_rows(&self)
        requires
            self.well_formed(),
        ensures
            ascending(self.rows()),
            self@ == table_map(self.rows()),
            self@.dom().finite(),
            self@.dom().len() == self.rows().len(),
    {
        lemma_key_count(self.rows@);
    }

    /// An empty table.
    pub fn new() -> (table: Self)
        ensures
            table.well_formed(),
            table@ == Map::<u32, R>::empty(),
            table.rows() == Seq::<R>::empty(),
    {
        let table = KeyedTable { rows: Vec::new() };
        proof {
            assert(table@ =~= Map::<u32, R>::empty());
        }
        table
    }

    /// Number of rows.
    pub fn len(&self) -> (count: usize)
        ensures
            count == self.rows().len(),
    {
        self.rows.len()
    }

    /// Finds where the key `key` stands or would stand: the index of the
    /// first row whose key is not below it.
    fn position(&self, key: u32) -> (index: usize)
        requires
            self.well_formed(),
        ensures
            index <= self.rows@.len(),
            forall|j: int| 0 <= j < index ==> (#[trigger] self.rows@[j]).key() < key,
            forall|j: int| index <= j < self.rows@.len() ==> (#[trigger] self.rows@[j]).key() >= key,
    {
        let mut index: usize = 0;
        while index < self.rows.len() && self.rows[index].key_of() < key
            invariant
                index <= self.rows@.len(),
                forall|j: int| 0 <= j < index ==> (#[trigger] self.rows@[j]).key() < key,
            decreases self.rows@.len() - index,
        {
            index += 1;
        }
        proof {
            assert forall|j: int| index <= j < self.rows@.len() implies (#[trigger] self.rows@[j]).key()
                >= key by {
                if j > index {
                    assert(self.rows@[index as int].key() < self.rows@[j].key());
                }
            }
        }
        index
    }

    /// The row stored under `key`, if there is one.
    pub fn get(&self, key: u32) -> (row: Option<&R>)
        requires
            self.well_formed(),
        ensures
            match row {
                Some(found) => self@.contains_key(key) && *found == self@[key] && found.key()
                    == key,
                None => !self@.contains_key(key),
            },
    {
        let index = self.position(key);
        if index < self.rows.len() && self.rows[index].key_of() == key {
            proof {
                lemma_row_by_key(self.rows@, index as int);
            }
            Some(&self.rows[index])
        } else {
            proof {
                if has_key(self.rows@, key) {
                    let i = choose|i: int| 0 <= i < self.rows@.len() && (#[trigger] self.rows@[i]).key() == key;
                    if i < index {
                        assert(self.rows@[i].key() < key);
                    } else {
                        assert(self.rows@[i].key() >= key);
                        if i > index {
                            assert(self.rows@[index as int].key() < self.rows@[i].key());
                        }
                    }
                }
            }
            None
        }
    }

    /// Stores `row` under its key, in place of the row that stood there.
    pub fn put(&mut self, row: R)
        requires
            old(self).well_formed(),
        ensures
            final(self).well_formed(),
            final(self)@ == old(self)@.insert(row.key(), row),
    {
        let key = row.key_of();
        let index = self.position(key);
        let ghost before = self.rows@;
        if index < self.rows.len() && self.rows[index].key_of() == key {
            self.rows.set(index, row);
            proof {
                let after = self.rows@;
                assert(ascending(after)) by {
                    assert forall|i: int, j: int| 0 <= i < j < after.len() implies (#[trigger] after[i]).key()
                        < (#[trigger] after[j]).key() by {
                        assert(before[i].key() < before[j].key());
                        assert(after[i].key() == before[i].key());
                        assert(after[j].key() == before[j].key());
                    }
                }
                assert forall|k: u32| has_key(after, k) == has_key(before, k) by {
                    if has_key(after, k) {
                        let i = choose|i: int| 0 <= i < after.len() && (#[trigger] after[i]).key() == k;
                        assert(before[i].key() == k);
                    }
                    if has_key(before, k) {
                        let i = choose|i: int| 0 <= i < before.len() && (#[trigger] before[i]).key() == k;
                        assert(after[i].key() == k);
                    }
                }
                assert(has_key(before, key)) by {
                    assert(before[index as int].key() == key);
                }
                assert forall|k: u32| has_key(after, k) implies table_map(after)[k] == table_map(
                    before,
                ).insert(key, row)[k] by {
                    let i = choose|i: int| 0 <= i < after.len() && (#[trigger] after[i]).key() == k;
                    lemma_row_by_key(after, i);
                    if k != key {
                        assert(i != index);
                        assert(before[i] == after[i]);
                        lemma_row_by_key(before, i);
                    } else {
                        lemma_row_by_key(after, index as int);
                    }
                }
                assert(table_map(after) =~= table_map(before).insert(key, row));
            }
        } else {
            self.rows.insert(index, row);
            proof {
                let after = self.rows@;
                assert(after == before.insert(index as int, row));
                assert(!has_key(before, key)) by {
                    if has_key(before, key) {
                        let i = choose|i: int| 0 <= i < before.len() && (#[trigger] before[i]).key() == key;
                        if i < index {
                            assert(before[i].key() < key);
                        } else {
                            assert(before[i].key() >= key);
                            if i > index {
                                assert(before[index as int].key() < before[i].key());
                            }
                        }
                    }
                }
                assert forall|j: int| index <= j < before.len() implies (#[trigger] before[j]).key()
                    > key by {
                    assert(before[j].key() >= key);
                    if before[j].key() == key {
                        assert(has_key(before, key));
                    }
                }
                assert(ascending(after)) by {
                    assert forall|i: int, j: int| 0 <= i < j < after.len() implies (#[trigger] after[i]).key()
                        < (#[trigger] after[j]).key() by {
                        if j < index {
                            assert(after[i] == before[i] && after[j] == before[j]);
                        } else if j == index {
                            assert(after[i] == before[i]);
                        } else if i < index {
                            assert(after[i] == before[i] && after[j] == before[j - 1]);
                            if i < j - 1 {
                                assert(before[i].key() < before[j - 1].key());
                            }
                        } else if i == index {
                            assert(after[j] == before[j - 1]);
                        } else {
                            assert(after[i] == before[i - 1] && after[j] == before[j - 1]);
                        }
                    }
                }
                assert forall|k: u32| has_key(after, k) == (has_key(before, k) || k == key) by {
                    if has_key(after, k) {
                        let i = choose|i: int| 0 <= i < after.len() && (#[trigger] after[i]).key() == k;
                        if i < index {
                            assert(before[i].key() == k);
                        } else if i > index {
                            assert(before[i - 1].key() == k);
                        }
                    }
                    if has_key(before, k) {
                        let i = choose|i: int| 0 <= i < before.len() && (#[trigger] before[i]).key() == k;
                        if i < index {
                            assert(after[i].key() == k);
                        } else {
                            assert(after[i + 1].key() == k);
                        }
                    }
                    if k == key {
                        assert(after[index as int].key() == k);
                    }
                }
                assert forall|k: u32| has_key(after, k) implies table_map(after)[k] == table_map(
                    before,
                ).insert(key, row)[k] by {
                    let i = choose|i: int| 0 <= i < after.len() && (#[trigger] after[i]).key() == k;
                    lemma_row_by_key(after, i);
                    if i < index {
                        assert(before[i] == after[i]);
                        lemma_row_by_key(before, i);
                    } else if i > index {
                        assert(before[i - 1] == after[i]);
                        lemma_row_by_key(before, i - 1);
                    }
                }
                assert(table_map(after) =~= table_map(before).insert(key, row));
            }
        }
    }

    /// Removes every row.
    pub fn clear(&mut self)
        ensures
            final(self).well_formed(),
            final(self)@ == Map::<u32, R>::empty(),
            final(self).rows() == Seq::<R>::empty(),
    {
        self.rows.clear();
        proof {
            assert(self@ =~= Map::<u32, R>::empty());
        }
    }

    /// The rows in the order of their keys.
    pub fn as_rows(&self) -> (rows: &Vec<R>)
        ensures
            rows@ == self.rows(),
    {
        &self.rows
    }
}

/// Rows with ascending keys have as many keys as rows.
pub proof fn lemma_key_count<R: Keyed>(rows: Seq<R>)
    requires
        ascending(rows),
    ensures
        table_map(rows).dom().finite(),
        table_map(rows).dom().len() == rows.len(),
    decreases rows.len(),
{
    if rows.len() == 0 {
        assert(table_map(rows).dom() =~= Set::<u32>::empty());
    } else {
        let front = rows.drop_last();
        let last = rows.last();
        lemma_key_count(front);
        assert(!has_key(front, last.key())) by {
            if has_key(front, last.key()) {
                let i = choose|i: int| 0 <= i < front.len() && (#[trigger] front[i]).key() == last.key();
                assert(rows[i].key() < rows[rows.len() - 1].key());
            }
        }
        assert forall|k: u32| has_key(rows, k) == (has_key(front, k) || k == last.key()) by {
            if has_key(rows, k) {
                let i = choose|i: int| 0 <= i < rows.len() && (#[trigger] rows[i]).key() == k;
                if i < front.len() {
                    assert(front[i].key() == k);
                }
            }
            if has_key(front, k) {
                let i = choose|i: int| 0 <= i < front.len() && (#[trigger] front[i]).key() == k;
                assert(rows[i].key() == k);
            }
            if k == last.key() {
                assert(rows[rows.len() - 1].key() == k);
            }
        }
        assert(table_map(rows).dom() =~= table_map(front).dom().insert(last.key()));
    }
}

} // verus!
