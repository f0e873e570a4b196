//! Listing rows in the order of a column that is not their key.

use vstd::prelude::*;

verus! {

/// A row that a listing puts in order.
pub trait Ranked: Sized {
    /// Whether `self` stands strictly before `other` in the listing.
    spec fn ranks_before(&self, other: &Self) -> bool;

    /// Tells whether `self` stands strictly before `other`.
    fn is_ranked_before(&self, other: &Self) -> (before: bool)
        ensures
            before == self.ranks_before(other),
    ;

    /// Copies the row.
    fn duplicate(&self) -> (copy: Self)
        ensures
            copy == *self,
    ;
}

/// Where `row` goes into `listed`: before the first row that it stands
/// strictly before, and after every row before that one.
pub open spec fn slot_for<R: Ranked>(listed: Seq<R>, row: R) -> int
    decreases listed.len(),
{
    if listed.len() == 0 {
        0
    } else if row.ranks_before(&listed[0]) {
        0
    } else {
        1 + slot_for(listed.drop_first(), row)
    }
}

/// `rows` listed in order: each row goes in turn into the listing of the
/// rows before it. Rows that rank alike keep the order they came in.
pub open spec fn ranked<R: Ranked>(rows: Seq<R>) -> Seq<R>
    decreases rows.len(),
{
    if rows.len() == 0 {
        Seq::empty()
    } else {
        let listed = ranked(rows.drop_last());
        listed.insert(slot_for(listed, rows.last()), rows.last())
    }
}

/// The slot of a row lies within the listing.
pub proof fn lemma_slot_in_range<R: Ranked>(listed: Seq<R>, row: R)
    ensures
        0 <= slot_for(listed, row) <= listed.len(),
    decreases listed.len(),
{
    if listed.len() > 0 && !row.ranks_before(&listed[0]) {
        lemma_slot_in_range(listed.drop_first(), row);
    }
}

/// Puts `row` into `listed` at its slot.
pub fn insert_ranked<R: Ranked>(listed: &mut Vec<R>, row: R)
    ensures
        final(listed)@ == old(listed)@.insert(slot_for(old(listed)@, row), row),
{
    let mut slot: usize = 0;
    proof {
        assert(listed@.skip(0) == listed@);
    }
    while slot < listed.len() && !row.is_ranked_before(&listed[slot])
        invariant
            slot <= listed@.len(),
            listed@ == old(listed)@,
            slot_for(listed@, row) == slot + slot_for(listed@.skip(slot as int), row),
        decreases listed@.len() - slot,
    {
        proof {
            let rest = listed@.skip(slot as int);
            assert(rest[0] == listed@[slot as int]);
            assert(rest.drop_first() == listed@.skip(slot as int + 1));
        }
        slot += 1;
    }
    proof {
        let rest = listed@.skip(slot as int);
        if slot < listed@.len() {
            assert(rest[0] == listed@[slot as int]);
        }
        assert(slot_for(rest, row) == 0);
    }
    listed.insert(slot, row);
}

/// Lists `rows` in order.
pub fn sort_ranked<R: Ranked>(rows: &Vec<R>) -> (listed: Vec<R>)
    ensures
        listed@ == ranked(rows@),
{
    let mut listed: Vec<R> = Vec::new();
    let mut i: usize = 0;
    while i < rows.len()
        invariant
            i <= rows.len(),
            listed@ == ranked(rows@.take(i as int)),
        decreases rows.len() - i,
    {
        proof {
            let next = rows@.take(i as int + 1);
            assert(next.drop_last() == rows@.take(i as int));
            assert(next.last() == rows@[i as int]);
        }
        insert_ranked(&mut listed, rows[i].duplicate());
        i += 1;
    }
    proof {
        assert(rows@.take(rows.len() as int) == rows@);
    }
    listed
}

/// Whether no row of `listed` stands strictly before a row that is listed
/// earlier.
pub open spec fn in_order<R: Ranked>(listed: Seq<R>) -> bool {
    forall|i: int, j: int|
        #![trigger listed[i], listed[j]]
        0 <= i < j < listed.len() ==> !listed[j].ranks_before(&listed[i])
}

/// Whether standing before is a strict order among the rows of `R`: no row
/// stands before itself, and a row that stands before a second stands
/// before every row that the second stands before.
pub open spec fn ranks_strictly<R: Ranked>() -> bool {
    &&& forall|a: R| !#[trigger] a.ranks_before(&a)
    &&& forall|a: R, b: R, c: R|
        #[trigger] a.ranks_before(&b) && #[trigger] b.ranks_before(&c) ==> a.ranks_before(&c)
}

/// The slot of a row lies after every row that the row does not stand
/// before, and at a row that it stands before.
pub proof fn lemma_slot_divides<R: Ranked>(listed: Seq<R>, row: R)
    ensures
        0 <= slot_for(listed, row) <= listed.len(),
        forall|i: int|
            #![trigger listed[i]]
            0 <= i < slot_for(listed, row) ==> !row.ranks_before(&listed[i]),
        slot_for(listed, row) < listed.len() ==> row.ranks_before(
            &listed[slot_for(listed, row)],
        ),
    decreases listed.len(),
{
    if listed.len() > 0 && !row.ranks_before(&listed[0]) {
        let rest = listed.drop_first();
        lemma_slot_divides(rest, row);
        assert forall|i: int|
            #![trigger listed[i]]
            0 <= i < slot_for(listed, row) implies !row.ranks_before(&listed[i]) by {
            if i > 0 {
                assert(listed[i] == rest[i - 1]);
            }
        }
        if slot_for(listed, row) < listed.len() {
            assert(listed[slot_for(listed, row)] == rest[slot_for(rest, row)]);
        }
    }
}

/// A listing is in order: where standing before is a strict order, no row
/// of the listing stands before a row listed earlier.
pub proof fn lemma_ranked_in_order<R: Ranked>(rows: Seq<R>)
    requires
        ranks_strictly::<R>(),
    ensures
        in_order(ranked(rows)),
    decreases rows.len(),
{
    if rows.len() > 0 {
        let listed = ranked(rows.drop_last());
        let row = rows.last();
        let at = slot_for(listed, row);
        let after = ranked(rows);
        lemma_ranked_in_order(rows.drop_last());
        lemma_slot_divides(listed, row);
        assert(after == listed.insert(at, row));
        assert(after.len() == listed.len() + 1);
        assert forall|i: int, j: int|
            #![trigger after[i], after[j]]
            0 <= i < j < after.len() implies !after[j].ranks_before(&after[i]) by {
            if j < at {
                assert(after[i] == listed[i] && after[j] == listed[j]);
                assert(!listed[j].ranks_before(&listed[i]));
            } else if j == at {
                assert(after[i] == listed[i]);
                assert(after[j] == row);
                assert(!row.ranks_before(&listed[i]));
            } else if i < at {
                assert(after[i] == listed[i] && after[j] == listed[j - 1]);
                if i < j - 1 {
                    assert(!listed[j - 1].ranks_before(&listed[i]));
                }
            } else if i == at {
                assert(after[i] == row);
                assert(after[j] == listed[j - 1]);
                assert(row.ranks_before(&listed[at]));
                if at < j - 1 {
                    assert(!listed[j - 1].ranks_before(&listed[at]));
                }
                if listed[j - 1].ranks_before(&row) {
                    assert(listed[j - 1].ranks_before(&listed[at]));
                    assert(!listed[at].ranks_before(&listed[at]));
                }
            } else {
                assert(after[i] == listed[i - 1] && after[j] == listed[j - 1]);
                assert(!listed[j - 1].ranks_before(&listed[i - 1]));
            }
        }
    }
}

/// A listing holds the rows that were listed, each as often as it came.
pub proof fn lemma_ranked_same_rows<R: Ranked>(rows: Seq<R>)
    ensures
        ranked(rows).to_multiset() == rows.to_multiset(),
        ranked(rows).len() == rows.len(),
    decreases rows.len(),
{
    broadcast use vstd::seq_lib::group_to_multiset_ensures;

    if rows.len() == 0 {
        assert(ranked(rows) == rows);
    } else {
        let front = rows.drop_last();
        let listed = ranked(front);
        let row = rows.last();
        let at = slot_for(listed, row);
        let after = ranked(rows);
        lemma_ranked_same_rows(front);
        lemma_slot_divides(listed, row);
        assert(after == listed.insert(at, row));
        assert(after.remove(at) == listed);
        assert(after[at] == row);
        assert(after.remove(at).to_multiset() == after.to_multiset().remove(row));
        assert(after.to_multiset().count(row) > 0) by {
            assert(after.contains(row));
        }
        assert(after.to_multiset() =~= listed.to_multiset().insert(row));
        assert(front.push(row) == rows);
        assert(rows.to_multiset() =~= front.to_multiset().insert(row));
    }
}

} // verus!
