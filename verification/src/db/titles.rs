//! The cache of titles. Fetched titles are merged in by their change
//! token; the mapping to the metadata service is the operator's and is
//! only changed by an explicit assignment.

use vstd::prelude::*;

use super::table::{Keyed, KeyedTable};

verus! {

/// A cached title with its mapping to the metadata service.
#[derive(Debug, PartialEq, Eq)]
pub struct CachedTitle {
    /// Title key.
    pub tid: u32,
    /// Series of the metadata service that the title is mapped to.
    pub tmdb_series_id: Option<u64>,
    /// Season of that series.
    pub tmdb_season_number: Option<u32>,
    /// Title name.
    pub title: String,
    /// Short title.
    pub short_title: Option<String>,
    /// Phonetic reading of the title.
    pub title_yomi: Option<String>,
    /// English title.
    pub title_en: Option<String>,
    /// Category.
    pub cat: Option<u32>,
    /// Title flag.
    pub title_flag: Option<u32>,
    /// Year of the first broadcast.
    pub first_year: Option<u32>,
    /// Month of the first broadcast.
    pub first_month: Option<u32>,
    /// Keywords.
    pub keywords: Option<String>,
    /// Raw episode subtitles.
    pub sub_titles: Option<String>,
    /// Change token of the record.
    pub last_update: String,
}

/// The table of cached titles, by title key.
pub type TitleTable = KeyedTable<CachedTitle>;

impl Clone for CachedTitle {
    fn clone(&self) -> (copy: Self)
        ensures
            copy == *self,
    {
        CachedTitle {
            tid: self.tid,
            tmdb_series_id: self.tmdb_series_id,
            tmdb_season_number: self.tmdb_season_number,
            title: self.title.clone(),
            short_title: self.short_title.clone(),
            title_yomi: self.title_yomi.clone(),
            title_en: self.title_en.clone(),
            cat: self.cat,
            title_flag: self.title_flag,
            first_year: self.first_year,
            first_month: self.first_month,
            keywords: self.keywords.clone(),
            sub_titles: self.sub_titles.clone(),
            last_update: self.last_update.clone(),
        }
    }
}

impl Keyed for CachedTitle {
    open spec fn key(&self) -> u32 {
        self.tid
    }

    fn key_of(&self) -> (key: u32) {
        self.tid
    }
}

/// The row that an upsert of `incoming` writes over `stored`; `None` where
/// it writes nothing. A new title is written as it comes. A stored title
/// with the same change token is left alone; with another token it takes
/// every column of `incoming` but the mapping, which stays.
pub open spec fn merged_title(stored: Option<CachedTitle>, incoming: CachedTitle) -> Option<
    CachedTitle,
> {
    match stored {
        None => Some(incoming),
        Some(row) => if row.last_update@ == incoming.last_update@ {
            None
        } else {
            Some(
                CachedTitle {
                    tmdb_series_id: row.tmdb_series_id,
                    tmdb_season_number: row.tmdb_season_number,
                    ..incoming
                },
            )
        },
    }
}

/// The row stored under `tid`, if there is one.
pub open spec fn stored_title(table: Map<u32, CachedTitle>, tid: u32) -> Option<CachedTitle> {
    if table.contains_key(tid) {
        Some(table[tid])
    } else {
        None
    }
}

/// The table after `incoming` has been upserted.
pub open spec fn upserted(table: Map<u32, CachedTitle>, incoming: CachedTitle) -> Map<
    u32,
    CachedTitle,
> {
    match merged_title(stored_title(table, incoming.tid), incoming) {
        Some(row) => table.insert(incoming.tid, row),
        None => table,
    }
}

/// Number of rows that an upsert of `incoming` changes: one or none.
pub open spec fn change_of(table: Map<u32, CachedTitle>, incoming: CachedTitle) -> nat {
    match merged_title(stored_title(table, incoming.tid), incoming) {
        Some(_) => 1,
        None => 0,
    }
}

/// The table after `records` have been upserted one after another.
pub open spec fn upserted_all(table: Map<u32, CachedTitle>, records: Seq<CachedTitle>) -> Map<
    u32,
    CachedTitle,
>
    decreases records.len(),
{
    if records.len() == 0 {
        table
    } else {
        upserted(upserted_all(table, records.drop_last()), records.last())
    }
}

/// Number of rows changed by upserting `records` one after another.
pub open spec fn changes_of(table: Map<u32, CachedTitle>, records: Seq<CachedTitle>) -> nat
    decreases records.len(),
{
    if records.len() == 0 {
        0
    } else {
        changes_of(table, records.drop_last()) + change_of(
            upserted_all(table, records.drop_last()),
            records.last(),
        )
    }
}

/// The rows of `rows` whose key is among `tids`, in the order of `rows`.
pub open spec fn titles_among(rows: Seq<CachedTitle>, tids: Seq<u32>) -> Seq<CachedTitle>
    decreases rows.len(),
{
    if rows.len() == 0 {
        Seq::empty()
    } else if tids.contains(rows.last().tid) {
        titles_among(rows.drop_last(), tids).push(rows.last())
    } else {
        titles_among(rows.drop_last(), tids)
    }
}

/// Decides what an upsert of `incoming` writes, given the row stored under
/// its key.
pub fn merge_title(stored: Option<&CachedTitle>, incoming: &CachedTitle) -> (row: Option<
    CachedTitle,
>)
    ensures
        row == merged_title(
            match stored {
                Some(s) => Some(*s),
                None => None,
            },
            *incoming,
        ),
{
    match stored {
        None => Some(incoming.clone()),
        Some(found) => {
            if found.last_update == incoming.last_update {
                None
            } else {
                let mut row = incoming.clone();
                row.tmdb_series_id = found.tmdb_series_id;
                row.tmdb_season_number = found.tmdb_season_number;
                Some(row)
            }
        },
    }
}

/// Upserts `titles` into the table, one after another, and returns the
/// number of rows written. A title that is new is inserted; a stored title
/// is overwritten only where the change token differs, and keeps its
/// mapping.
pub fn upsert_titles(table: &mut TitleTable, titles: &[CachedTitle]) -> (changed: usize)
    requires
        old(table).well_formed(),
    ensures
        final(table).well_formed(),
        final(table)@ == upserted_all(old(table)@, titles@),
        changed == changes_of(old(table)@, titles@),
{
    let mut changed: usize = 0;
    let mut i: usize = 0;
    while i < titles.len()
        invariant
            i <= titles.len(),
            table.well_formed(),
            table@ == upserted_all(old(table)@, titles@.take(i as int)),
            changed == changes_of(old(table)@, titles@.take(i as int)),
            changed <= i,
        decreases titles.len() - i,
    {
        proof {
            let next = titles@.take(i as int + 1);
            assert(next.drop_last() == titles@.take(i as int));
            assert(next.last() == titles@[i as int]);
        }
        let merged = merge_title(table.get(titles[i].tid), &titles[i]);
        if let Some(row) = merged {
            table.put(row);
            changed = changed + 1;
        }
        i += 1;
    }
    proof {
        assert(titles@.take(titles.len() as int) == titles@);
    }
    changed
}

/// Loads every title, in the order of the title keys.
pub fn load_titles(table: &TitleTable) -> (titles: Vec<CachedTitle>)
    ensures
        titles@ == table.rows(),
{
    let rows = table.as_rows();
    let mut titles: Vec<CachedTitle> = Vec::new();
    let mut i: usize = 0;
    while i < rows.len()
        invariant
            i <= rows.len(),
            titles@ == rows@.take(i as int),
        decreases rows.len() - i,
    {
        titles.push(rows[i].clone());
        proof {
            assert(titles@ == rows@.take(i as int + 1));
        }
        i += 1;
    }
    proof {
        assert(rows@.take(rows.len() as int) == rows@);
    }
    titles
}

/// Tells whether `tid` is among `tids`.
pub fn contains_tid(tids: &[u32], tid: u32) -> (found: bool)
    ensures
        found == tids@.contains(tid),
{
    let mut i: usize = 0;
    while i < tids.len()
        invariant
            i <= tids.len(),
            forall|j: int| 0 <= j < i ==> tids@[j] != tid,
        decreases tids.len() - i,
    {
        if tids[i] == tid {
            return true;
        }
        i += 1;
    }
    false
}

/// Loads the titles whose key is among `tids`, in the order of the title
/// keys.
pub fn load_titles_by_tids(table: &TitleTable, tids: &[u32]) -> (titles: Vec<CachedTitle>)
    ensures
        titles@ == titles_among(table.rows(), tids@),
{
    let rows = table.as_rows();
    let mut titles: Vec<CachedTitle> = Vec::new();
    let mut i: usize = 0;
    while i < rows.len()
        invariant
            i <= rows.len(),
            titles@ == titles_among(rows@.take(i as int), tids@),
        decreases rows.len() - i,
    {
        proof {
            let next = rows@.take(i as int + 1);
            assert(next.drop_last() == rows@.take(i as int));
            assert(next.last() == rows@[i as int]);
        }
        if contains_tid(tids, rows[i].tid) {
            titles.push(rows[i].clone());
        }
        i += 1;
    }
    proof {
        assert(rows@.take(rows.len() as int) == rows@);
    }
    titles
}

/// The table after the mapping of the title `tid` has been set; unchanged
/// where no such title is stored.
pub open spec fn with_mapping(
    table: Map<u32, CachedTitle>,
    tid: u32,
    tmdb_series_id: Option<u64>,
    tmdb_season_number: Option<u32>,
) -> Map<u32, CachedTitle> {
    if table.contains_key(tid) {
        table.insert(tid, CachedTitle { tmdb_series_id, tmdb_season_number, ..table[tid] })
    } else {
        table
    }
}

/// Sets the mapping of the title `tid` to the metadata service. This is
/// the one operation that changes a mapping. A key that is not stored is
/// passed over.
pub fn update_tmdb_mapping(
    table: &mut TitleTable,
    tid: u32,
    tmdb_series_id: Option<u64>,
    tmdb_season_number: Option<u32>,
)
    requires
        old(table).well_formed(),
    ensures
        final(table).well_formed(),
        final(table)@ == with_mapping(old(table)@, tid, tmdb_series_id, tmdb_season_number),
{
    let updated = match table.get(tid) {
        Some(found) => {
            let mut row = found.clone();
            row.tmdb_series_id = tmdb_series_id;
            row.tmdb_season_number = tmdb_season_number;
            Some(row)
        },
        None => None,
    };
    if let Some(row) = updated {
        table.put(row);
    }
}

/// Upsert idempotence: once a title has been upserted, upserting a record
/// with the same key and the same change token changes no row and leaves
/// the table as it is.
pub proof fn lemma_upsert_twice_changes_nothing(
    table: Map<u32, CachedTitle>,
    first: CachedTitle,
    second: CachedTitle,
)
    requires
        second.tid == first.tid,
        second.last_update@ == first.last_update@,
    ensures
        change_of(upserted(table, first), second) == 0,
        upserted(upserted(table, first), second) == upserted(table, first),
{
}

/// Upsert idempotence for a batch: upserting one record and then the same
/// record again reports no changed row the second time, and the stored
/// data stays as the first upsert left it.
pub proof fn lemma_upsert_same_record_again(table: Map<u32, CachedTitle>, record: CachedTitle)
    ensures
        changes_of(upserted_all(table, seq![record]), seq![record]) == 0,
        upserted_all(upserted_all(table, seq![record]), seq![record]) == upserted_all(
            table,
            seq![record],
        ),
{
    let one = seq![record];
    assert(one.drop_last() == Seq::<CachedTitle>::empty());
    assert(one.last() == record);
    assert(upserted_all(table, one.drop_last()) == table);
    assert(upserted_all(table, one) == upserted(table, record));
    let once = upserted(table, record);
    assert(upserted_all(once, one.drop_last()) == once);
    assert(changes_of(once, one.drop_last()) == 0);
    lemma_upsert_twice_changes_nothing(table, record, record);
}

/// Protected-field preservation: an upsert never changes the mapping of a
/// title that is stored, whatever mapping the incoming record carries.
pub proof fn lemma_upsert_keeps_mapping(
    table: Map<u32, CachedTitle>,
    incoming: CachedTitle,
    tid: u32,
)
    requires
        table.contains_key(tid),
    ensures
        upserted(table, incoming).contains_key(tid),
        upserted(table, incoming)[tid].tmdb_series_id == table[tid].tmdb_series_id,
        upserted(table, incoming)[tid].tmdb_season_number == table[tid].tmdb_season_number,
{
}

/// Protected-field preservation over a batch: however many records are
/// upserted after a mapping was assigned, the title keeps that mapping.
pub proof fn lemma_upserts_keep_assigned_mapping(
    table: Map<u32, CachedTitle>,
    tid: u32,
    tmdb_series_id: Option<u64>,
    tmdb_season_number: Option<u32>,
    records: Seq<CachedTitle>,
)
    requires
        table.contains_key(tid),
    ensures
        upserted_all(
            with_mapping(table, tid, tmdb_series_id, tmdb_season_number),
            records,
        ).contains_key(tid),
        upserted_all(
            with_mapping(table, tid, tmdb_series_id, tmdb_season_number),
            records,
        )[tid].tmdb_series_id == tmdb_series_id,
        upserted_all(
            with_mapping(table, tid, tmdb_series_id, tmdb_season_number),
            records,
        )[tid].tmdb_season_number == tmdb_season_number,
    decreases records.len(),
{
    let mapped = with_mapping(table, tid, tmdb_series_id, tmdb_season_number);
    if records.len() > 0 {
        lemma_upserts_keep_assigned_mapping(
            table,
            tid,
            tmdb_series_id,
            tmdb_season_number,
            records.drop_last(),
        );
        lemma_upsert_keeps_mapping(upserted_all(mapped, records.drop_last()), records.last(), tid);
    }
}

} // verus!
