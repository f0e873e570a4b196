//! The cache of programs. Fetched programs are merged in by their change
//! token; the mapping to an episode of the metadata service is kept, and
//! the duration is derived from start and end on every write.

use vstd::prelude::*;

use super::order::{
    in_order, lemma_ranked_in_order, lemma_ranked_same_rows, ranked, sort_ranked, Ranked,
};
use super::table::{Keyed, KeyedTable};
use super::titles::contains_tid;
use crate::syoboi::params::{
    count_seconds, optional_chars, parse_time, parsed_time, seconds_between, CalendarTime,
    FORMAT_SPACED,
};
use crate::text::{
    lemma_bytes_precede_irreflexive, lemma_bytes_precede_transitive, same_text, sorts_before,
    text_precedes,
};

verus! {

/// A cached program with its mapping to the metadata service.
#[derive(Debug, PartialEq, Eq)]
pub struct CachedProgram {
    /// Program key.
    pub pid: u32,
    /// Key of the title that is broadcast.
    pub tid: u32,
    /// Channel key.
    pub ch_id: u32,
    /// Episode of the metadata service that the program is mapped to.
    pub tmdb_episode_id: Option<u64>,
    /// Start of the broadcast.
    pub st_time: String,
    /// Start offset in seconds.
    pub st_offset: Option<i32>,
    /// End of the broadcast.
    pub ed_time: String,
    /// Episode number.
    pub count: Option<u32>,
    /// Subtitle of the program record.
    pub sub_title: Option<String>,
    /// Flag bits.
    pub flag: Option<u32>,
    /// Deleted marker of the service.
    pub deleted: Option<u32>,
    /// Warning marker.
    pub warn: Option<u32>,
    /// Revision number.
    pub revision: Option<u32>,
    /// Change token of the record.
    pub last_update: Option<String>,
    /// Subtitle joined from the title's episode list.
    pub st_sub_title: Option<String>,
    /// Minutes from start to end, derived on every write.
    pub duration_min: Option<u32>,
}

/// The table of cached programs, by program key.
pub type ProgramTable = KeyedTable<CachedProgram>;

impl Clone for CachedProgram {
    fn clone(&self) -> (copy: Self)
        ensures
            copy == *self,
    {
        CachedProgram {
            pid: self.pid,
            tid: self.tid,
            ch_id: self.ch_id,
            tmdb_episode_id: self.tmdb_episode_id,
            st_time: self.st_time.clone(),
            st_offset: self.st_offset,
            ed_time: self.ed_time.clone(),
            count: self.count,
            sub_title: self.sub_title.clone(),
            flag: self.flag,
            deleted: self.deleted,
            warn: self.warn,
            revision: self.revision,
            last_update: self.last_update.clone(),
            st_sub_title: self.st_sub_title.clone(),
            duration_min: self.duration_min,
        }
    }
}

impl Keyed for CachedProgram {
    open spec fn key(&self) -> u32 {
        self.pid
    }

    fn key_of(&self) -> (key: u32) {
        self.pid
    }
}

impl Ranked for CachedProgram {
    open spec fn ranks_before(&self, other: &Self) -> bool {
        text_precedes(self.st_time@, other.st_time@)
    }

    fn is_ranked_before(&self, other: &Self) -> (before: bool) {
        sorts_before(self.st_time.as_str(), other.st_time.as_str())
    }

    fn duplicate(&self) -> (copy: Self) {
        self.clone()
    }
}

/// `seconds` in minutes, rounded to the nearest minute, half a minute away
/// from zero; `None` where that is negative or no `u32`.
pub open spec fn rounded_minutes(seconds: int) -> Option<u32> {
    let minutes = if seconds >= 0 {
        (seconds + 30) / 60
    } else {
        -((-seconds + 30) / 60)
    };
    if 0 <= minutes <= u32::MAX {
        Some(minutes as u32)
    } else {
        None
    }
}

/// The duration of a broadcast from `st_time` to `ed_time` in minutes;
/// `None` where one of the two is no timestamp.
pub open spec fn duration_of(st_time: Seq<char>, ed_time: Seq<char>) -> Option<u32> {
    match (parsed_time(st_time, FORMAT_SPACED@), parsed_time(ed_time, FORMAT_SPACED@)) {
        (Some(start), Some(end)) => rounded_minutes(seconds_between(start, end)),
        _ => None,
    }
}

/// Rounds `seconds` to minutes.
pub fn round_to_minutes(seconds: i64) -> (minutes: Option<u32>)
    ensures
        minutes == rounded_minutes(seconds as int),
{
    if seconds >= 0 {
        let minutes = (seconds / 60) + if seconds % 60 >= 30 {
            1i64
        } else {
            0i64
        };
        if minutes <= 0xffff_ffff {
            Some(minutes as u32)
        } else {
            None
        }
    } else if seconds >= -29 {
        Some(0)
    } else {
        None
    }
}

/// Derives the duration of a broadcast in minutes from the texts of its
/// start and end.
pub fn duration_minutes(st_time: &str, ed_time: &str) -> (minutes: Option<u32>)
    ensures
        minutes == duration_of(st_time@, ed_time@),
{
    match parse_time(st_time, FORMAT_SPACED) {
        Err(_) => None,
        Ok(start) => match parse_time(ed_time, FORMAT_SPACED) {
            Err(_) => None,
            Ok(end) => round_to_minutes(count_seconds(&start, &end)),
        },
    }
}

/// The row that an upsert of `incoming` writes over `stored`; `None` where
/// it writes nothing. A new program is written as it comes. A stored
/// program with the same change token is left alone; with another token
/// it takes every column of `incoming`. Every row written carries the
/// duration derived from its start and end.
///
/// The schedule itself has no column that an upsert must keep. The episode
/// mapping is no column of the schedule: it is the cache's own note of an
/// episode of the metadata service, which no fetched program carries, so a
/// stored row keeps it through an update.
pub open spec fn merged_program(stored: Option<CachedProgram>, incoming: CachedProgram) -> Option<
    CachedProgram,
> {
    let duration_min = duration_of(incoming.st_time@, incoming.ed_time@);
    match stored {
        None => Some(CachedProgram { duration_min, ..incoming }),
        Some(row) => if optional_chars(row.last_update) == optional_chars(incoming.last_update) {
            None
        } else {
            Some(
                CachedProgram { tmdb_episode_id: row.tmdb_episode_id, duration_min, ..incoming },
            )
        },
    }
}

/// The row stored under `pid`, if there is one.
pub open spec fn stored_program(table: Map<u32, CachedProgram>, pid: u32) -> Option<
    CachedProgram,
> {
    if table.contains_key(pid) {
        Some(table[pid])
    } else {
        None
    }
}

/// The table after `incoming` has been upserted.
pub open spec fn upserted(table: Map<u32, CachedProgram>, incoming: CachedProgram) -> Map<
    u32,
    CachedProgram,
> {
    match merged_program(stored_program(table, incoming.pid), incoming) {
        Some(row) => table.insert(incoming.pid, row),
        None => table,
    }
}

/// Number of rows that an upsert of `incoming` changes: one or none.
pub open spec fn change_of(table: Map<u32, CachedProgram>, incoming: CachedProgram) -> nat {
    match merged_program(stored_program(table, incoming.pid), incoming) {
        Some(_) => 1,
        None => 0,
    }
}

/// The table after `records` have been upserted one after another.
pub open spec fn upserted_all(table: Map<u32, CachedProgram>, records: Seq<CachedProgram>) -> Map<
    u32,
    CachedProgram,
>
    decreases records.len(),
{
    if records.len() == 0 {
        table
    } else {
        upserted(upserted_all(table, records.drop_last()), records.last())
    }
}

/// Number of rows changed by upserting `records` one after another.
pub open spec fn changes_of(table: Map<u32, CachedProgram>, records: Seq<CachedProgram>) -> nat
    decreases records.len(),
{
    if records.len() == 0 {
        0
    } else {
        changes_of(table, records.drop_last()) + change_of(
            upserted_all(table, records.drop_last()),
            records.last(),
        )
    }
}

/// The rows of `rows` whose title key is among `tids`, in the order of
/// `rows`.
pub open spec fn programs_among(rows: Seq<CachedProgram>, tids: Seq<u32>) -> Seq<CachedProgram>
    decreases rows.len(),
{
    if rows.len() == 0 {
        Seq::empty()
    } else if tids.contains(rows.last().tid) {
        programs_among(rows.drop_last(), tids).push(rows.last())
    } else {
        programs_among(rows.drop_last(), tids)
    }
}

/// Tells whether two optional texts hold the same: both absent, or both
/// present with the same characters.
pub fn same_optional_text(a: &Option<String>, b: &Option<String>) -> (same: bool)
    ensures
        same == (optional_chars(*a) == optional_chars(*b)),
{
    match (a, b) {
        (None, None) => true,
        (Some(x), Some(y)) => same_text(x.as_str(), y.as_str()),
        _ => false,
    }
}

/// Decides what an upsert of `incoming` writes, given the row stored under
/// its key.
pub fn merge_program(stored: Option<&CachedProgram>, incoming: &CachedProgram) -> (row: Option<
    CachedProgram,
>)
    ensures
        row == merged_program(
            match stored {
                Some(s) => Some(*s),
                None => None,
            },
            *incoming,
        ),
{
    match stored {
        None => {
            let mut row = incoming.clone();
            row.duration_min = duration_minutes(incoming.st_time.as_str(), incoming.ed_time.as_str());
            Some(row)
        },
        Some(found) => {
            if same_optional_text(&found.last_update, &incoming.last_update) {
                None
            } else {
                let mut row = incoming.clone();
                row.tmdb_episode_id = found.tmdb_episode_id;
                row.duration_min = duration_minutes(
                    incoming.st_time.as_str(),
                    incoming.ed_time.as_str(),
                );
                Some(row)
            }
        },
    }
}

/// Upserts `programs` into the table, one after another, and returns the
/// number of rows written. A program that is new is inserted; a stored
/// program is overwritten only where the change token differs, and keeps
/// its episode mapping.
pub fn upsert_programs(table: &mut ProgramTable, programs: &[CachedProgram]) -> (changed: usize)
    requires
        old(table).well_formed(),
    ensures
        final(table).well_formed(),
        final(table)@ == upserted_all(old(table)@, programs@),
        changed == changes_of(old(table)@, programs@),
{
    let mut changed: usize = 0;
    let mut i: usize = 0;
    while i < programs.len()
        invariant
            i <= programs.len(),
            table.well_formed(),
            table@ == upserted_all(old(table)@, programs@.take(i as int)),
            changed == changes_of(old(table)@, programs@.take(i as int)),
            changed <= i,
        decreases programs.len() - i,
    {
        proof {
            let next = programs@.take(i as int + 1);
            assert(next.drop_last() == programs@.take(i as int));
            assert(next.last() == programs@[i as int]);
        }
        let merged = merge_program(table.get(programs[i].pid), &programs[i]);
        if let Some(row) = merged {
            table.put(row);
            changed = changed + 1;
        }
        i += 1;
    }
    proof {
        assert(programs@.take(programs.len() as int) == programs@);
    }
    changed
}

/// Loads every program, in the order of the start times; programs that
/// start alike stand in the order of their keys.
pub fn load_programs(table: &ProgramTable) -> (programs: Vec<CachedProgram>)
    ensures
        programs@ == ranked(table.rows()),
{
    sort_ranked(table.as_rows())
}

/// Loads the programs whose title key is among `tids`, in the order of the
/// start times.
pub fn load_programs_by_tids(table: &ProgramTable, tids: &[u32]) -> (programs: Vec<
    CachedProgram,
>)
    ensures
        programs@ == ranked(programs_among(table.rows(), tids@)),
{
    let rows = table.as_rows();
    let mut chosen: Vec<CachedProgram> = Vec::new();
    let mut i: usize = 0;
    while i < rows.len()
        invariant
            i <= rows.len(),
            chosen@ == programs_among(rows@.take(i as int), tids@),
        decreases rows.len() - i,
    {
        proof {
            let next = rows@.take(i as int + 1);
            assert(next.drop_last() == rows@.take(i as int));
            assert(next.last() == rows@[i as int]);
        }
        if contains_tid(tids, rows[i].tid) {
            chosen.push(rows[i].clone());
        }
        i += 1;
    }
    proof {
        assert(rows@.take(rows.len() as int) == rows@);
    }
    sort_ranked(&chosen)
}

/// Upsert idempotence: once a program has been upserted, upserting a
/// record with the same key and the same change token changes no row and
/// leaves the table as it is.
pub proof fn lemma_upsert_twice_changes_nothing(
    table: Map<u32, CachedProgram>,
    first: CachedProgram,
    second: CachedProgram,
)
    requires
        second.pid == first.pid,
        optional_chars(second.last_update) == optional_chars(first.last_update),
    ensures
        change_of(upserted(table, first), second) == 0,
        upserted(upserted(table, first), second) == upserted(table, first),
{
}

/// Protected-field preservation: an upsert never changes the episode
/// mapping of a program that is stored.
pub proof fn lemma_upsert_keeps_mapping(
    table: Map<u32, CachedProgram>,
    incoming: CachedProgram,
    pid: u32,
)
    requires
        table.contains_key(pid),
    ensures
        upserted(table, incoming).contains_key(pid),
        upserted(table, incoming)[pid].tmdb_episode_id == table[pid].tmdb_episode_id,
{
}

/// Programs are listed by start time: no program of a listing starts
/// before one listed earlier, in the order of text, and the listing holds
/// the programs that were listed, each as often as it came.
pub proof fn lemma_programs_listed_by_start(rows: Seq<CachedProgram>)
    ensures
        in_order(ranked(rows)),
        ranked(rows).to_multiset() == rows.to_multiset(),
        ranked(rows).len() == rows.len(),
{
    assert forall|a: CachedProgram| !#[trigger] a.ranks_before(&a) by {
        lemma_bytes_precede_irreflexive(vstd::utf8::encode_utf8(a.st_time@));
    }
    assert forall|a: CachedProgram, b: CachedProgram, c: CachedProgram|
        #[trigger] a.ranks_before(&b) && #[trigger] b.ranks_before(&c) implies a.ranks_before(
        &c,
    ) by {
        lemma_bytes_precede_transitive(
            vstd::utf8::encode_utf8(a.st_time@),
            vstd::utf8::encode_utf8(b.st_time@),
            vstd::utf8::encode_utf8(c.st_time@),
        );
    }
    lemma_ranked_in_order(rows);
    lemma_ranked_same_rows(rows);
}

} // verus!
