//! One synchronisation run: chunked title lookups with a retry on empty
//! answers, and the merge of what was fetched into the cache.

use vstd::prelude::*;
use vstd::string::*;

use crate::db::programs::{upsert_programs, CachedProgram, ProgramTable};
use crate::db::titles::{upsert_titles, CachedTitle, TitleTable};
use crate::syoboi::client::ApiError;
use crate::syoboi::types::{SyoboiProgram, SyoboiTitle};
use crate::text::{decimal, decimal_text};

verus! {

/// Most title keys in one lookup.
pub const TITLE_LOOKUP_CHUNK_SIZE: usize = 50;

/// Number of times a chunk that came back empty is looked up again.
pub const TITLE_CHUNK_MAX_RETRIES: u32 = 5;

/// Seconds of pause before the first retry of a chunk; each further retry
/// waits twice as long.
pub const TITLE_CHUNK_INITIAL_BACKOFF_SECS: u64 = 10;

/// The fields that a title lookup of a run asks for: those that the cache
/// keeps.
pub const TITLE_SYNC_FIELDS: [&'static str; 12] = [
    "TID",
    "LastUpdate",
    "Title",
    "ShortTitle",
    "TitleYomi",
    "TitleEN",
    "Cat",
    "TitleFlag",
    "FirstYear",
    "FirstMonth",
    "Keywords",
    "SubTitles",
];

/// The state of a chunked lookup as contracts see it.
pub struct ChunkedView {
    /// The keys to look up.
    pub tids: Seq<u32>,
    /// Index of the first key of the current chunk.
    pub position: nat,
    /// Number of retries made for the current chunk.
    pub retry: nat,
    /// The titles collected so far, in the order of the chunks.
    pub titles: Seq<SyoboiTitle>,
    /// Whether a lookup has failed: the run is over.
    pub failed: bool,
}

/// Why a chunked lookup ended before every chunk was looked up.
#[derive(Debug)]
pub struct ChunkFailure {
    /// Number of keys in the chunk whose lookup failed.
    pub requested: usize,
    /// The error that the lookup ended in.
    pub source: ApiError,
}

/// What the caller does after the answer to a chunk.
#[derive(Debug, Clone, Copy, PartialEq, Eq, Structural)]
pub enum ChunkStep {
    /// Sleep for so many seconds, then look the same chunk up again.
    Retry { secs: u64 },
    /// Look up the next chunk.
    Next,
    /// Every chunk has been looked up.
    Done,
}

/// A lookup of many title keys in chunks of `TITLE_LOOKUP_CHUNK_SIZE`.
#[derive(Debug)]
pub struct ChunkedLookup {
    tids: Vec<u32>,
    position: usize,
    retry: u32,
    titles: Vec<SyoboiTitle>,
    failed: bool,
}

/// `base` doubled `times` times.
pub open spec fn doubled(base: nat, times: nat) -> nat
    decreases times,
{
    if times == 0 {
        base
    } else {
        2 * doubled(base, (times - 1) as nat)
    }
}

/// Seconds of pause before retry number `retry` of a chunk, counted from
/// zero: 10, 20, 40, 80, 160.
pub open spec fn chunk_backoff(retry: nat) -> nat {
    doubled(TITLE_CHUNK_INITIAL_BACKOFF_SECS as nat, retry)
}

/// Where the chunk that begins at `position` ends.
pub open spec fn chunk_end(tids: Seq<u32>, position: nat) -> nat {
    if position + TITLE_LOOKUP_CHUNK_SIZE <= tids.len() {
        (position + TITLE_LOOKUP_CHUNK_SIZE) as nat
    } else {
        tids.len()
    }
}

/// The state after the answer `answer` to the current chunk.
pub open spec fn state_after(state: ChunkedView, answer: Seq<SyoboiTitle>) -> ChunkedView {
    if state.failed || state.position >= state.tids.len() {
        state
    } else if answer.len() > 0 {
        ChunkedView {
            position: chunk_end(state.tids, state.position),
            retry: 0,
            titles: state.titles + answer,
            ..state
        }
    } else if state.retry < TITLE_CHUNK_MAX_RETRIES {
        ChunkedView { retry: (state.retry + 1) as nat, ..state }
    } else {
        ChunkedView { position: chunk_end(state.tids, state.position), retry: 0, ..state }
    }
}

/// What the caller does after the answer `answer` to the current chunk.
pub open spec fn step_after(state: ChunkedView, answer: Seq<SyoboiTitle>) -> ChunkStep {
    if state.failed || state.position >= state.tids.len() {
        ChunkStep::Done
    } else if answer.len() == 0 && state.retry < TITLE_CHUNK_MAX_RETRIES {
        ChunkStep::Retry { secs: chunk_backoff(state.retry) as u64 }
    } else if chunk_end(state.tids, state.position) >= state.tids.len() {
        ChunkStep::Done
    } else {
        ChunkStep::Next
    }
}

impl ChunkFailure {
    /// The message that describes this failure.
    pub open spec fn message(self) -> Seq<char> {
        "failed to fetch titles for chunk of "@ + decimal_text(self.requested as nat) + " TIDs"@
    }

    /// Renders the failure as text.
    pub fn to_string(&self) -> (text: String)
        ensures
            text@ == self.message(),
    {
        String::from_str("failed to fetch titles for chunk of ").concat(
            decimal(self.requested as u64).as_str(),
        ).concat(" TIDs")
    }
}

impl View for ChunkedLookup {
    type V = ChunkedView;

    closed spec fn view(&self) -> ChunkedView {
        ChunkedView {
            tids: self.tids@,
            position: self.position as nat,
            retry: self.retry as nat,
            titles: self.titles@,
            failed: self.failed,
        }
    }
}

/// The pause before retry number `retry` stays below three minutes for
/// every retry that is made.
pub proof fn lemma_chunk_backoff_values()
    ensures
        chunk_backoff(0) == 10,
        chunk_backoff(1) == 20,
        chunk_backoff(2) == 40,
        chunk_backoff(3) == 80,
        chunk_backoff(4) == 160,
{
    reveal_with_fuel(doubled, 6);
}

impl ChunkedLookup {
    /// Whether the position lies within the keys and the retries within
    /// their budget.
    pub closed spec fn well_formed(&self) -> bool {
        self.position <= self.tids@.len() && self.retry <= TITLE_CHUNK_MAX_RETRIES
    }

    /// Starts a lookup of `tids`, at the first chunk.
    pub fn new(tids: Vec<u32>) -> (lookup: Self)
        ensures
            lookup.well_formed(),
            lookup@ == (ChunkedView {
                tids: tids@,
                position: 0,
                retry: 0,
                titles: Seq::empty(),
                failed: false,
            }),
    {
        ChunkedLookup { tids, position: 0, retry: 0, titles: Vec::new(), failed: false }
    }

    /// The keys of the chunk to look up next; `None` once every chunk has
    /// been looked up, or a lookup has failed.
    pub fn current_chunk(&self) -> (chunk: Option<Vec<u32>>)
        requires
            self.well_formed(),
        ensures
            chunk == None::<Vec<u32>> <==> self@.failed || self@.position >= self@.tids.len(),
            chunk matches Some(keys) ==> keys@ == self@.tids.subrange(
                self@.position as int,
                chunk_end(self@.tids, self@.position) as int,
            ),
    {
        if self.failed || self.position >= self.tids.len() {
            return None;
        }
        let end = if self.tids.len() - self.position >= TITLE_LOOKUP_CHUNK_SIZE {
            self.position + TITLE_LOOKUP_CHUNK_SIZE
        } else {
            self.tids.len()
        };
        let mut chunk: Vec<u32> = Vec::new();
        let mut i: usize = self.position;
        while i < end
            invariant
                self.position <= i <= end <= self.tids@.len(),
                chunk@ == self.tids@.subrange(self.position as int, i as int),
            decreases end - i,
        {
            chunk.push(self.tids[i]);
            proof {
                assert(chunk@ == self.tids@.subrange(self.position as int, i as int + 1));
            }
            i += 1;
        }
        Some(chunk)
    }

    /// Takes in the titles that the lookup of the current chunk returned.
    /// Titles are appended and the next chunk is due. An empty answer is
    /// taken for silent throttling: the chunk is looked up again after a
    /// pause that doubles each time, and passed over once the retries are
    /// spent.
    pub fn record(&mut self, answer: Vec<SyoboiTitle>) -> (step: ChunkStep)
        requires
            old(self).well_formed(),
        ensures
            final(self).well_formed(),
            final(self)@ == state_after(old(self)@, answer@),
            step == step_after(old(self)@, answer@),
    {
        if self.failed || self.position >= self.tids.len() {
            return ChunkStep::Done;
        }
        let end = if self.tids.len() - self.position >= TITLE_LOOKUP_CHUNK_SIZE {
            self.position + TITLE_LOOKUP_CHUNK_SIZE
        } else {
            self.tids.len()
        };
        if answer.len() == 0 && self.retry < TITLE_CHUNK_MAX_RETRIES {
            let secs = backoff_secs(self.retry);
            self.retry = self.retry + 1;
            return ChunkStep::Retry { secs };
        }
        let mut answer = answer;
        let ghost before = self.titles@;
        let ghost added = answer@;
        self.titles.append(&mut answer);
        proof {
            assert(before + Seq::<SyoboiTitle>::empty() == before);
        }
        self.position = end;
        self.retry = 0;
        if end >= self.tids.len() {
            ChunkStep::Done
        } else {
            ChunkStep::Next
        }
    }

    /// Takes in that the lookup of the current chunk failed with `error`:
    /// the run is over. No chunk is looked up after that, and what a later
    /// answer holds is not taken in; the titles collected and the position
    /// stay as they were. The failure names the number of keys that the
    /// chunk held and carries the error.
    pub fn fail(&mut self, error: ApiError) -> (failure: ChunkFailure)
        requires
            old(self).well_formed(),
        ensures
            final(self).well_formed(),
            final(self)@ == (ChunkedView { failed: true, ..old(self)@ }),
            failure.source == error,
            failure.requested == chunk_end(old(self)@.tids, old(self)@.position) - old(self)@.position,
    {
        let end = if self.tids.len() - self.position >= TITLE_LOOKUP_CHUNK_SIZE {
            self.position + TITLE_LOOKUP_CHUNK_SIZE
        } else {
            self.tids.len()
        };
        self.failed = true;
        ChunkFailure { requested: end - self.position, source: error }
    }

    /// Takes in how the lookup of the current chunk went: the titles it
    /// returned, as `record` does, or the error it ended in, as `fail`
    /// does. An error ends the run at once.
    pub fn step(&mut self, outcome: Result<Vec<SyoboiTitle>, ApiError>) -> (next: Result<
        ChunkStep,
        ChunkFailure,
    >)
        requires
            old(self).well_formed(),
        ensures
            final(self).well_formed(),
            match outcome {
                Ok(answer) => final(self)@ == state_after(old(self)@, answer@) && next == Ok::<
                    ChunkStep,
                    ChunkFailure,
                >(step_after(old(self)@, answer@)),
                Err(error) => final(self)@ == (ChunkedView { failed: true, ..old(self)@ })
                    && next is Err && next->Err_0.source == error && next->Err_0.requested
                    == chunk_end(old(self)@.tids, old(self)@.position) - old(self)@.position,
            },
    {
        match outcome {
            Ok(answer) => Ok(self.record(answer)),
            Err(error) => Err(self.fail(error)),
        }
    }

    /// Whether a lookup has failed.
    pub fn has_failed(&self) -> (failed: bool)
        ensures
            failed == self@.failed,
    {
        self.failed
    }

    /// Number of chunks that the keys fall into.
    pub fn chunk_count(&self) -> (count: usize)
        ensures
            count == (self@.tids.len() + TITLE_LOOKUP_CHUNK_SIZE - 1) / (
            TITLE_LOOKUP_CHUNK_SIZE as int),
    {
        let n = self.tids.len();
        if n % TITLE_LOOKUP_CHUNK_SIZE == 0 {
            n / TITLE_LOOKUP_CHUNK_SIZE
        } else {
            n / TITLE_LOOKUP_CHUNK_SIZE + 1
        }
    }

    /// Hands out the titles collected.
    pub fn into_titles(self) -> (titles: Vec<SyoboiTitle>)
        ensures
            titles@ == self@.titles,
    {
        self.titles
    }
}

/// Seconds of pause before retry number `retry` of a chunk.
pub fn backoff_secs(retry: u32) -> (secs: u64)
    requires
        retry < TITLE_CHUNK_MAX_RETRIES,
    ensures
        secs == chunk_backoff(retry as nat),
{
    let mut secs: u64 = TITLE_CHUNK_INITIAL_BACKOFF_SECS;
    let mut i: u32 = 0;
    while i < retry
        invariant
            i <= retry < TITLE_CHUNK_MAX_RETRIES,
            secs == chunk_backoff(i as nat),
            secs <= 160,
        decreases retry - i,
    {
        proof {
            lemma_chunk_backoff_values();
            reveal_with_fuel(doubled, 2);
        }
        secs = secs * 2;
        i += 1;
    }
    secs
}

/// The cached form of a fetched title: every column that the cache keeps,
/// and no mapping.
pub open spec fn cached_title(title: SyoboiTitle) -> CachedTitle {
    CachedTitle {
        tid: title.tid,
        tmdb_series_id: None,
        tmdb_season_number: None,
        title: title.title,
        short_title: title.short_title,
        title_yomi: title.title_yomi,
        title_en: title.title_en,
        cat: title.cat,
        title_flag: title.title_flag,
        first_year: title.first_year,
        first_month: title.first_month,
        keywords: title.keywords,
        sub_titles: title.sub_titles,
        last_update: title.last_update,
    }
}

/// The cached form of a fetched program: every column that the cache
/// keeps, no mapping and no duration.
pub open spec fn cached_program(program: SyoboiProgram) -> CachedProgram {
    CachedProgram {
        pid: program.pid,
        tid: program.tid,
        ch_id: program.ch_id,
        tmdb_episode_id: None,
        st_time: program.st_time,
        st_offset: program.st_offset,
        ed_time: program.ed_time,
        count: program.count,
        sub_title: program.sub_title,
        flag: program.flag,
        deleted: program.deleted,
        warn: program.warn,
        revision: program.revision,
        last_update: program.last_update,
        st_sub_title: program.st_sub_title,
        duration_min: None,
    }
}

/// Converts a fetched title to its cached form.
pub fn to_cached_title(title: &SyoboiTitle) -> (cached: CachedTitle)
    ensures
        cached == cached_title(*title),
{
    CachedTitle {
        tid: title.tid,
        tmdb_series_id: None,
        tmdb_season_number: None,
        title: title.title.clone(),
        short_title: title.short_title.clone(),
        title_yomi: title.title_yomi.clone(),
        title_en: title.title_en.clone(),
        cat: title.cat,
        title_flag: title.title_flag,
        first_year: title.first_year,
        first_month: title.first_month,
        keywords: title.keywords.clone(),
        sub_titles: title.sub_titles.clone(),
        last_update: title.last_update.clone(),
    }
}

/// Converts a fetched program to its cached form.
pub fn to_cached_program(program: &SyoboiProgram) -> (cached: CachedProgram)
    ensures
        cached == cached_program(*program),
{
    CachedProgram {
        pid: program.pid,
        tid: program.tid,
        ch_id: program.ch_id,
        tmdb_episode_id: None,
        st_time: program.st_time.clone(),
        st_offset: program.st_offset,
        ed_time: program.ed_time.clone(),
        count: program.count,
        sub_title: program.sub_title.clone(),
        flag: program.flag,
        deleted: program.deleted,
        warn: program.warn,
        revision: program.revision,
        last_update: program.last_update.clone(),
        st_sub_title: program.st_sub_title.clone(),
        duration_min: None,
    }
}

/// The title keys of `programs`, each once, in the order of their first
/// occurrence.
pub open spec fn distinct_tids(programs: Seq<SyoboiProgram>) -> Seq<u32>
    decreases programs.len(),
{
    if programs.len() == 0 {
        Seq::empty()
    } else {
        let before = distinct_tids(programs.drop_last());
        if before.contains(programs.last().tid) {
            before
        } else {
            before.push(programs.last().tid)
        }
    }
}

/// Whether some title of `titles` has the key `tid`.
pub open spec fn has_title(titles: Seq<CachedTitle>, tid: u32) -> bool {
    exists|i: int| 0 <= i < titles.len() && (#[trigger] titles[i]).tid == tid
}

/// The cached forms of the programs whose title is among `titles`, in the
/// order of `programs`.
pub open spec fn programs_of_titles(programs: Seq<SyoboiProgram>, titles: Seq<CachedTitle>) -> Seq<
    CachedProgram,
>
    decreases programs.len(),
{
    if programs.len() == 0 {
        Seq::empty()
    } else {
        let before = programs_of_titles(programs.drop_last(), titles);
        if has_title(titles, programs.last().tid) {
            before.push(cached_program(programs.last()))
        } else {
            before
        }
    }
}

/// The cached forms of `titles`, in order.
pub open spec fn cached_titles(titles: Seq<SyoboiTitle>) -> Seq<CachedTitle> {
    titles.map_values(|t: SyoboiTitle| cached_title(t))
}

/// Tells whether `tid` is among `tids`.
fn seen_tid(tids: &Vec<u32>, tid: u32) -> (found: bool)
    ensures
        found == tids@.contains(tid),
{
    let mut i: usize = 0;
    while i < tids.len()
        invariant
            i <= tids.len(),
            forall|j: int| 0 <= j < i ==> tids@[j] != tid,
        decreases tids.len() - i,
    {
        if tids[i] == tid {
            return true;
        }
        i += 1;
    }
    false
}

/// Collects the title keys that `programs` refer to, each once, in the
/// order of their first occurrence.
pub fn unique_tids(programs: &[SyoboiProgram]) -> (tids: Vec<u32>)
    ensures
        tids@ == distinct_tids(programs@),
        tids@.no_duplicates(),
{
    let mut tids: Vec<u32> = Vec::new();
    let mut i: usize = 0;
    while i < programs.len()
        invariant
            i <= programs.len(),
            tids@ == distinct_tids(programs@.take(i as int)),
            tids@.no_duplicates(),
        decreases programs.len() - i,
    {
        proof {
            let next = programs@.take(i as int + 1);
            assert(next.drop_last() == programs@.take(i as int));
            assert(next.last() == programs@[i as int]);
        }
        if !seen_tid(&tids, programs[i].tid) {
            tids.push(programs[i].tid);
        }
        i += 1;
    }
    proof {
        assert(programs@.take(programs.len() as int) == programs@);
    }
    tids
}

/// Tells whether some title of `titles` has the key `tid`.
fn title_known(titles: &Vec<CachedTitle>, tid: u32) -> (found: bool)
    ensures
        found == has_title(titles@, tid),
{
    let mut i: usize = 0;
    while i < titles.len()
        invariant
            i <= titles.len(),
            forall|j: int| 0 <= j < i ==> (#[trigger] titles@[j]).tid != tid,
        decreases titles.len() - i,
    {
        if titles[i].tid == tid {
            return true;
        }
        i += 1;
    }
    false
}

/// The referential guard: converts the programs whose title is among
/// `titles` to their cached form and drops the others.
pub fn programs_with_titles(programs: &[SyoboiProgram], titles: &Vec<CachedTitle>) -> (kept: Vec<
    CachedProgram,
>)
    ensures
        kept@ == programs_of_titles(programs@, titles@),
        kept@.len() <= programs@.len(),
{
    let mut kept: Vec<CachedProgram> = Vec::new();
    let mut i: usize = 0;
    while i < programs.len()
        invariant
            i <= programs.len(),
            kept@ == programs_of_titles(programs@.take(i as int), titles@),
            kept@.len() <= i,
        decreases programs.len() - i,
    {
        proof {
            let next = programs@.take(i as int + 1);
            assert(next.drop_last() == programs@.take(i as int));
            assert(next.last() == programs@[i as int]);
        }
        if title_known(titles, programs[i].tid) {
            kept.push(to_cached_program(&programs[i]));
        }
        i += 1;
    }
    proof {
        assert(programs@.take(programs.len() as int) == programs@);
    }
    kept
}

/// What a synchronisation run wrote.
#[derive(Debug, Clone, Copy, PartialEq, Eq, Structural)]
pub struct SyncReport {
    /// Number of titles handed to the cache.
    pub titles: usize,
    /// Number of title rows written.
    pub titles_changed: usize,
    /// Number of programs handed to the cache.
    pub programs: usize,
    /// Number of program rows written.
    pub programs_changed: usize,
    /// Number of programs dropped because their title is unknown.
    pub skipped: usize,
}

/// Merges what a run fetched into the cache: the titles first, then the
/// programs whose title is among them. Programs of unknown titles are
/// dropped and counted.
pub fn store_fetched(
    title_table: &mut TitleTable,
    program_table: &mut ProgramTable,
    titles: &Vec<SyoboiTitle>,
    programs: &[SyoboiProgram],
) -> (report: SyncReport)
    requires
        old(title_table).well_formed(),
        old(program_table).well_formed(),
    ensures
        final(title_table).well_formed(),
        final(program_table).well_formed(),
        final(title_table)@ == crate::db::titles::upserted_all(
            old(title_table)@,
            cached_titles(titles@),
        ),
        final(program_table)@ == crate::db::programs::upserted_all(
            old(program_table)@,
            programs_of_titles(programs@, cached_titles(titles@)),
        ),
        report.titles == titles@.len(),
        report.titles_changed == crate::db::titles::changes_of(
            old(title_table)@,
            cached_titles(titles@),
        ),
        report.programs == programs_of_titles(programs@, cached_titles(titles@)).len(),
        report.programs_changed == crate::db::programs::changes_of(
            old(program_table)@,
            programs_of_titles(programs@, cached_titles(titles@)),
        ),
        report.skipped == programs@.len() - report.programs,
{
    let mut cached: Vec<CachedTitle> = Vec::new();
    let mut i: usize = 0;
    while i < titles.len()
        invariant
            i <= titles.len(),
            cached@ == cached_titles(titles@.take(i as int)),
        decreases titles.len() - i,
    {
        cached.push(to_cached_title(&titles[i]));
        proof {
            assert(cached@ =~= cached_titles(titles@.take(i as int + 1)));
        }
        i += 1;
    }
    proof {
        assert(titles@.take(titles.len() as int) == titles@);
    }
    let titles_changed = upsert_titles(title_table, cached.as_slice());
    let kept = programs_with_titles(programs, &cached);
    let programs_changed = upsert_programs(program_table, kept.as_slice());
    SyncReport {
        titles: cached.len(),
        titles_changed,
        programs: kept.len(),
        programs_changed,
        skipped: programs.len() - kept.len(),
    }
}

} // verus!
