//! Building the viewer's rows and figures from the cached tables, and the
//! address of the page that belongs to what is under the cursor.

use std::collections::{HashMap, HashSet};
use vstd::prelude::*;
use vstd::string::*;

use super::state::{
    cursor_of, ActivePane, ProgramRow, TitleRow, TitleViewerState, ViewerStats,
};
use crate::db::channels::CachedChannel;
use crate::db::programs::CachedProgram;
use crate::db::titles::CachedTitle;
use crate::syoboi::client::SYOBOI_BASE_URL;
use crate::text::{decimal, decimal_text, push_char, sorts_before, text_precedes};

verus! {

broadcast use vstd::std_specs::hash::group_hash_axioms;

/// The name of the channel `ch_id` among `channels`, that of the last
/// channel with that key; `None` where there is none.
pub open spec fn channel_name(channels: Seq<CachedChannel>, ch_id: u32) -> Option<String>
    decreases channels.len(),
{
    if channels.len() == 0 {
        None
    } else if channels.last().ch_id == ch_id {
        Some(channels.last().ch_name)
    } else {
        channel_name(channels.drop_last(), ch_id)
    }
}

/// Whether `row` is the viewer's row of `program`: its columns, the name
/// of its channel (the channel key in base ten where the channel is not
/// cached), and for a subtitle the joined one before the program's own.
pub open spec fn is_row_of(row: ProgramRow, program: CachedProgram, channels: Seq<CachedChannel>) -> bool {
    &&& row.pid == program.pid
    &&& row.count == program.count
    &&& row.st_time == program.st_time
    &&& row.ch_name@ == match channel_name(channels, program.ch_id) {
        Some(name) => name@,
        None => decimal_text(program.ch_id as nat),
    }
    &&& row.flag == program.flag
    &&& row.duration_min == program.duration_min
    &&& row.sub_title == match program.st_sub_title {
        Some(sub) => Some(sub),
        None => program.sub_title,
    }
}

/// The programs of the title `tid`, in the order of `programs`.
pub open spec fn programs_of_title(programs: Seq<CachedProgram>, tid: u32) -> Seq<CachedProgram>
    decreases programs.len(),
{
    if programs.len() == 0 {
        Seq::empty()
    } else {
        let before = programs_of_title(programs.drop_last(), tid);
        if programs.last().tid == tid {
            before.push(programs.last())
        } else {
            before
        }
    }
}

/// Whether `rows` are the viewer's rows of `programs`, one for one.
pub open spec fn are_rows_of(
    rows: Seq<ProgramRow>,
    programs: Seq<CachedProgram>,
    channels: Seq<CachedChannel>,
) -> bool {
    rows.len() == programs.len() && forall|i: int|
        0 <= i < rows.len() ==> is_row_of(#[trigger] rows[i], programs[i], channels)
}

/// Whether `grouped` holds, for each title that has programs, the rows of
/// its programs, and nothing else.
pub open spec fn is_grouping_of(
    grouped: Map<u32, Vec<ProgramRow>>,
    programs: Seq<CachedProgram>,
    channels: Seq<CachedChannel>,
) -> bool {
    forall|tid: u32|
        #![trigger grouped.contains_key(tid)]
        #![trigger programs_of_title(programs, tid)]
        {
            &&& grouped.contains_key(tid) == (programs_of_title(programs, tid).len() > 0)
            &&& grouped.contains_key(tid) ==> are_rows_of(
                grouped[tid]@,
                programs_of_title(programs, tid),
                channels,
            )
        }
}

/// The channel keys of `programs`.
pub open spec fn channels_of(programs: Seq<CachedProgram>) -> Set<u32>
    decreases programs.len(),
{
    if programs.len() == 0 {
        Set::empty()
    } else {
        channels_of(programs.drop_last()).insert(programs.last().ch_id)
    }
}

/// The least start time of `programs` in the order of text.
pub open spec fn earliest_start(programs: Seq<CachedProgram>) -> Option<String>
    decreases programs.len(),
{
    if programs.len() == 0 {
        None
    } else {
        match earliest_start(programs.drop_last()) {
            None => Some(programs.last().st_time),
            Some(least) => if text_precedes(programs.last().st_time@, least@) {
                Some(programs.last().st_time)
            } else {
                Some(least)
            },
        }
    }
}

/// The greatest start time of `programs` in the order of text.
pub open spec fn latest_start(programs: Seq<CachedProgram>) -> Option<String>
    decreases programs.len(),
{
    if programs.len() == 0 {
        None
    } else {
        match latest_start(programs.drop_last()) {
            None => Some(programs.last().st_time),
            Some(greatest) => if text_precedes(programs.last().st_time@, greatest@) {
                Some(greatest)
            } else {
                Some(programs.last().st_time)
            },
        }
    }
}

/// Whether `row` is the viewer's row of `title`, with the number of its
/// programs.
pub open spec fn is_title_row(row: TitleRow, title: CachedTitle, programs: Seq<CachedProgram>) -> bool {
    &&& row.tid == title.tid
    &&& row.title == title.title
    &&& row.first_year == title.first_year
    &&& row.tmdb_series_id == title.tmdb_series_id
    &&& row.tmdb_season_number == title.tmdb_season_number
    &&& row.program_count == programs_of_title(programs, title.tid).len()
}

/// Looks up the name of the channel `ch_id`.
fn find_channel_name(channels: &[CachedChannel], ch_id: u32) -> (name: Option<String>)
    ensures
        name == channel_name(channels@, ch_id),
{
    let mut i: usize = channels.len();
    proof {
        assert(channels@.take(channels@.len() as int) == channels@);
    }
    while i > 0
        invariant
            i <= channels@.len(),
            channel_name(channels@, ch_id) == channel_name(channels@.take(i as int), ch_id),
        decreases i,
    {
        proof {
            let part = channels@.take(i as int);
            assert(part.last() == channels@[i - 1]);
            assert(part.drop_last() == channels@.take(i - 1));
        }
        if channels[i - 1].ch_id == ch_id {
            return Some(channels[i - 1].ch_name.clone());
        }
        i -= 1;
    }
    None
}

/// Builds the viewer's row of `program`.
pub fn program_row(program: &CachedProgram, channels: &[CachedChannel]) -> (row: ProgramRow)
    ensures
        is_row_of(row, *program, channels@),
{
    let ch_name = match find_channel_name(channels, program.ch_id) {
        Some(name) => name,
        None => decimal(program.ch_id as u64),
    };
    let sub_title = match &program.st_sub_title {
        Some(sub) => Some(sub.clone()),
        None => program.sub_title.clone(),
    };
    ProgramRow {
        pid: program.pid,
        count: program.count,
        st_time: program.st_time.clone(),
        ch_name,
        flag: program.flag,
        duration_min: program.duration_min,
        sub_title,
    }
}

/// Groups the rows of `programs` by title.
pub fn group_programs(programs: &[CachedProgram], channels: &[CachedChannel]) -> (grouped: HashMap<
    u32,
    Vec<ProgramRow>,
>)
    ensures
        is_grouping_of(grouped@, programs@, channels@),
{
    let mut grouped: HashMap<u32, Vec<ProgramRow>> = HashMap::new();
    let mut i: usize = 0;
    while i < programs.len()
        invariant
            i <= programs@.len(),
            is_grouping_of(grouped@, programs@.take(i as int), channels@),
        decreases programs@.len() - i,
    {
        let ghost part = programs@.take(i as int);
        let ghost next = programs@.take(i as int + 1);
        let ghost before = grouped@;
        proof {
            assert(next.drop_last() == part);
            assert(next.last() == programs@[i as int]);
        }
        let tid = programs[i].tid;
        let row = program_row(&programs[i], channels);
        let mut rows = match grouped.remove(&tid) {
            Some(rows) => rows,
            None => Vec::new(),
        };
        let ghost old_rows = rows@;
        proof {
            assert(before.contains_key(tid) == (programs_of_title(part, tid).len() > 0));
            if before.contains_key(tid) {
                assert(old_rows == before[tid]@);
            }
            assert(are_rows_of(old_rows, programs_of_title(part, tid), channels@));
        }
        rows.push(row);
        proof {
            assert(are_rows_of(rows@, programs_of_title(next, tid), channels@)) by {
                assert forall|k: int| 0 <= k < rows@.len() implies is_row_of(
                    #[trigger] rows@[k],
                    programs_of_title(next, tid)[k],
                    channels@,
                ) by {
                    if k < old_rows.len() {
                        assert(rows@[k] == old_rows[k]);
                    }
                }
            }
        }
        grouped.insert(tid, rows);
        proof {
            assert forall|t: u32|
                #![trigger grouped@.contains_key(t)]
                #![trigger programs_of_title(next, t)]
                {
                    &&& grouped@.contains_key(t) == (programs_of_title(next, t).len() > 0)
                    &&& grouped@.contains_key(t) ==> are_rows_of(
                        grouped@[t]@,
                        programs_of_title(next, t),
                        channels@,
                    )
                } by {
                if t != tid {
                    assert(before.contains_key(t) == (programs_of_title(part, t).len() > 0));
                    assert(programs_of_title(next, t) == programs_of_title(part, t));
                    if before.contains_key(t) {
                        assert(grouped@[t] == before[t]);
                    }
                }
            }
        }
        i += 1;
    }
    proof {
        assert(programs@.take(programs@.len() as int) == programs@);
    }
    grouped
}

/// Counts the channels that broadcast one of `programs`.
pub fn count_channels(programs: &[CachedProgram]) -> (count: usize)
    ensures
        count == channels_of(programs@).len(),
{
    let mut seen: HashSet<u32> = HashSet::new();
    let mut i: usize = 0;
    while i < programs.len()
        invariant
            i <= programs@.len(),
            seen@ == channels_of(programs@.take(i as int)),
        decreases programs@.len() - i,
    {
        proof {
            let next = programs@.take(i as int + 1);
            assert(next.drop_last() == programs@.take(i as int));
            assert(next.last() == programs@[i as int]);
        }
        seen.insert(programs[i].ch_id);
        i += 1;
    }
    proof {
        assert(programs@.take(programs@.len() as int) == programs@);
    }
    seen.len()
}

/// Finds the least and the greatest start time of `programs` in the order
/// of text.
pub fn start_span(programs: &[CachedProgram]) -> (span: (Option<String>, Option<String>))
    ensures
        span.0 == earliest_start(programs@),
        span.1 == latest_start(programs@),
{
    if programs.len() == 0 {
        return (None, None);
    }
    let mut least: usize = 0;
    let mut greatest: usize = 0;
    let mut i: usize = 1;
    proof {
        let one = programs@.take(1);
        assert(one.drop_last() == Seq::<CachedProgram>::empty());
        assert(one.last() == programs@[0]);
        assert(earliest_start(one.drop_last()) is None);
        assert(latest_start(one.drop_last()) is None);
    }
    while i < programs.len()
        invariant
            1 <= i <= programs@.len(),
            least < i,
            greatest < i,
            earliest_start(programs@.take(i as int)) == Some(programs@[least as int].st_time),
            latest_start(programs@.take(i as int)) == Some(programs@[greatest as int].st_time),
        decreases programs@.len() - i,
    {
        proof {
            let next = programs@.take(i as int + 1);
            assert(next.drop_last() == programs@.take(i as int));
            assert(next.last() == programs@[i as int]);
        }
        if sorts_before(programs[i].st_time.as_str(), programs[least].st_time.as_str()) {
            least = i;
        }
        if !sorts_before(programs[i].st_time.as_str(), programs[greatest].st_time.as_str()) {
            greatest = i;
        }
        i += 1;
    }
    proof {
        assert(programs@.take(programs@.len() as int) == programs@);
    }
    (Some(programs[least].st_time.clone()), Some(programs[greatest].st_time.clone()))
}

/// Counts the programs of the title `tid`.
fn count_programs(programs: &[CachedProgram], tid: u32) -> (count: usize)
    ensures
        count == programs_of_title(programs@, tid).len(),
{
    let mut count: usize = 0;
    let mut i: usize = 0;
    while i < programs.len()
        invariant
            i <= programs@.len(),
            count == programs_of_title(programs@.take(i as int), tid).len(),
            count <= i,
        decreases programs@.len() - i,
    {
        proof {
            let next = programs@.take(i as int + 1);
            assert(next.drop_last() == programs@.take(i as int));
            assert(next.last() == programs@[i as int]);
        }
        if programs[i].tid == tid {
            count += 1;
        }
        i += 1;
    }
    proof {
        assert(programs@.take(programs@.len() as int) == programs@);
    }
    count
}

/// Builds the state of the viewer from the cached tables: a row for each
/// title with the number of its programs, the rows of the programs by
/// title, and the figures of the header.
pub fn build_viewer_state(
    titles: &[CachedTitle],
    programs: &[CachedProgram],
    channels: &[CachedChannel],
) -> (state: TitleViewerState)
    ensures
        state.titles@.len() == titles@.len(),
        forall|i: int|
            0 <= i < titles@.len() ==> is_title_row(#[trigger] state.titles@[i], titles@[i], programs@),
        is_grouping_of(state.programs_by_tid@, programs@, channels@),
        state.stats.total_titles == titles@.len(),
        state.stats.total_programs == programs@.len(),
        state.stats.unique_channels == channels_of(programs@).len(),
        state.stats.oldest_st_time == earliest_start(programs@),
        state.stats.newest_st_time == latest_start(programs@),
        state.active_pane == ActivePane::Titles,
        state.title_selected == if titles@.len() == 0 {
            None
        } else {
            Some(0usize)
        },
        state.program_selected is None,
        state.filter@ == Seq::<char>::empty(),
        state.cache_current(),
{
    let grouped = group_programs(programs, channels);
    let span = start_span(programs);
    let stats = ViewerStats {
        total_titles: titles.len(),
        total_programs: programs.len(),
        unique_channels: count_channels(programs),
        oldest_st_time: span.0,
        newest_st_time: span.1,
    };
    let mut rows: Vec<TitleRow> = Vec::new();
    let mut i: usize = 0;
    while i < titles.len()
        invariant
            i <= titles@.len(),
            rows@.len() == i,
            forall|k: int| 0 <= k < i ==> is_title_row(#[trigger] rows@[k], titles@[k], programs@),
        decreases titles@.len() - i,
    {
        let title = &titles[i];
        rows.push(
            TitleRow {
                tid: title.tid,
                title: title.title.clone(),
                first_year: title.first_year,
                tmdb_series_id: title.tmdb_series_id,
                tmdb_season_number: title.tmdb_season_number,
                program_count: count_programs(programs, title.tid),
            },
        );
        i += 1;
    }
    TitleViewerState::new(rows, grouped, stats)
}

/// `text` without its hyphens.
pub open spec fn without_hyphens(text: Seq<char>) -> Seq<char>
    decreases text.len(),
{
    if text.len() == 0 {
        Seq::empty()
    } else if text.last() == '-' {
        without_hyphens(text.drop_last())
    } else {
        without_hyphens(text.drop_last()).push(text.last())
    }
}

/// Year and month of a start time as six digits: the first six characters
/// that are no hyphen; `None` where there are fewer.
pub open spec fn year_month(st_time: Seq<char>) -> Option<Seq<char>> {
    if without_hyphens(st_time).len() >= 6 {
        Some(without_hyphens(st_time).take(6))
    } else {
        None
    }
}

/// Reads year and month out of a start time.
pub fn year_month_of(st_time: &str) -> (digits: Option<String>)
    ensures
        match year_month(st_time@) {
            Some(expected) => digits matches Some(found) && found@ == expected,
            None => digits is None,
        },
{
    let count = st_time.unicode_len();
    let mut digits = String::new();
    let ghost mut kept: Seq<char> = Seq::empty();
    let mut taken: usize = 0;
    let mut i: usize = 0;
    while i < count
        invariant
            i <= count,
            count == st_time@.len(),
            kept == without_hyphens(st_time@.take(i as int)),
            taken <= 6,
            taken == if kept.len() < 6 {
                kept.len()
            } else {
                6
            },
            digits@ == kept.take(taken as int),
        decreases count - i,
    {
        proof {
            let next = st_time@.take(i as int + 1);
            assert(next.drop_last() == st_time@.take(i as int));
            assert(next.last() == st_time@[i as int]);
        }
        let c = st_time.get_char(i);
        if c != '-' {
            if taken < 6 {
                push_char(&mut digits, c);
                taken += 1;
                proof {
                    assert(digits@ =~= kept.push(c).take(taken as int));
                }
            } else {
                proof {
                    assert(kept.push(c).take(6) =~= kept.take(6));
                }
            }
            proof {
                kept = kept.push(c);
            }
        }
        i += 1;
    }
    proof {
        assert(st_time@.take(count as int) == st_time@);
    }
    if taken == 6 {
        Some(digits)
    } else {
        None
    }
}

/// The address of the page of what is under the cursor: the page of the
/// title in the title pane, the summary of the title for the month of the
/// program in the program pane. `None` where the cursor is on nothing, or
/// the start time of the program names no month.
pub open spec fn page_url(state: &TitleViewerState) -> Option<Seq<char>> {
    match state.current_index() {
        None => None,
        Some(index) => {
            let tid = decimal_text(state.titles@[index as int].tid as nat);
            match state.active_pane {
                ActivePane::Titles => Some(SYOBOI_BASE_URL@ + "/tid/"@ + tid),
                ActivePane::Programs => if cursor_of(state.program_selected)
                    < state.programs_shown().len() {
                    match year_month(
                        state.programs_shown()[cursor_of(state.program_selected) as int].st_time@,
                    ) {
                        Some(month) => Some(
                            SYOBOI_BASE_URL@ + "/tid/"@ + tid + "/summary/"@ + month,
                        ),
                        None => None,
                    }
                } else {
                    None
                },
            }
        },
    }
}

/// Builds the address of the page of what is under the cursor.
pub fn syoboi_page_url(state: &TitleViewerState) -> (url: Option<String>)
    ensures
        match page_url(state) {
            Some(expected) => url matches Some(found) && found@ == expected,
            None => url is None,
        },
{
    let title = match state.current_title() {
        Some(title) => title,
        None => {
            return None;
        },
    };
    let base = String::from_str(SYOBOI_BASE_URL).concat("/tid/").concat(
        decimal(title.tid as u64).as_str(),
    );
    match state.active_pane {
        ActivePane::Titles => Some(base),
        ActivePane::Programs => {
            let programs = state.current_programs();
            let cursor = state.program_cursor();
            if cursor >= programs.len() {
                return None;
            }
            match year_month_of(programs[cursor].st_time.as_str()) {
                Some(month) => Some(base.concat("/summary/").concat(month.as_str())),
                None => None,
            }
        },
    }
}

} // verus!
