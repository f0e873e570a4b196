//! Cursor-driven pagination of program lookups.

use std::collections::HashSet;
use vstd::prelude::*;
use vstd::string::*;

use super::api::LocalSyoboiApi;
use super::client::ApiError;
use super::params::{
    parse_time, parsed_time, CalendarTime, ProgLookupParams, TimeRange, FORMAT_SPACED,
};
use super::types::SyoboiProgram;
use crate::text::{
    decimal, decimal_text, lines, lines_of, parse_u32, sorts_before, text_precedes, trim, trimmed,
    unsigned_decimal,
};

verus! {

broadcast use vstd::std_specs::hash::group_hash_axioms;

/// Most programs that one lookup returns. An answer of this size means
/// that more may follow.
pub const PROG_LOOKUP_LIMIT: usize = 5000;

/// Why fetching all programs of a window failed.
#[derive(Debug)]
pub enum LookupError {
    /// The filters name no time window.
    RangeRequired,
    /// More pages were needed than the page counter can count.
    PageCounterOverflow,
    /// The lookup of one page failed.
    PageFailed { page: u32, range: String, source: ApiError },
    /// The latest start time of a full page is no timestamp.
    InvalidCursor { st_time: String },
}

/// What a page means for the pagination.
#[derive(Debug, Clone, Copy, PartialEq, Eq, Structural)]
pub enum PageOutcome {
    /// The page was full and the cursor moved on: another page is due.
    Continue,
    /// The page was short: everything is in.
    Complete,
    /// The page was full but its latest start time is not after the cursor:
    /// pagination ends with what has been collected.
    Stalled,
}

/// Whether some record of `programs` has the key `pid`.
pub open spec fn has_pid(programs: Seq<SyoboiProgram>, pid: u32) -> bool {
    exists|i: int| 0 <= i < programs.len() && (#[trigger] programs[i]).pid == pid
}

/// Whether no key occurs twice in `programs`.
pub open spec fn distinct_pids(programs: Seq<SyoboiProgram>) -> bool {
    forall|i: int, j: int|
        0 <= i < j < programs.len() ==> (#[trigger] programs[i]).pid != (#[trigger] programs[j]).pid
}

/// The keys that occur in `programs`.
pub open spec fn pid_set(programs: Seq<SyoboiProgram>) -> Set<u32> {
    Set::new(|pid: u32| has_pid(programs, pid))
}

/// `collected` followed by the records of `page` whose key occurs neither
/// in `collected` nor earlier in `page`, in the order of `page`.
pub open spec fn merged(collected: Seq<SyoboiProgram>, page: Seq<SyoboiProgram>) -> Seq<
    SyoboiProgram,
>
    decreases page.len(),
{
    if page.len() == 0 {
        collected
    } else {
        let before = merged(collected, page.drop_last());
        if has_pid(before, page.last().pid) {
            before
        } else {
            before.push(page.last())
        }
    }
}

/// `programs` with only the first record of each key kept.
pub open spec fn deduplicated(programs: Seq<SyoboiProgram>) -> Seq<SyoboiProgram> {
    merged(Seq::empty(), programs)
}

/// The greatest start time of `page` in the order of text; empty for an
/// empty page.
pub open spec fn latest_start(page: Seq<SyoboiProgram>) -> Seq<char>
    decreases page.len(),
{
    if page.len() == 0 {
        Seq::empty()
    } else if page.len() == 1 {
        page[0].st_time@
    } else {
        let earlier = latest_start(page.drop_last());
        if text_precedes(page.last().st_time@, earlier) {
            earlier
        } else {
            page.last().st_time@
        }
    }
}

/// What a page of `fetched` records means, once the text of its latest
/// start time has been read as `parsed`, for a pagination whose cursor
/// stands at `cursor`.
pub open spec fn page_verdict(fetched: nat, parsed: Option<CalendarTime>, cursor: CalendarTime) -> Option<
    PageOutcome,
> {
    if fetched < PROG_LOOKUP_LIMIT {
        Some(PageOutcome::Complete)
    } else {
        match parsed {
            None => None,
            Some(next) => if next.at_or_before(cursor) {
                Some(PageOutcome::Stalled)
            } else {
                Some(PageOutcome::Continue)
            },
        }
    }
}

/// `count` and `more` together, cut at the end of `usize`.
pub open spec fn counted(count: nat, more: nat) -> nat {
    if count + more <= usize::MAX {
        count + more
    } else {
        usize::MAX as nat
    }
}

/// Number of records in `pages`, duplicates included, cut at the end of
/// `usize`.
pub open spec fn fetched_in(pages: Seq<Seq<SyoboiProgram>>) -> nat
    decreases pages.len(),
{
    if pages.len() == 0 {
        0
    } else {
        counted(fetched_in(pages.drop_last()), pages.last().len())
    }
}

/// The records of `pages`, one page after another.
pub open spec fn concatenated(pages: Seq<Seq<SyoboiProgram>>) -> Seq<SyoboiProgram>
    decreases pages.len(),
{
    if pages.len() == 0 {
        Seq::empty()
    } else {
        concatenated(pages.drop_last()) + pages.last()
    }
}

/// What a pagination has collected once it has taken in `pages` one by one.
pub open spec fn collected_after(pages: Seq<Seq<SyoboiProgram>>) -> Seq<SyoboiProgram>
    decreases pages.len(),
{
    if pages.len() == 0 {
        Seq::empty()
    } else {
        merged(collected_after(pages.drop_last()), pages.last())
    }
}

/// What `page` means for a pagination whose cursor stands at `cursor`;
/// `None` where its latest start time is needed and is no timestamp.
pub open spec fn verdict_of(page: Seq<SyoboiProgram>, cursor: CalendarTime) -> Option<PageOutcome> {
    page_verdict(page.len(), parsed_time(latest_start(page), FORMAT_SPACED@), cursor)
}

/// Where the cursor stands after `pages`, each of which was full and moved
/// it on; `None` where one of them did not.
pub open spec fn cursor_after(start: CalendarTime, pages: Seq<Seq<SyoboiProgram>>) -> Option<
    CalendarTime,
>
    decreases pages.len(),
{
    if pages.len() == 0 {
        Some(start)
    } else {
        match cursor_after(start, pages.drop_last()) {
            None => None,
            Some(cursor) => if verdict_of(pages.last(), cursor) == Some(PageOutcome::Continue) {
                parsed_time(latest_start(pages.last()), FORMAT_SPACED@)
            } else {
                None
            },
        }
    }
}

/// Whether `pages` are the answers of one whole pagination from `start`:
/// each but the last was full and moved the cursor on, and the last was
/// short or stalled.
pub open spec fn complete_run(start: CalendarTime, pages: Seq<Seq<SyoboiProgram>>) -> bool {
    pages.len() > 0 && match cursor_after(start, pages.drop_last()) {
        None => false,
        Some(cursor) => verdict_of(pages.last(), cursor) == Some(PageOutcome::Complete)
            || verdict_of(pages.last(), cursor) == Some(PageOutcome::Stalled),
    }
}

/// The state of a pagination as contracts see it.
pub struct PagerView {
    /// The filters that every request carries; their window is not used.
    pub filters: ProgLookupParams,
    /// Start of the window of the next request.
    pub cursor: CalendarTime,
    /// End of the window of every request.
    pub end: CalendarTime,
    /// The records collected so far, deduplicated.
    pub programs: Seq<SyoboiProgram>,
    /// Number of pages begun.
    pub pages: nat,
    /// Number of records received, duplicates included.
    pub fetched: nat,
}

/// A pagination over one time window: the cursor, the records collected so
/// far and the keys seen.
pub struct ProgramPager {
    filters: ProgLookupParams,
    end: CalendarTime,
    cursor: CalendarTime,
    programs: Vec<SyoboiProgram>,
    seen: HashSet<u32>,
    pages: u32,
    fetched: usize,
}

impl View for ProgramPager {
    type V = PagerView;

    closed spec fn view(&self) -> PagerView {
        PagerView {
            filters: self.filters,
            cursor: self.cursor,
            end: self.end,
            programs: self.programs@,
            pages: self.pages as nat,
            fetched: self.fetched as nat,
        }
    }
}

impl LookupError {
    /// The message that describes this error.
    pub open spec fn message(self) -> Seq<char> {
        match self {
            LookupError::RangeRequired => "ProgLookupParams.range is required for pagination"@,
            LookupError::PageCounterOverflow => "page counter overflow"@,
            LookupError::PageFailed { page, range, source } => "ProgLookup failed on page "@
                + decimal_text(page as nat) + " (range: "@ + range@ + ")"@,
            LookupError::InvalidCursor { st_time } => "invalid StTime for cursor: "@ + st_time@,
        }
    }

    /// Renders the error as text.
    pub fn to_string(&self) -> (text: String)
        ensures
            text@ == self.message(),
    {
        match self {
            LookupError::RangeRequired => String::from_str(
                "ProgLookupParams.range is required for pagination",
            ),
            LookupError::PageCounterOverflow => String::from_str("page counter overflow"),
            LookupError::PageFailed { page, range, source } => String::from_str(
                "ProgLookup failed on page ",
            ).concat(decimal(*page as u64).as_str()).concat(" (range: ").concat(range.as_str())
                .concat(")"),
            LookupError::InvalidCursor { st_time } => String::from_str(
                "invalid StTime for cursor: ",
            ).concat(st_time.as_str()),
        }
    }
}

/// Finds the greatest start time of `page` in the order of text. The whole
/// page is scanned: the service does not order its answers.
pub fn latest_start_time(page: &Vec<SyoboiProgram>) -> (latest: Option<String>)
    ensures
        page.len() == 0 ==> latest is None,
        page.len() > 0 ==> (latest matches Some(text) && text@ == latest_start(page@)),
{
    if page.len() == 0 {
        return None;
    }
    let mut best: usize = 0;
    let mut i: usize = 1;
    proof {
        assert(page@.take(1).len() == 1);
        assert(page@.take(1)[0] == page@[0]);
    }
    while i < page.len()
        invariant
            1 <= i <= page.len(),
            best < i,
            page@[best as int].st_time@ == latest_start(page@.take(i as int)),
        decreases page.len() - i,
    {
        proof {
            let next = page@.take(i as int + 1);
            assert(next.drop_last() == page@.take(i as int));
            assert(next.last() == page@[i as int]);
        }
        if !sorts_before(page[i].st_time.as_str(), page[best].st_time.as_str()) {
            best = i;
        }
        i += 1;
    }
    proof {
        assert(page@.take(page.len() as int) == page@);
    }
    Some(page[best].st_time.clone())
}

impl ProgramPager {
    /// Whether the keys seen are those of the records collected, no key
    /// was collected twice, and the cursor and the end of the window name
    /// calendar times.
    pub closed spec fn well_formed(&self) -> bool {
        &&& self.seen@ == pid_set(self.programs@)
        &&& distinct_pids(self.programs@)
        &&& self.cursor.well_formed()
        &&& self.end.well_formed()
    }

    /// In a well-formed pagination no key was collected twice, and the
    /// cursor and the end of the window name calendar times.
    pub proof fn lemma_well_formed(&self)
        requires
            self.well_formed(),
        ensures
            distinct_pids(self@.programs),
            self@.cursor.well_formed(),
            self@.end.well_formed(),
    {
    }

    /// Starts a pagination over the window of `params`, with the cursor at
    /// the start of the window. Fails where `params` names no window.
    pub fn start(params: &ProgLookupParams) -> (pager: Result<ProgramPager, LookupError>)
        requires
            params.well_formed(),
        ensures
            match params.range {
                Some(range) => pager matches Ok(p) && p.well_formed() && p@ == (PagerView {
                    filters: p@.filters,
                    cursor: range.start,
                    end: range.end,
                    programs: Seq::empty(),
                    pages: 0,
                    fetched: 0,
                }) && p@.filters.same_filters(*params),
                None => pager matches Err(LookupError::RangeRequired),
            },
    {
        match params.range {
            None => Err(LookupError::RangeRequired),
            Some(range) => {
                let pager = ProgramPager {
                    filters: params.clone(),
                    end: range.end,
                    cursor: range.start,
                    programs: Vec::new(),
                    seen: HashSet::new(),
                    pages: 0,
                    fetched: 0,
                };
                proof {
                    assert(pager.seen@ =~= pid_set(pager.programs@));
                }
                Ok(pager)
            },
        }
    }

    /// Counts one more page. Fails where the counter is at its end.
    pub fn begin_page(&mut self) -> (begun: Result<u32, LookupError>)
        requires
            old(self).well_formed(),
        ensures
            final(self).well_formed(),
            old(self)@.pages < u32::MAX ==> begun == Ok::<u32, LookupError>(
                (old(self)@.pages + 1) as u32,
            ) && final(self)@ == (PagerView { pages: (old(self)@.pages + 1) as nat, ..old(self)@ }),
            old(self)@.pages >= u32::MAX ==> begun is Err && begun->Err_0
                is PageCounterOverflow && final(self)@ == old(self)@,
    {
        if self.pages == u32::MAX {
            return Err(LookupError::PageCounterOverflow);
        }
        self.pages = self.pages + 1;
        Ok(self.pages)
    }

    /// The filters of the next request: those the pagination was started
    /// with, over the window from the cursor to the end.
    pub fn request(&self) -> (params: ProgLookupParams)
        requires
            self.well_formed(),
        ensures
            params.range == Some(TimeRange { start: self@.cursor, end: self@.end }),
            params.same_filters(self@.filters),
            params.well_formed(),
    {
        let mut params = self.filters.clone();
        params.range = Some(TimeRange::new(self.cursor, self.end));
        params
    }

    /// Adds the records of `page` whose key has not been seen, in the order
    /// of the page, and counts the page's records.
    pub fn collect(&mut self, page: &Vec<SyoboiProgram>)
        requires
            old(self).well_formed(),
        ensures
            final(self).well_formed(),
            final(self)@ == (PagerView {
                programs: merged(old(self)@.programs, page@),
                fetched: counted(old(self)@.fetched, page@.len()),
                ..old(self)@
            }),
    {
        let mut i: usize = 0;
        while i < page.len()
            invariant
                i <= page.len(),
                self.well_formed(),
                self@ == (PagerView {
                    programs: merged(old(self)@.programs, page@.take(i as int)),
                    ..old(self)@
                }),
            decreases page.len() - i,
        {
            proof {
                let next = page@.take(i as int + 1);
                assert(next.drop_last() == page@.take(i as int));
                assert(next.last() == page@[i as int]);
            }
            let ghost before = self.programs@;
            let ghost seen_before = self.seen@;
            let fresh = self.seen.insert(page[i].pid);
            proof {
                assert(fresh == !has_pid(before, page@[i as int].pid));
                if !fresh {
                    assert(self.seen@ =~= seen_before);
                }
            }
            if fresh {
                self.programs.push(page[i].clone());
                proof {
                    let after = self.programs@;
                    assert(distinct_pids(after)) by {
                        assert forall|a: int, b: int| 0 <= a < b < after.len() implies after[a].pid
                            != after[b].pid by {
                            if b < before.len() {
                                assert(before[a].pid != before[b].pid);
                            } else {
                                assert(before[a].pid == after[a].pid);
                            }
                        }
                    }
                    assert(self.seen@ =~= pid_set(after)) by {
                        assert forall|pid: u32| has_pid(after, pid) implies has_pid(before, pid)
                            || pid == page@[i as int].pid by {
                            let k = choose|k: int| 0 <= k < after.len() && after[k].pid == pid;
                            if k < before.len() {
                                assert(before[k].pid == pid);
                            }
                        }
                        assert forall|pid: u32| has_pid(before, pid) implies has_pid(
                            after,
                            pid,
                        ) by {
                            let k = choose|k: int| 0 <= k < before.len() && before[k].pid == pid;
                            assert(after[k].pid == pid);
                        }
                        assert(after[before.len() as int].pid == page@[i as int].pid);
                    }
                }
            }
            i += 1;
        }
        proof {
            assert(page@.take(page.len() as int) == page@);
        }
        self.fetched = self.fetched.saturating_add(page.len());
    }

    /// Decides what a page of `fetched` records means, given the text of
    /// its latest start time and what that text holds as a timestamp. A
    /// short page completes the pagination. A full page moves the cursor to
    /// its latest start time; where that is not after the cursor the
    /// pagination stalls, and where the text is no timestamp it fails.
    pub fn advance_cursor(&mut self, fetched: usize, st_time: &str, parsed: Option<CalendarTime>) -> (outcome:
        Result<PageOutcome, LookupError>)
        requires
            parsed matches Some(time) ==> time.well_formed(),
        ensures
            old(self).well_formed() ==> final(self).well_formed(),
            match page_verdict(fetched as nat, parsed, old(self)@.cursor) {
                Some(PageOutcome::Continue) => outcome == Ok::<PageOutcome, LookupError>(
                    PageOutcome::Continue,
                ) && final(self)@ == (PagerView { cursor: parsed->0, ..old(self)@ }),
                Some(verdict) => outcome == Ok::<PageOutcome, LookupError>(verdict) && final(self)@ == old(self)@,
                None => outcome matches Err(LookupError::InvalidCursor { st_time: bad }) && bad@
                    == st_time@ && final(self)@ == old(self)@,
            },
    {
        if fetched < PROG_LOOKUP_LIMIT {
            return Ok(PageOutcome::Complete);
        }
        match parsed {
            None => Err(LookupError::InvalidCursor { st_time: String::from_str(st_time) }),
            Some(next) => {
                if next.is_at_or_before(&self.cursor) {
                    Ok(PageOutcome::Stalled)
                } else {
                    self.cursor = next;
                    Ok(PageOutcome::Continue)
                }
            },
        }
    }

    /// Takes in one page: collects its new records, then decides from its
    /// size and its latest start time whether another page is due.
    pub fn absorb(&mut self, page: &Vec<SyoboiProgram>) -> (outcome: Result<
        PageOutcome,
        LookupError,
    >)
        requires
            old(self).well_formed(),
        ensures
            final(self).well_formed(),
            final(self)@.filters == old(self)@.filters,
            final(self)@.programs == merged(old(self)@.programs, page@),
            final(self)@.pages == old(self)@.pages,
            final(self)@.end == old(self)@.end,
            final(self)@.fetched == counted(old(self)@.fetched, page@.len()),
            match page_verdict(
                page.len() as nat,
                parsed_time(latest_start(page@), FORMAT_SPACED@),
                old(self)@.cursor,
            ) {
                Some(PageOutcome::Continue) => outcome == Ok::<PageOutcome, LookupError>(
                    PageOutcome::Continue,
                ) && Some(final(self)@.cursor) == parsed_time(
                    latest_start(page@),
                    FORMAT_SPACED@,
                ),
                Some(verdict) => outcome == Ok::<PageOutcome, LookupError>(verdict) && final(self)@.cursor == old(self)@.cursor,
                None => outcome matches Err(LookupError::InvalidCursor { st_time: bad }) && bad@
                    == latest_start(page@) && final(self)@.cursor == old(self)@.cursor,
            },
    {
        let fetched = page.len();
        self.collect(page);
        if fetched < PROG_LOOKUP_LIMIT {
            return self.advance_cursor(fetched, "", None);
        }
        match latest_start_time(page) {
            None => self.advance_cursor(fetched, "", None),
            Some(st_time) => {
                let parsed = match parse_time(st_time.as_str(), FORMAT_SPACED) {
                    Ok(time) => Some(time),
                    Err(_) => None,
                };
                self.advance_cursor(fetched, st_time.as_str(), parsed)
            },
        }
    }

    /// Number of pages begun.
    pub fn page_count(&self) -> (pages: u32)
        ensures
            pages == self@.pages,
    {
        self.pages
    }

    /// Number of records received, duplicates included (at most
    /// `usize::MAX`).
    pub fn total_fetched(&self) -> (fetched: usize)
        ensures
            fetched == self@.fetched,
    {
        self.fetched
    }

    /// Hands out the records collected.
    pub fn into_programs(self) -> (programs: Vec<SyoboiProgram>)
        ensures
            programs@ == self@.programs,
    {
        self.programs
    }
}

/// The pattern of one line of raw episode subtitles: an episode number
/// between two asterisks, then the subtitle.
pub const SUB_TITLE_PATTERN: &'static str = r"\*(\d+)\*(.+)";

/// A compiled regular expression of the regex crate.
#[verifier::external_type_specification]
#[verifier::external_body]
pub struct ExRegex(regex::Regex);

/// The error of compiling a regular expression.
#[verifier::external_type_specification]
#[verifier::external_body]
pub struct ExRegexError(regex::Error);

/// The expression that `pattern` compiles to, if it compiles: the result of
/// `Regex::new`.
pub uninterp spec fn compiled_pattern(pattern: Seq<char>) -> Option<regex::Regex>;

/// The capture groups of the leftmost match of `regex` in `text`, the whole
/// match first, a group that took no part as `None`; `None` where `regex`
/// matches nowhere: the result of `Regex::captures`.
pub uninterp spec fn captured(regex: regex::Regex, text: Seq<char>) -> Option<
    Seq<Option<Seq<char>>>,
>;

/// The characters of each group of a match.
pub open spec fn group_texts(groups: Option<Vec<Option<String>>>) -> Option<
    Seq<Option<Seq<char>>>,
> {
    match groups {
        None => None,
        Some(all) => Some(
            all@.map_values(
                |g: Option<String>|
                    match g {
                        Some(t) => Some(t@),
                        None => None,
                    },
            ),
        ),
    }
}

/// Compiles `pattern`.
///
/// Trusted: returns what `Regex::new` returns, under the name
/// `compiled_pattern`. Nothing is claimed of which patterns compile.
#[verifier::external_body]
fn compile_pattern(pattern: &str) -> (compiled: Result<regex::Regex, regex::Error>)
    ensures
        compiled is Ok <==> compiled_pattern(pattern@) is Some,
        compiled matches Ok(regex) ==> compiled_pattern(pattern@) == Some(regex),
{
    regex::Regex::new(pattern)
}

/// Finds the leftmost match of `regex` in `text` and copies its groups.
///
/// Trusted: calls `Regex::captures` and copies the text of each group that
/// `Captures::iter` yields, under the name `captured`.
#[verifier::external_body]
fn capture_groups(regex: &regex::Regex, text: &str) -> (groups: Option<Vec<Option<String>>>)
    ensures
        group_texts(groups) == captured(*regex, text@),
{
    regex.captures(text).map(|c| c.iter().map(|m| m.map(|m| m.as_str().to_owned())).collect())
}

/// The episode that the groups of a matched line name: the number that the
/// first group writes and the text of the second. `None` where the line
/// did not match, a group is missing, or the number is no `u32`.
pub open spec fn sub_title_of_groups(groups: Option<Seq<Option<Seq<char>>>>) -> Option<
    (u32, Seq<char>),
> {
    match groups {
        None => None,
        Some(all) => if all.len() > 2 && all[1] is Some && all[2] is Some {
            match unsigned_decimal(all[1]->0) {
                Some(n) => if n <= u32::MAX {
                    Some((n as u32, all[2]->0))
                } else {
                    None
                },
                None => None,
            }
        } else {
            None
        },
    }
}

/// The episodes that `lines` name by the line pattern `regex`, in order;
/// lines that name none are passed over.
pub open spec fn sub_titles_of_lines(regex: regex::Regex, lines: Seq<Seq<char>>) -> Seq<
    (u32, Seq<char>),
>
    decreases lines.len(),
{
    if lines.len() == 0 {
        Seq::empty()
    } else {
        let before = sub_titles_of_lines(regex, lines.drop_last());
        match sub_title_of_groups(captured(regex, trimmed(lines.last()))) {
            Some(entry) => before.push(entry),
            None => before,
        }
    }
}

/// The number and text of each episode of a list.
pub open spec fn sub_title_views(entries: Seq<(u32, String)>) -> Seq<(u32, Seq<char>)> {
    entries.map_values(|e: (u32, String)| (e.0, e.1@))
}

/// Reads the episode that the groups of a matched line name.
pub fn sub_title_from_groups(groups: &Option<Vec<Option<String>>>) -> (entry: Option<
    (u32, String),
>)
    ensures
        match sub_title_of_groups(group_texts(*groups)) {
            Some(e) => entry matches Some(found) && found.0 == e.0 && found.1@ == e.1,
            None => entry is None,
        },
{
    match groups {
        None => None,
        Some(all) => {
            if all.len() <= 2 {
                return None;
            }
            match (&all[1], &all[2]) {
                (Some(number), Some(text)) => match parse_u32(number.as_str()) {
                    Some(count) => Some((count, text.clone())),
                    None => None,
                },
                _ => None,
            }
        },
    }
}

/// Reads the episode numbers and subtitles out of raw subtitle text, one
/// `*NN*text` entry per line. Lines that hold no entry, or whose number is
/// no `u32`, are passed over. (Were the line pattern not to compile, no
/// entry would be read.)
pub fn parse_sub_titles(raw: &str) -> (entries: Vec<(u32, String)>)
    ensures
        match compiled_pattern(SUB_TITLE_PATTERN@) {
            Some(regex) => sub_title_views(entries@) == sub_titles_of_lines(
                regex,
                lines_of(raw@),
            ),
            None => entries@.len() == 0,
        },
{
    let mut entries: Vec<(u32, String)> = Vec::new();
    let regex = match compile_pattern(SUB_TITLE_PATTERN) {
        Ok(regex) => regex,
        Err(_) => {
            return entries;
        },
    };
    let all = lines(raw);
    let ghost texts = lines_of(raw@);
    let mut i: usize = 0;
    while i < all.len()
        invariant
            i <= all.len(),
            all.len() == texts.len(),
            forall|k: int| 0 <= k < all.len() ==> (#[trigger] all[k])@ == texts[k],
            compiled_pattern(SUB_TITLE_PATTERN@) == Some(regex),
            sub_title_views(entries@) == sub_titles_of_lines(regex, texts.take(i as int)),
        decreases all.len() - i,
    {
        proof {
            let next = texts.take(i as int + 1);
            assert(next.drop_last() == texts.take(i as int));
            assert(next.last() == texts[i as int]);
        }
        let groups = capture_groups(&regex, trim(all[i]));
        let ghost before = entries@;
        match sub_title_from_groups(&groups) {
            Some(entry) => {
                entries.push(entry);
                proof {
                    assert(sub_title_views(entries@) =~= sub_title_views(before).push(
                        (entry.0, entry.1@),
                    ));
                }
            },
            None => {},
        }
        i += 1;
    }
    proof {
        assert(texts.take(all.len() as int) == texts);
    }
    entries
}

/// What a pagination fetched.
#[derive(Debug)]
pub struct FetchedPrograms {
    /// The records, deduplicated by key.
    pub programs: Vec<SyoboiProgram>,
    /// Number of pages looked up.
    pub pages: u32,
    /// Number of records received, duplicates included (at most
    /// `usize::MAX`).
    pub fetched: usize,
}

/// Whether `fetched` is what a pagination from `start` collects from the
/// answers `pages`: they are one whole run, and the records, the number of
/// pages and the number of records received are theirs.
pub open spec fn is_fetch_of(
    fetched: FetchedPrograms,
    start: CalendarTime,
    pages: Seq<Seq<SyoboiProgram>>,
) -> bool {
    &&& complete_run(start, pages)
    &&& fetched.programs@ == collected_after(pages)
    &&& fetched.pages == pages.len()
    &&& fetched.fetched == fetched_in(pages)
}

/// Fetches every program of the window of `params`, page by page, and
/// counts the pages and the records received. Each request covers the
/// window from the cursor to the end; a full page moves the cursor to its
/// latest start time. Records are deduplicated by key, the first occurrence
/// kept.
///
/// Fails where `params` names no window, where a lookup fails, where the
/// latest start time of a full page is no timestamp, and where the page
/// counter overflows. Whatever the service answers, what is returned is
/// what was collected from one whole run of answers.
pub fn fetch_all_programs<A: LocalSyoboiApi>(api: &mut A, params: &ProgLookupParams) -> (result:
    Result<FetchedPrograms, LookupError>)
    requires
        params.well_formed(),
    ensures
        params.range is None <==> (result is Err && result->Err_0 is RangeRequired),
        result matches Ok(fetched) ==> distinct_pids(fetched.programs@) && exists|
            pages: Seq<Seq<SyoboiProgram>>,
        | #[trigger] is_fetch_of(fetched, params.range->0.start, pages),
{
    let mut pager = match ProgramPager::start(params) {
        Ok(pager) => pager,
        Err(e) => {
            return Err(e);
        },
    };
    let ghost start = params.range->0.start;
    let ghost mut served: Seq<Seq<SyoboiProgram>> = Seq::empty();
    loop
        invariant
            pager.well_formed(),
            params.range is Some,
            start == params.range->0.start,
            cursor_after(start, served) == Some(pager@.cursor),
            pager@.programs == collected_after(served),
            pager@.pages == served.len(),
            pager@.fetched == fetched_in(served),
        decreases u32::MAX - pager@.pages,
    {
        let page_number = match pager.begin_page() {
            Ok(n) => n,
            Err(e) => {
                return Err(e);
            },
        };
        let request = pager.request();
        let page = match api.lookup_programs(&request) {
            Ok(page) => page,
            Err(source) => {
                let range = TimeRange::new(pager.cursor, pager.end).to_syoboi_format();
                return Err(LookupError::PageFailed { page: page_number, range, source });
            },
        };
        let outcome = match pager.absorb(&page) {
            Ok(outcome) => outcome,
            Err(e) => {
                return Err(e);
            },
        };
        proof {
            let next = served.push(page@);
            assert(next.drop_last() == served);
            assert(next.last() == page@);
            served = next;
        }
        match outcome {
            PageOutcome::Continue => {},
            _ => {
                proof {
                    assert(served.drop_last().push(page@) == served);
                    lemma_collected_distinct(served);
                }
                let pages = pager.page_count();
                let fetched = pager.total_fetched();
                let result = FetchedPrograms { programs: pager.into_programs(), pages, fetched };
                proof {
                    assert(is_fetch_of(result, start, served));
                }
                return Ok(result);
            },
        }
    }
}

/// Fetches every program of the window of `params`, page by page, and
/// returns the records, deduplicated by key. Fails as
/// [`fetch_all_programs`] does.
pub fn lookup_all_programs<A: LocalSyoboiApi>(api: &mut A, params: &ProgLookupParams) -> (result:
    Result<Vec<SyoboiProgram>, LookupError>)
    requires
        params.well_formed(),
    ensures
        params.range is None <==> (result is Err && result->Err_0 is RangeRequired),
        result matches Ok(programs) ==> distinct_pids(programs@) && exists|
            pages: Seq<Seq<SyoboiProgram>>,
        |
            complete_run(params.range->0.start, pages) && programs@ == #[trigger] collected_after(
                pages,
            ),
{
    match fetch_all_programs(api, params) {
        Ok(fetched) => {
            proof {
                let pages = choose|pages: Seq<Seq<SyoboiProgram>>|
                    #[trigger] is_fetch_of(fetched, params.range->0.start, pages);
                assert(complete_run(params.range->0.start, pages) && fetched.programs@
                    == collected_after(pages));
            }
            Ok(fetched.programs)
        },
        Err(e) => Err(e),
    }
}

/// Merging keeps keys apart: where no key occurs twice in `collected`, none
/// does after `page` has been merged in, and the keys are those of both.
pub proof fn lemma_merged_distinct(collected: Seq<SyoboiProgram>, page: Seq<SyoboiProgram>)
    requires
        distinct_pids(collected),
    ensures
        distinct_pids(merged(collected, page)),
        pid_set(merged(collected, page)) == pid_set(collected + page),
    decreases page.len(),
{
    if page.len() == 0 {
        assert(collected + page == collected);
    } else {
        let front = page.drop_last();
        let before = merged(collected, front);
        let after = merged(collected, page);
        lemma_merged_distinct(collected, front);
        assert(front.push(page.last()) == page);
        assert(collected + page == (collected + front).push(page.last()));
        lemma_pid_set_push(collected + front, page.last());
        if has_pid(before, page.last().pid) {
            assert(pid_set(before).contains(page.last().pid));
            assert(pid_set(before).insert(page.last().pid) =~= pid_set(before));
        } else {
            lemma_pid_set_push(before, page.last());
            assert forall|a: int, b: int| 0 <= a < b < after.len() implies after[a].pid
                != after[b].pid by {
                if b < before.len() {
                    assert(before[a].pid != before[b].pid);
                } else {
                    assert(before[a].pid == after[a].pid);
                }
            }
        }
    }
}

/// The keys of a sequence with one more record are its keys and that
/// record's key.
pub proof fn lemma_pid_set_push(programs: Seq<SyoboiProgram>, last: SyoboiProgram)
    ensures
        pid_set(programs.push(last)) == pid_set(programs).insert(last.pid),
{
    let longer = programs.push(last);
    assert forall|pid: u32| pid_set(longer).contains(pid) == pid_set(programs).insert(
        last.pid,
    ).contains(pid) by {
        if has_pid(longer, pid) {
            let k = choose|k: int| 0 <= k < longer.len() && longer[k].pid == pid;
            if k < programs.len() {
                assert(programs[k].pid == pid);
            }
        }
        if has_pid(programs, pid) {
            let k = choose|k: int| 0 <= k < programs.len() && programs[k].pid == pid;
            assert(longer[k].pid == pid);
        }
        if pid == last.pid {
            assert(longer[programs.len() as int].pid == pid);
        }
    }
    assert(pid_set(longer) =~= pid_set(programs).insert(last.pid));
}

/// A sequence without a repeated key has as many records as keys.
pub proof fn lemma_distinct_count(programs: Seq<SyoboiProgram>)
    requires
        distinct_pids(programs),
    ensures
        pid_set(programs).finite(),
        pid_set(programs).len() == programs.len(),
    decreases programs.len(),
{
    if programs.len() == 0 {
        assert(pid_set(programs) =~= Set::<u32>::empty());
    } else {
        let front = programs.drop_last();
        assert(front.push(programs.last()) == programs);
        lemma_distinct_count(front);
        lemma_pid_set_push(front, programs.last());
        if has_pid(front, programs.last().pid) {
            let k = choose|k: int| 0 <= k < front.len() && front[k].pid == programs.last().pid;
            assert(programs[k].pid == programs[programs.len() - 1].pid);
        }
    }
}

/// Merging a page and then another is merging the two in one go.
pub proof fn lemma_merged_twice(
    collected: Seq<SyoboiProgram>,
    first: Seq<SyoboiProgram>,
    second: Seq<SyoboiProgram>,
)
    ensures
        merged(merged(collected, first), second) == merged(collected, first + second),
    decreases second.len(),
{
    if second.len() == 0 {
        assert(first + second == first);
    } else {
        lemma_merged_twice(collected, first, second.drop_last());
        assert((first + second).drop_last() == first + second.drop_last());
        assert((first + second).last() == second.last());
    }
}

/// What a pagination collects page by page has no repeated key.
pub proof fn lemma_collected_distinct(pages: Seq<Seq<SyoboiProgram>>)
    ensures
        distinct_pids(collected_after(pages)),
    decreases pages.len(),
{
    if pages.len() > 0 {
        lemma_collected_distinct(pages.drop_last());
        lemma_merged_distinct(collected_after(pages.drop_last()), pages.last());
    }
}

/// Completeness and deduplication of a pagination: whatever pages the
/// service answers with, what has been collected after taking them in one
/// by one is the deduplicated union of their records. No key is repeated,
/// and there are as many records as there are distinct keys over all
/// pages.
pub proof fn lemma_pagination_returns_deduplicated_union(pages: Seq<Seq<SyoboiProgram>>)
    ensures
        collected_after(pages) == deduplicated(concatenated(pages)),
        distinct_pids(collected_after(pages)),
        pid_set(collected_after(pages)) == pid_set(concatenated(pages)),
        pid_set(concatenated(pages)).finite(),
        collected_after(pages).len() == pid_set(concatenated(pages)).len(),
    decreases pages.len(),
{
    if pages.len() > 0 {
        lemma_pagination_returns_deduplicated_union(pages.drop_last());
        lemma_merged_twice(Seq::empty(), concatenated(pages.drop_last()), pages.last());
    }
    lemma_collected_distinct(pages);
    lemma_merged_distinct(Seq::empty(), concatenated(pages));
    assert(Seq::<SyoboiProgram>::empty() + concatenated(pages) == concatenated(pages));
    lemma_distinct_count(collected_after(pages));
}

/// The latest start time of a page whose records all start at `st_time` is
/// `st_time`.
pub proof fn lemma_latest_start_of_uniform_page(page: Seq<SyoboiProgram>, st_time: Seq<char>)
    requires
        page.len() > 0,
        forall|i: int| 0 <= i < page.len() ==> (#[trigger] page[i]).st_time@ == st_time,
    ensures
        latest_start(page) == st_time,
    decreases page.len(),
{
    if page.len() > 1 {
        lemma_latest_start_of_uniform_page(page.drop_last(), st_time);
    }
}

/// Stall termination: a full page whose records all share one start time,
/// at or before the cursor, ends the pagination with that single page, and
/// what is returned is the page deduplicated.
pub proof fn lemma_uniform_full_page_stalls(
    cursor: CalendarTime,
    page: Seq<SyoboiProgram>,
    st_time: Seq<char>,
)
    requires
        page.len() == PROG_LOOKUP_LIMIT,
        forall|i: int| 0 <= i < page.len() ==> (#[trigger] page[i]).st_time@ == st_time,
        parsed_time(st_time, FORMAT_SPACED@) matches Some(time) && time.at_or_before(cursor),
    ensures
        verdict_of(page, cursor) == Some(PageOutcome::Stalled),
        complete_run(cursor, seq![page]),
        collected_after(seq![page]) == deduplicated(page),
{
    lemma_latest_start_of_uniform_page(page, st_time);
    let pages = seq![page];
    assert(pages.drop_last() == Seq::<Seq<SyoboiProgram>>::empty());
    assert(pages.last() == page);
    assert(collected_after(pages.drop_last()) == Seq::<SyoboiProgram>::empty());
    assert(collected_after(pages) == merged(collected_after(pages.drop_last()), pages.last()));
}

} // verus!
