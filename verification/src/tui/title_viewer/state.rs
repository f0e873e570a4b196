//! State of the viewer of cached titles: a list of titles, the programs of
//! the title under the cursor, and a text filter over both.

use std::collections::HashMap;
use vstd::prelude::*;

use crate::text::{
    contains_text, lowercased, pop_char, push_char, text_contains, to_lowercase,
};

verus! {

broadcast use vstd::std_specs::hash::group_hash_axioms;

/// A title as the viewer lists it.
#[derive(Debug)]
pub struct TitleRow {
    /// Title key.
    pub tid: u32,
    /// Title name.
    pub title: String,
    /// Year of the first broadcast.
    pub first_year: Option<u32>,
    /// Series of the metadata service that the title is mapped to.
    pub tmdb_series_id: Option<u64>,
    /// Season of that series.
    pub tmdb_season_number: Option<u32>,
    /// Number of programs of the title.
    pub program_count: usize,
}

/// A program as the viewer lists it.
#[derive(Debug)]
pub struct ProgramRow {
    /// Program key.
    pub pid: u32,
    /// Episode number.
    pub count: Option<u32>,
    /// Start of the broadcast.
    pub st_time: String,
    /// Name of the channel.
    pub ch_name: String,
    /// Flag bits.
    pub flag: Option<u32>,
    /// Minutes from start to end.
    pub duration_min: Option<u32>,
    /// Episode subtitle.
    pub sub_title: Option<String>,
}

/// The pane that has the focus.
#[derive(Debug, Clone, Copy, PartialEq, Eq, Structural)]
pub enum ActivePane {
    /// The list of titles.
    Titles,
    /// The list of programs of the title under the cursor.
    Programs,
}

/// What the keys do.
#[derive(Debug, Clone, Copy, PartialEq, Eq, Structural)]
pub enum InputMode {
    /// Keys move the cursor.
    Normal,
    /// Keys edit the filter.
    Filter,
}

/// Figures of the cache that the header shows.
#[derive(Debug)]
pub struct ViewerStats {
    /// Number of titles.
    pub total_titles: usize,
    /// Number of programs.
    pub total_programs: usize,
    /// Number of channels that broadcast at least one program.
    pub unique_channels: usize,
    /// Earliest start of a program.
    pub oldest_st_time: Option<String>,
    /// Latest start of a program.
    pub newest_st_time: Option<String>,
}

/// The state of the title viewer.
#[derive(Debug)]
pub struct TitleViewerState {
    /// Every title.
    pub titles: Vec<TitleRow>,
    /// The programs of each title, by title key.
    pub programs_by_tid: HashMap<u32, Vec<ProgramRow>>,
    /// Figures of the cache.
    pub stats: ViewerStats,
    /// The pane that has the focus.
    pub active_pane: ActivePane,
    /// The selected entry of the list of shown titles.
    pub title_selected: Option<usize>,
    /// The selected entry of the list of programs.
    pub program_selected: Option<usize>,
    /// What the keys do.
    pub input_mode: InputMode,
    /// The filter text.
    pub filter: String,
    /// Indices of the titles that the filter shows, as last computed.
    pub filtered_indices: Vec<usize>,
}

/// Whether the program `program` answers to the filter `lowered`, which
/// is in lower case: its start time holds the filter, or its subtitle
/// does, case ignored.
pub open spec fn program_matches(program: ProgramRow, lowered: Seq<char>) -> bool {
    text_contains(program.st_time@, lowered) || (program.sub_title matches Some(sub)
        && text_contains(lowercased(sub@), lowered))
}

/// Whether one of `programs` answers to the filter `lowered`.
pub open spec fn any_program_matches(programs: Seq<ProgramRow>, lowered: Seq<char>) -> bool {
    exists|i: int| 0 <= i < programs.len() && program_matches(#[trigger] programs[i], lowered)
}

/// Whether `filter` shows the title `title`: its name holds the filter,
/// case ignored, or one of its programs answers to it.
pub open spec fn title_matches(
    title: TitleRow,
    programs: Map<u32, Vec<ProgramRow>>,
    filter: Seq<char>,
) -> bool {
    text_contains(lowercased(title.title@), lowercased(filter)) || (programs.contains_key(
        title.tid,
    ) && any_program_matches(programs[title.tid]@, lowercased(filter)))
}

/// The indices below `upto` of the titles that `filter` shows: all of them
/// for an empty filter.
pub open spec fn shown_titles(
    titles: Seq<TitleRow>,
    programs: Map<u32, Vec<ProgramRow>>,
    filter: Seq<char>,
    upto: nat,
) -> Seq<usize>
    decreases upto,
{
    if upto == 0 {
        Seq::empty()
    } else {
        let index = (upto - 1) as usize;
        let before = shown_titles(titles, programs, filter, (upto - 1) as nat);
        if filter.len() == 0 || title_matches(titles[index as int], programs, filter) {
            before.push(index)
        } else {
            before
        }
    }
}

/// The entry that a cursor stands on: the selected one, the first where
/// none is selected.
pub open spec fn cursor_of(selected: Option<usize>) -> usize {
    match selected {
        Some(index) => index,
        None => 0,
    }
}

/// Tells whether one of `programs` answers to the filter `lowered`.
fn programs_match(programs: &Vec<ProgramRow>, lowered: &str) -> (found: bool)
    ensures
        found == any_program_matches(programs@, lowered@),
{
    let mut i: usize = 0;
    while i < programs.len()
        invariant
            i <= programs@.len(),
            forall|j: int| 0 <= j < i ==> !program_matches(#[trigger] programs@[j], lowered@),
        decreases programs@.len() - i,
    {
        if contains_text(programs[i].st_time.as_str(), lowered) {
            return true;
        }
        if let Some(sub) = &programs[i].sub_title {
            if contains_text(to_lowercase(sub.as_str()).as_str(), lowered) {
                return true;
            }
        }
        i += 1;
    }
    false
}

impl TitleViewerState {
    /// Whether the list of shown titles is that of the titles, the
    /// programs and the filter as they stand.
    pub open spec fn cache_current(&self) -> bool {
        self.filtered_indices@ == shown_titles(
            self.titles@,
            self.programs_by_tid@,
            self.filter@,
            self.titles@.len(),
        )
    }

    /// The title under the cursor, by its index among all titles.
    pub open spec fn current_index(&self) -> Option<usize> {
        if cursor_of(self.title_selected) < self.filtered_indices@.len()
            && self.filtered_indices@[cursor_of(self.title_selected) as int] < self.titles@.len() {
            Some(self.filtered_indices@[cursor_of(self.title_selected) as int])
        } else {
            None
        }
    }

    /// The programs of the title under the cursor; none where the cursor
    /// is on no title or the title has none.
    pub open spec fn programs_shown(&self) -> Seq<ProgramRow> {
        match self.current_index() {
            Some(index) => if self.programs_by_tid@.contains_key(self.titles@[index as int].tid) {
                self.programs_by_tid@[self.titles@[index as int].tid]@
            } else {
                Seq::empty()
            },
            None => Seq::empty(),
        }
    }

    /// Whether `post` differs from `self` in nothing but the pane and the
    /// two selections.
    pub open spec fn same_but_cursor(&self, post: &Self) -> bool {
        &&& post.titles == self.titles
        &&& post.programs_by_tid == self.programs_by_tid
        &&& post.stats == self.stats
        &&& post.filter == self.filter
        &&& post.filtered_indices == self.filtered_indices
    }

    /// Whether `post` differs from `self` in nothing but the filter, the
    /// list of shown titles and the selected title.
    pub open spec fn same_but_filter(&self, post: &Self) -> bool {
        &&& post.titles == self.titles
        &&& post.programs_by_tid == self.programs_by_tid
        &&& post.stats == self.stats
        &&& post.active_pane == self.active_pane
        &&& post.program_selected == self.program_selected
    }

    /// Whether `post` is `self` after the cursor of the active pane has
    /// moved one up, if it was not at the top.
    pub open spec fn moved_up(&self, post: &Self) -> bool {
        &&& self.same_but_cursor(post)
        &&& post.active_pane == self.active_pane
        &&& match self.active_pane {
            ActivePane::Titles => post.program_selected == self.program_selected
                && post.title_selected == if cursor_of(self.title_selected) > 0 {
                Some((cursor_of(self.title_selected) - 1) as usize)
            } else {
                self.title_selected
            },
            ActivePane::Programs => post.title_selected == self.title_selected
                && post.program_selected == if cursor_of(self.program_selected) > 0 {
                Some((cursor_of(self.program_selected) - 1) as usize)
            } else {
                self.program_selected
            },
        }
    }

    /// Whether `post` is `self` after the cursor of the active pane has
    /// moved one down, if it was not on the last entry.
    pub open spec fn moved_down(&self, post: &Self) -> bool {
        &&& self.same_but_cursor(post)
        &&& post.active_pane == self.active_pane
        &&& match self.active_pane {
            ActivePane::Titles => post.program_selected == self.program_selected
                && post.title_selected == if cursor_of(self.title_selected) + 1
                < self.filtered_indices@.len() {
                Some((cursor_of(self.title_selected) + 1) as usize)
            } else {
                self.title_selected
            },
            ActivePane::Programs => post.title_selected == self.title_selected
                && post.program_selected == if cursor_of(self.program_selected) + 1
                < self.programs_shown().len() {
                Some((cursor_of(self.program_selected) + 1) as usize)
            } else {
                self.program_selected
            },
        }
    }

    /// Whether `post` is `self` after the cursor of the active pane has
    /// moved up by `page_size`, or to the top.
    pub open spec fn paged_up(&self, post: &Self, page_size: usize) -> bool {
        &&& self.same_but_cursor(post)
        &&& post.active_pane == self.active_pane
        &&& match self.active_pane {
            ActivePane::Titles => post.program_selected == self.program_selected
                && post.title_selected == Some(
                if cursor_of(self.title_selected) >= page_size {
                    (cursor_of(self.title_selected) - page_size) as usize
                } else {
                    0
                },
            ),
            ActivePane::Programs => post.title_selected == self.title_selected
                && post.program_selected == Some(
                if cursor_of(self.program_selected) >= page_size {
                    (cursor_of(self.program_selected) - page_size) as usize
                } else {
                    0
                },
            ),
        }
    }

    /// The entry that a cursor at `current` reaches by moving down by
    /// `page_size` in a list of `count` entries: the last entry at most.
    pub open spec fn page_target(current: usize, page_size: usize, count: nat) -> usize {
        let last = if count > 0 {
            count - 1
        } else {
            0
        };
        if current + page_size <= last {
            (current + page_size) as usize
        } else {
            last as usize
        }
    }

    /// Whether `post` is `self` after the cursor of the active pane has
    /// moved down by `page_size`, or to the last entry.
    pub open spec fn paged_down(&self, post: &Self, page_size: usize) -> bool {
        &&& self.same_but_cursor(post)
        &&& post.active_pane == self.active_pane
        &&& match self.active_pane {
            ActivePane::Titles => post.program_selected == self.program_selected
                && post.title_selected == Some(
                Self::page_target(
                    cursor_of(self.title_selected),
                    page_size,
                    self.filtered_indices@.len(),
                ),
            ),
            ActivePane::Programs => post.title_selected == self.title_selected
                && post.program_selected == Some(
                Self::page_target(
                    cursor_of(self.program_selected),
                    page_size,
                    self.programs_shown().len(),
                ),
            ),
        }
    }

    /// Whether `post` is `self` with the focus on the programs, the first
    /// of them selected where none was.
    pub open spec fn programs_focused(&self, post: &Self) -> bool {
        &&& self.same_but_cursor(post)
        &&& post.active_pane == ActivePane::Programs
        &&& post.title_selected == self.title_selected
        &&& post.program_selected == Some(cursor_of(self.program_selected))
    }

    /// Whether `post` is `self` with the focus on the titles.
    pub open spec fn titles_focused(&self, post: &Self) -> bool {
        &&& self.same_but_cursor(post)
        &&& post.active_pane == ActivePane::Titles
        &&& post.title_selected == self.title_selected
        &&& post.program_selected == self.program_selected
    }

    /// Whether `post` is `self` with the filter `filter`, the titles that
    /// it shows and the first of them selected.
    pub open spec fn filtered_by(&self, post: &Self, filter: Seq<char>) -> bool {
        &&& self.same_but_filter(post)
        &&& post.filter@ == filter
        &&& post.cache_current()
        &&& post.title_selected == if post.filtered_indices@.len() == 0 {
            None
        } else {
            Some(0usize)
        }
    }

    /// Builds the state of a viewer: every title shown, the first one
    /// selected, the focus on the titles, no filter.
    pub fn new(
        titles: Vec<TitleRow>,
        programs_by_tid: HashMap<u32, Vec<ProgramRow>>,
        stats: ViewerStats,
    ) -> (state: Self)
        ensures
            state.titles == titles,
            state.programs_by_tid == programs_by_tid,
            state.stats == stats,
            state.active_pane == ActivePane::Titles,
            state.title_selected == if titles@.len() == 0 {
                None
            } else {
                Some(0usize)
            },
            state.program_selected is None,
            state.input_mode == InputMode::Normal,
            state.filter@ == Seq::<char>::empty(),
            state.cache_current(),
    {
        let title_selected = if titles.len() == 0 {
            None
        } else {
            Some(0)
        };
        let mut state = TitleViewerState {
            titles,
            programs_by_tid,
            stats,
            active_pane: ActivePane::Titles,
            title_selected,
            program_selected: None,
            input_mode: InputMode::Normal,
            filter: String::new(),
            filtered_indices: Vec::new(),
        };
        state.rebuild_filter_cache();
        state
    }

    /// The entry of the title list that the cursor stands on.
    pub fn title_cursor(&self) -> (cursor: usize)
        ensures
            cursor == cursor_of(self.title_selected),
    {
        match self.title_selected {
            Some(index) => index,
            None => 0,
        }
    }

    /// The entry of the program list that the cursor stands on.
    pub fn program_cursor(&self) -> (cursor: usize)
        ensures
            cursor == cursor_of(self.program_selected),
    {
        match self.program_selected {
            Some(index) => index,
            None => 0,
        }
    }

    /// The indices of the titles that the filter shows.
    pub fn filtered_titles(&self) -> (indices: &[usize])
        ensures
            indices@ == self.filtered_indices@,
    {
        self.filtered_indices.as_slice()
    }

    /// The title under the cursor.
    pub fn current_title(&self) -> (title: Option<&TitleRow>)
        ensures
            match self.current_index() {
                Some(index) => title == Some(&self.titles@[index as int]),
                None => title is None,
            },
    {
        let cursor = self.title_cursor();
        if cursor >= self.filtered_indices.len() {
            return None;
        }
        let index = self.filtered_indices[cursor];
        if index >= self.titles.len() {
            return None;
        }
        Some(&self.titles[index])
    }

    /// The programs of the title under the cursor.
    pub fn current_programs(&self) -> (programs: &[ProgramRow])
        ensures
            programs@ == self.programs_shown(),
    {
        match self.current_title() {
            None => &[],
            Some(title) => match self.programs_by_tid.get(&title.tid) {
                Some(programs) => programs.as_slice(),
                None => &[],
            },
        }
    }

    /// Moves the cursor of the active pane one up, if it is not at the
    /// top.
    pub fn move_up(&mut self)
        ensures
            old(self).moved_up(final(self)),
            final(self).input_mode == old(self).input_mode,
    {
        match self.active_pane {
            ActivePane::Titles => {
                let current = self.title_cursor();
                if current > 0 {
                    self.title_selected = Some(current - 1);
                }
            },
            ActivePane::Programs => {
                let current = self.program_cursor();
                if current > 0 {
                    self.program_selected = Some(current - 1);
                }
            },
        }
    }

    /// Moves the cursor of the active pane one down, if it is not on the
    /// last entry.
    pub fn move_down(&mut self)
        ensures
            old(self).moved_down(final(self)),
            final(self).input_mode == old(self).input_mode,
    {
        match self.active_pane {
            ActivePane::Titles => {
                let current = self.title_cursor();
                let count = self.filtered_indices.len();
                if current < usize::MAX && current + 1 < count {
                    self.title_selected = Some(current + 1);
                }
            },
            ActivePane::Programs => {
                let count = self.current_programs().len();
                let current = self.program_cursor();
                if current < usize::MAX && current + 1 < count {
                    self.program_selected = Some(current + 1);
                }
            },
        }
    }

    /// Moves the cursor of the active pane up by `page_size`, or to the
    /// top.
    pub fn page_up(&mut self, page_size: usize)
        ensures
            old(self).paged_up(final(self), page_size),
            final(self).input_mode == old(self).input_mode,
    {
        match self.active_pane {
            ActivePane::Titles => {
                let current = self.title_cursor();
                self.title_selected = Some(current.saturating_sub(page_size));
            },
            ActivePane::Programs => {
                let current = self.program_cursor();
                self.program_selected = Some(current.saturating_sub(page_size));
            },
        }
    }

    /// Moves the cursor of the active pane down by `page_size`, or to the
    /// last entry.
    pub fn page_down(&mut self, page_size: usize)
        ensures
            old(self).paged_down(final(self), page_size),
            final(self).input_mode == old(self).input_mode,
    {
        match self.active_pane {
            ActivePane::Titles => {
                let last = self.filtered_indices.len().saturating_sub(1);
                let target = self.title_cursor().saturating_add(page_size);
                self.title_selected = Some(
                    if target < last {
                        target
                    } else {
                        last
                    },
                );
            },
            ActivePane::Programs => {
                let last = self.current_programs().len().saturating_sub(1);
                let target = self.program_cursor().saturating_add(page_size);
                self.program_selected = Some(
                    if target < last {
                        target
                    } else {
                        last
                    },
                );
            },
        }
    }

    /// Gives the focus to the programs and selects the first of them where
    /// none is selected.
    pub fn focus_programs(&mut self)
        ensures
            old(self).programs_focused(final(self)),
            final(self).input_mode == old(self).input_mode,
    {
        self.active_pane = ActivePane::Programs;
        if self.program_selected.is_none() {
            self.program_selected = Some(0);
        }
    }

    /// Gives the focus to the titles.
    pub fn focus_titles(&mut self)
        ensures
            old(self).titles_focused(final(self)),
            final(self).input_mode == old(self).input_mode,
    {
        self.active_pane = ActivePane::Titles;
    }

    /// Sets the filter and selects the first title that it shows.
    pub fn set_filter(&mut self, filter: String)
        ensures
            old(self).filtered_by(final(self), filter@),
            final(self).input_mode == old(self).input_mode,
    {
        self.filter = filter;
        self.rebuild_filter_cache();
        self.select_first_title();
    }

    /// Appends `ch` to the filter and selects the first title that it
    /// shows.
    pub fn filter_push(&mut self, ch: char)
        ensures
            old(self).filtered_by(final(self), old(self).filter@.push(ch)),
            final(self).input_mode == old(self).input_mode,
    {
        push_char(&mut self.filter, ch);
        self.rebuild_filter_cache();
        self.select_first_title();
    }

    /// Removes the last character of the filter, if it has one, and
    /// selects the first title that the filter shows.
    pub fn filter_pop(&mut self)
        ensures
            old(self).filtered_by(
                final(self),
                if old(self).filter@.len() > 0 {
                    old(self).filter@.drop_last()
                } else {
                    old(self).filter@
                },
            ),
            final(self).input_mode == old(self).input_mode,
    {
        pop_char(&mut self.filter);
        self.rebuild_filter_cache();
        self.select_first_title();
    }

    /// Selects the first shown title, or none where none is shown.
    pub fn select_first_title(&mut self)
        ensures
            old(self).same_but_filter(final(self)),
            final(self).filter == old(self).filter,
            final(self).filtered_indices == old(self).filtered_indices,
            final(self).title_selected == if old(self).filtered_indices@.len() == 0 {
                None
            } else {
                Some(0usize)
            },
            final(self).input_mode == old(self).input_mode,
    {
        if self.filtered_indices.len() == 0 {
            self.title_selected = None;
        } else {
            self.title_selected = Some(0);
        }
    }

    /// Computes the titles that the filter shows.
    pub fn rebuild_filter_cache(&mut self)
        ensures
            old(self).same_but_filter(final(self)),
            final(self).filter == old(self).filter,
            final(self).title_selected == old(self).title_selected,
            final(self).cache_current(),
            final(self).input_mode == old(self).input_mode,
    {
        let lowered = to_lowercase(self.filter.as_str());
        let unfiltered = self.filter.as_str().is_empty();
        let mut shown: Vec<usize> = Vec::new();
        let mut i: usize = 0;
        while i < self.titles.len()
            invariant
                i <= self.titles@.len(),
                lowered@ == lowercased(self.filter@),
                unfiltered == (self.filter@.len() == 0),
                shown@ == shown_titles(
                    self.titles@,
                    self.programs_by_tid@,
                    self.filter@,
                    i as nat,
                ),
            decreases self.titles@.len() - i,
        {
            let title = &self.titles[i];
            let matches = unfiltered || contains_text(
                to_lowercase(title.title.as_str()).as_str(),
                lowered.as_str(),
            ) || match self.programs_by_tid.get(&title.tid) {
                Some(programs) => programs_match(programs, lowered.as_str()),
                None => false,
            };
            if matches {
                shown.push(i);
            }
            i += 1;
        }
        self.filtered_indices = shown;
    }
}

} // verus!
