//! State of the channel selector: two panes, a cursor in each, the set of
//! selected channels and a text filter over groups and channels.

use std::collections::{BTreeSet, HashMap};
use vstd::prelude::*;

use crate::text::{
    contains_text, lowercased, pop_char, push_char, text_contains, to_lowercase,
};

verus! {

broadcast use {
    vstd::laws_cmp::group_laws_cmp,
    vstd::std_specs::btree::group_btree_axioms,
    vstd::std_specs::hash::group_hash_axioms,
};

/// The pane that has the focus.
#[derive(Debug, Clone, Copy, PartialEq, Eq, Structural)]
pub enum ActivePane {
    /// The list of channel groups.
    Groups,
    /// The list of channels of the group under the cursor.
    Channels,
}

/// A channel group with its channels.
#[derive(Debug)]
pub struct ChannelGroup {
    /// Group key.
    pub ch_gid: u32,
    /// Group name.
    pub name: String,
    /// The channels of the group.
    pub channels: Vec<ChannelEntry>,
}

/// A channel.
#[derive(Debug)]
pub struct ChannelEntry {
    /// Channel key.
    pub ch_id: u32,
    /// Channel name.
    pub ch_name: String,
}

/// What the keys do.
#[derive(Debug, Clone, Copy, PartialEq, Eq, Structural)]
pub enum InputMode {
    /// Keys move the cursor and change the selection.
    Normal,
    /// Keys edit the filter.
    Filter,
}

/// How the selector was left.
#[derive(Debug, Clone, Copy, PartialEq, Eq, Structural)]
pub enum SelectorResult {
    /// The selection was confirmed.
    Confirmed,
    /// The selection was cancelled.
    Cancelled,
}

/// The state of the channel selector.
#[derive(Debug)]
pub struct ChannelSelectorState {
    /// Every channel group, in display order.
    pub groups: Vec<ChannelGroup>,
    /// Keys of the selected channels.
    pub selected: BTreeSet<u32>,
    /// The pane that has the focus.
    pub active_pane: ActivePane,
    /// Cursor in the list of shown groups.
    pub group_cursor: usize,
    /// Cursor in the list of shown channels.
    pub channel_cursor: usize,
    /// What the keys do.
    pub input_mode: InputMode,
    /// The filter text.
    pub filter: String,
    /// What the filter shows, as last computed.
    pub cache: FilterCache,
}

/// What a filter shows: the indices of the groups, and for each of them
/// the indices of its channels.
#[derive(Debug)]
pub struct FilterCache {
    groups: Vec<usize>,
    channels: HashMap<usize, Vec<usize>>,
}

impl FilterCache {
    /// The indices of the groups shown.
    pub closed spec fn groups_shown(&self) -> Seq<usize> {
        self.groups@
    }

    /// The indices of the channels shown for the group `group`; `None`
    /// for a group that is not shown.
    pub closed spec fn channels_shown(&self, group: usize) -> Option<Seq<usize>> {
        if self.channels@.contains_key(group) {
            Some(self.channels@[group]@)
        } else {
            None
        }
    }

    /// A cache that shows nothing.
    pub fn new() -> (cache: Self)
        ensures
            cache.groups_shown() == Seq::<usize>::empty(),
            forall|g: usize| cache.channels_shown(g) is None,
    {
        FilterCache { groups: Vec::new(), channels: HashMap::new() }
    }

    /// The indices of the groups shown.
    pub fn groups(&self) -> (indices: &Vec<usize>)
        ensures
            indices@ == self.groups_shown(),
    {
        &self.groups
    }

    /// The indices of the channels shown for the group `group`.
    pub fn channels(&self, group: usize) -> (indices: Option<&Vec<usize>>)
        ensures
            match indices {
                Some(found) => self.channels_shown(group) == Some(found@),
                None => self.channels_shown(group) is None,
            },
    {
        self.channels.get(&group)
    }

    /// Shows the group `group` with the channels `channels`, after the
    /// groups shown so far.
    pub fn show(&mut self, group: usize, channels: Vec<usize>)
        ensures
            final(self).groups_shown() == old(self).groups_shown().push(group),
            forall|g: usize|
                #![trigger final(self).channels_shown(g)]
                final(self).channels_shown(g) == if g == group {
                    Some(channels@)
                } else {
                    old(self).channels_shown(g)
                },
    {
        self.groups.push(group);
        self.channels.insert(group, channels);
    }

    /// Shows nothing any more.
    pub fn clear(&mut self)
        ensures
            final(self).groups_shown() == Seq::<usize>::empty(),
            forall|g: usize| final(self).channels_shown(g) is None,
    {
        self.groups.clear();
        self.channels.clear();
    }
}

impl Clone for ChannelEntry {
    fn clone(&self) -> (copy: Self)
        ensures
            copy == *self,
    {
        ChannelEntry { ch_id: self.ch_id, ch_name: self.ch_name.clone() }
    }
}

/// The keys of `channels`.
pub open spec fn channel_ids(channels: Seq<ChannelEntry>) -> Set<u32> {
    Set::new(|id: u32| exists|i: int| 0 <= i < channels.len() && (#[trigger] channels[i]).ch_id == id)
}

/// Whether every channel of `channels` is in `selected`.
pub open spec fn all_selected(channels: Seq<ChannelEntry>, selected: Set<u32>) -> bool {
    forall|i: int| 0 <= i < channels.len() ==> selected.contains((#[trigger] channels[i]).ch_id)
}

/// Number of channels of `channels` that are in `selected`.
pub open spec fn selected_among(channels: Seq<ChannelEntry>, selected: Set<u32>) -> nat
    decreases channels.len(),
{
    if channels.len() == 0 {
        0
    } else {
        selected_among(channels.drop_last(), selected) + if selected.contains(
            channels.last().ch_id,
        ) {
            1nat
        } else {
            0nat
        }
    }
}

/// Number of channels in `groups`.
pub open spec fn channel_total(groups: Seq<ChannelGroup>) -> nat
    decreases groups.len(),
{
    if groups.len() == 0 {
        0
    } else {
        channel_total(groups.drop_last()) + groups.last().channels@.len()
    }
}

/// Whether `name` holds `filter`, case ignored.
pub open spec fn name_matches(name: Seq<char>, filter: Seq<char>) -> bool {
    text_contains(lowercased(name), lowercased(filter))
}

/// The indices below `upto` of the channels of `group` that `filter`
/// shows: all of them for an empty filter or a group whose name holds the
/// filter, else those whose own name holds it.
pub open spec fn shown_channels(group: ChannelGroup, filter: Seq<char>, upto: nat) -> Seq<usize>
    decreases upto,
{
    if upto == 0 {
        Seq::empty()
    } else {
        let index = (upto - 1) as usize;
        let before = shown_channels(group, filter, (upto - 1) as nat);
        if filter.len() == 0 || name_matches(group.name@, filter) || name_matches(
            group.channels@[index as int].ch_name@,
            filter,
        ) {
            before.push(index)
        } else {
            before
        }
    }
}

/// Whether `filter` shows `group`: always for an empty filter, else where
/// it shows one of the group's channels.
pub open spec fn group_shown(group: ChannelGroup, filter: Seq<char>) -> bool {
    filter.len() == 0 || shown_channels(group, filter, group.channels@.len()).len() > 0
}

/// The indices below `upto` of the groups that `filter` shows.
pub open spec fn shown_groups(groups: Seq<ChannelGroup>, filter: Seq<char>, upto: nat) -> Seq<
    usize,
>
    decreases upto,
{
    if upto == 0 {
        Seq::empty()
    } else {
        let index = (upto - 1) as usize;
        let before = shown_groups(groups, filter, (upto - 1) as nat);
        if group_shown(groups[index as int], filter) {
            before.push(index)
        } else {
            before
        }
    }
}

impl ChannelSelectorState {
    /// The indices of the groups that the filter cache shows.
    pub open spec fn cached_groups(&self) -> Seq<usize> {
        self.cache.groups_shown()
    }

    /// The indices of the channels that the filter cache shows for the
    /// group `group`; `None` for a group that it does not show.
    pub open spec fn cached_channels(&self, group: usize) -> Option<Seq<usize>> {
        self.cache.channels_shown(group)
    }

    /// Whether the filter cache is that of the groups and the filter as
    /// they stand.
    pub open spec fn cache_current(&self) -> bool {
        &&& self.cached_groups() == shown_groups(
            self.groups@,
            self.filter@,
            self.groups@.len(),
        )
        &&& forall|g: usize|
            #![trigger self.cached_channels(g)]
            self.cached_channels(g) == if g < self.groups@.len() && group_shown(
                self.groups@[g as int],
                self.filter@,
            ) {
                Some(
                    shown_channels(
                        self.groups@[g as int],
                        self.filter@,
                        self.groups@[g as int].channels@.len(),
                    ),
                )
            } else {
                None
            }
    }

    /// The group under the cursor, by its index among all groups.
    pub open spec fn current_group(&self) -> Option<usize> {
        if self.group_cursor < self.cached_groups().len() {
            Some(self.cached_groups()[self.group_cursor as int])
        } else {
            None
        }
    }

    /// The channel under the cursor, by its index in its group.
    pub open spec fn current_channel(&self) -> Option<usize> {
        match self.current_group() {
            None => None,
            Some(group) => match self.cached_channels(group) {
                None => None,
                Some(channels) => if self.channel_cursor < channels.len() {
                    Some(channels[self.channel_cursor as int])
                } else {
                    None
                },
            },
        }
    }

    /// The channels of the group under the cursor; none where the cursor
    /// is on no group.
    pub open spec fn current_group_channels(&self) -> Seq<ChannelEntry> {
        match self.current_group() {
            Some(group) => if group < self.groups@.len() {
                self.groups@[group as int].channels@
            } else {
                Seq::empty()
            },
            None => Seq::empty(),
        }
    }

    /// Whether `other` differs from `self` in nothing but the selection.
    pub open spec fn same_but_selection(&self, other: &Self) -> bool {
        &&& self.groups == other.groups
        &&& self.active_pane == other.active_pane
        &&& self.group_cursor == other.group_cursor
        &&& self.channel_cursor == other.channel_cursor
        &&& self.filter == other.filter
        &&& self.cached_groups() == other.cached_groups()
        &&& forall|g: usize| self.cached_channels(g) == other.cached_channels(g)
    }

    /// Whether `other` differs from `self` in nothing but the cursors and
    /// the pane.
    pub open spec fn same_but_cursor(&self, other: &Self) -> bool {
        &&& self.groups == other.groups
        &&& self.selected == other.selected
        &&& self.filter == other.filter
        &&& self.cached_groups() == other.cached_groups()
        &&& forall|g: usize| self.cached_channels(g) == other.cached_channels(g)
    }

    /// Whether `post` is `self` after the cursor of the active pane has moved
    /// one up; the input mode aside.
    pub open spec fn moved_up(&self, post: &Self) -> bool {
        &&& self.same_but_cursor(post)
        &&& post.active_pane == self.active_pane
        &&& match self.active_pane {
            ActivePane::Groups => if self.group_cursor > 0 {
                post.group_cursor == self.group_cursor - 1 && post.channel_cursor == 0
            } else {
                post.group_cursor == self.group_cursor && post.channel_cursor == self.channel_cursor
            },
            ActivePane::Channels => post.group_cursor == self.group_cursor
                && post.channel_cursor == if self.channel_cursor > 0 {
                self.channel_cursor - 1
            } else {
                0
            },
        }
    }

    /// Whether `post` is `self` after the cursor of the active pane has moved
    /// one down; the input mode aside.
    pub open spec fn moved_down(&self, post: &Self) -> bool {
        &&& self.same_but_cursor(post)
        &&& post.active_pane == self.active_pane
        &&& match self.active_pane {
            ActivePane::Groups => if self.group_cursor + 1 < self.cached_groups().len() {
                post.group_cursor == self.group_cursor + 1 && post.channel_cursor == 0
            } else {
                post.group_cursor == self.group_cursor && post.channel_cursor == self.channel_cursor
            },
            ActivePane::Channels => post.group_cursor == self.group_cursor
                && post.channel_cursor == if self.current_group() matches Some(
                group,
            ) && self.cached_channels(group) matches Some(channels) && self.channel_cursor + 1 < channels.len() {
                self.channel_cursor + 1
            } else {
                self.channel_cursor as int
            },
        }
    }

    /// Whether `post` is `self` with the focus on the other pane; the input
    /// mode aside.
    pub open spec fn pane_switched(&self, post: &Self) -> bool {
        &&& self.same_but_cursor(post)
        &&& post.group_cursor == self.group_cursor
        &&& post.channel_cursor == self.channel_cursor
        &&& post.active_pane == match self.active_pane {
            ActivePane::Groups => ActivePane::Channels,
            ActivePane::Channels => ActivePane::Groups,
        }
    }

    /// Whether `post` is `self` after the group at `group_idx` has been
    /// toggled; the input mode aside.
    pub open spec fn group_toggled(&self, post: &Self, group_idx: usize) -> bool {
        &&& self.same_but_selection(post)
        &&& post.selected@ == if group_idx < self.groups@.len() {
            let channels = self.groups@[group_idx as int].channels@;
            if all_selected(channels, self.selected@) {
                self.selected@.difference(channel_ids(channels))
            } else {
                self.selected@.union(channel_ids(channels))
            }
        } else {
            self.selected@
        }
    }

    /// Whether `post` is `self` after what is under the cursor has been
    /// toggled; the input mode aside.
    pub open spec fn current_toggled(&self, post: &Self) -> bool {
        &&& self.same_but_selection(post)
        &&& post.selected@ == match self.active_pane {
            ActivePane::Groups => match self.current_group() {
                Some(group) => if group < self.groups@.len() {
                    let channels = self.groups@[group as int].channels@;
                    if all_selected(channels, self.selected@) {
                        self.selected@.difference(channel_ids(channels))
                    } else {
                        self.selected@.union(channel_ids(channels))
                    }
                } else {
                    self.selected@
                },
                None => self.selected@,
            },
            ActivePane::Channels => match (self.current_group(), self.current_channel()) {
                (Some(group), Some(channel)) => if group < self.groups@.len() && channel
                    < self.groups@[group as int].channels@.len() {
                    let id = self.groups@[group as int].channels@[channel as int].ch_id;
                    if self.selected@.contains(id) {
                        self.selected@.remove(id)
                    } else {
                        self.selected@.insert(id)
                    }
                } else {
                    self.selected@
                },
                _ => self.selected@,
            },
        }
    }

    /// Whether `post` is `self` with every channel of the group under the
    /// cursor selected; the input mode aside.
    pub open spec fn group_selected(&self, post: &Self) -> bool {
        &&& self.same_but_selection(post)
        &&& post.selected@ == self.selected@.union(
            channel_ids(self.current_group_channels()),
        )
    }

    /// Whether `post` is `self` with every channel of the group under the
    /// cursor deselected; the input mode aside.
    pub open spec fn group_deselected(&self, post: &Self) -> bool {
        &&& self.same_but_selection(post)
        &&& post.selected@ == self.selected@.difference(
            channel_ids(self.current_group_channels()),
        )
    }

    /// Whether `post` is `self` with the filter `filter` and both cursors at
    /// the top; the input mode aside.
    pub open spec fn filter_set(&self, post: &Self, filter: Seq<char>) -> bool {
        &&& self.same_but_filter(post)
        &&& post.filter@ == filter
        &&& post.group_cursor == 0
        &&& post.channel_cursor == 0
        &&& post.cache_current()
    }

    /// Whether `post` is `self` with `ch` appended to the filter and both
    /// cursors at the top; the input mode aside.
    pub open spec fn filter_pushed(&self, post: &Self, ch: char) -> bool {
        &&& self.same_but_filter(post)
        &&& post.filter@ == self.filter@.push(ch)
        &&& post.group_cursor == 0
        &&& post.channel_cursor == 0
        &&& post.cache_current()
    }

    /// Whether `post` is `self` with the last character of the filter
    /// removed; the input mode aside.
    pub open spec fn filter_popped(&self, post: &Self) -> bool {
        &&& self.same_but_filter(post)
        &&& post.filter@ == if self.filter@.len() > 0 {
            self.filter@.drop_last()
        } else {
            self.filter@
        }
        &&& post.group_cursor == self.group_cursor
        &&& post.channel_cursor == self.channel_cursor
        &&& post.cache_current()
    }

    /// Whether `post` is `self` with the filter cache computed anew; the
    /// input mode aside.
    pub open spec fn cache_rebuilt(&self, post: &Self) -> bool {
        &&& self.same_but_filter(post)
        &&& post.filter == self.filter
        &&& post.group_cursor == self.group_cursor
        &&& post.channel_cursor == self.channel_cursor
        &&& post.cache_current()
    }

    /// Number of channels in all groups, cut at the end of `usize`.
    pub fn total_channels(&self) -> (total: usize)
        ensures
            total == if channel_total(self.groups@) <= usize::MAX {
                channel_total(self.groups@)
            } else {
                usize::MAX as nat
            },
    {
        let mut total: usize = 0;
        let mut i: usize = 0;
        while i < self.groups.len()
            invariant
                i <= self.groups@.len(),
                total == if channel_total(self.groups@.take(i as int)) <= usize::MAX {
                    channel_total(self.groups@.take(i as int))
                } else {
                    usize::MAX as nat
                },
            decreases self.groups@.len() - i,
        {
            proof {
                let next = self.groups@.take(i as int + 1);
                assert(next.drop_last() == self.groups@.take(i as int));
                assert(next.last() == self.groups@[i as int]);
            }
            total = total.saturating_add(self.groups[i].channels.len());
            i += 1;
        }
        proof {
            assert(self.groups@.take(self.groups@.len() as int) == self.groups@);
        }
        total
    }

    /// Number of selected channels.
    pub fn selected_count(&self) -> (count: usize)
        ensures
            count == self.selected@.len(),
    {
        self.selected.len()
    }

    /// The indices of the groups that the filter shows.
    pub fn filtered_groups(&self) -> (indices: &[usize])
        ensures
            indices@ == self.cached_groups(),
    {
        self.cache.groups().as_slice()
    }

    /// The index among all groups of the group under the cursor.
    pub fn current_group_index(&self) -> (index: Option<usize>)
        ensures
            index == self.current_group(),
    {
        let shown = self.cache.groups();
        if self.group_cursor < shown.len() {
            Some(shown[self.group_cursor])
        } else {
            None
        }
    }

    /// The index in its group of the channel under the cursor.
    pub fn current_channel_index(&self) -> (index: Option<usize>)
        ensures
            index == self.current_channel(),
    {
        match self.current_group_index() {
            None => None,
            Some(group) => match self.cache.channels(group) {
                None => None,
                Some(channels) => if self.channel_cursor < channels.len() {
                    Some(channels[self.channel_cursor])
                } else {
                    None
                },
            },
        }
    }

    /// Number of selected channels in the group at `group_idx`; none for
    /// an index that is no group.
    pub fn selected_in_group(&self, group_idx: usize) -> (count: usize)
        ensures
            count == if group_idx < self.groups@.len() {
                selected_among(self.groups@[group_idx as int].channels@, self.selected@)
            } else {
                0
            },
    {
        if group_idx >= self.groups.len() {
            return 0;
        }
        let channels = &self.groups[group_idx].channels;
        let mut count: usize = 0;
        let mut i: usize = 0;
        while i < channels.len()
            invariant
                i <= channels@.len(),
                count == selected_among(channels@.take(i as int), self.selected@),
                count <= i,
            decreases channels@.len() - i,
        {
            proof {
                let next = channels@.take(i as int + 1);
                assert(next.drop_last() == channels@.take(i as int));
                assert(next.last() == channels@[i as int]);
            }
            if self.selected.contains(&channels[i].ch_id) {
                count += 1;
            }
            i += 1;
        }
        proof {
            assert(channels@.take(channels@.len() as int) == channels@);
        }
        count
    }

    /// Moves the cursor of the active pane one up, if it is not at the
    /// top. Moving the group cursor puts the channel cursor at the top.
    pub fn move_up(&mut self)
        ensures
            old(self).moved_up(final(self)),
            final(self).input_mode == old(self).input_mode,
    {
        match self.active_pane {
            ActivePane::Groups => {
                if self.group_cursor > 0 {
                    self.group_cursor = self.group_cursor - 1;
                    self.channel_cursor = 0;
                }
            },
            ActivePane::Channels => {
                if self.channel_cursor > 0 {
                    self.channel_cursor = self.channel_cursor - 1;
                }
            },
        }
    }

    /// Moves the cursor of the active pane one down, if it is not on the
    /// last shown entry. Moving the group cursor puts the channel cursor
    /// at the top.
    pub fn move_down(&mut self)
        ensures
            old(self).moved_down(final(self)),
            final(self).input_mode == old(self).input_mode,
    {
        match self.active_pane {
            ActivePane::Groups => {
                let shown = self.cache.groups().len();
                if self.group_cursor < usize::MAX && self.group_cursor + 1 < shown {
                    self.group_cursor = self.group_cursor + 1;
                    self.channel_cursor = 0;
                }
            },
            ActivePane::Channels => {
                if let Some(group) = self.current_group_index() {
                    let count = match self.cache.channels(group) {
                        Some(channels) => channels.len(),
                        None => 0,
                    };
                    if self.channel_cursor < usize::MAX && self.channel_cursor + 1 < count {
                        self.channel_cursor = self.channel_cursor + 1;
                    }
                }
            },
        }
    }

    /// Gives the focus to the other pane.
    pub fn switch_pane(&mut self)
        ensures
            old(self).pane_switched(final(self)),
            final(self).input_mode == old(self).input_mode,
    {
        self.active_pane = match self.active_pane {
            ActivePane::Groups => ActivePane::Channels,
            ActivePane::Channels => ActivePane::Groups,
        };
    }
}

/// Tells whether every channel of `channels` is in `selected`.
fn every_selected(selected: &BTreeSet<u32>, channels: &Vec<ChannelEntry>) -> (all: bool)
    ensures
        all == all_selected(channels@, selected@),
{
    let mut i: usize = 0;
    while i < channels.len()
        invariant
            i <= channels@.len(),
            forall|j: int| 0 <= j < i ==> selected@.contains((#[trigger] channels@[j]).ch_id),
        decreases channels@.len() - i,
    {
        if !selected.contains(&channels[i].ch_id) {
            return false;
        }
        i += 1;
    }
    true
}

/// Adds every channel of `channels` to `selected`.
fn select_channels(selected: &mut BTreeSet<u32>, channels: &Vec<ChannelEntry>)
    ensures
        final(selected)@ == old(selected)@.union(channel_ids(channels@)),
{
    let mut i: usize = 0;
    proof {
        assert(channel_ids(channels@.take(0)) =~= Set::<u32>::empty());
        assert(selected@ =~= old(selected)@.union(channel_ids(channels@.take(0))));
    }
    while i < channels.len()
        invariant
            i <= channels@.len(),
            selected@ == old(selected)@.union(channel_ids(channels@.take(i as int))),
        decreases channels@.len() - i,
    {
        selected.insert(channels[i].ch_id);
        proof {
            lemma_channel_ids_take(channels@, i as int);
            assert(selected@ =~= old(selected)@.union(channel_ids(channels@.take(i as int + 1))));
        }
        i += 1;
    }
    proof {
        assert(channels@.take(channels@.len() as int) == channels@);
    }
}

/// Removes every channel of `channels` from `selected`.
fn deselect_channels(selected: &mut BTreeSet<u32>, channels: &Vec<ChannelEntry>)
    ensures
        final(selected)@ == old(selected)@.difference(channel_ids(channels@)),
{
    let mut i: usize = 0;
    proof {
        assert(channel_ids(channels@.take(0)) =~= Set::<u32>::empty());
        assert(selected@ =~= old(selected)@.difference(channel_ids(channels@.take(0))));
    }
    while i < channels.len()
        invariant
            i <= channels@.len(),
            selected@ == old(selected)@.difference(channel_ids(channels@.take(i as int))),
        decreases channels@.len() - i,
    {
        selected.remove(&channels[i].ch_id);
        proof {
            lemma_channel_ids_take(channels@, i as int);
            assert(selected@ =~= old(selected)@.difference(
                channel_ids(channels@.take(i as int + 1)),
            ));
        }
        i += 1;
    }
    proof {
        assert(channels@.take(channels@.len() as int) == channels@);
    }
}

/// The keys of the first `count + 1` channels are those of the first
/// `count` and the key of the next.
pub proof fn lemma_channel_ids_take(channels: Seq<ChannelEntry>, count: int)
    requires
        0 <= count < channels.len(),
    ensures
        channel_ids(channels.take(count + 1)) == channel_ids(channels.take(count)).insert(
            channels[count].ch_id,
        ),
{
    let shorter = channels.take(count);
    let longer = channels.take(count + 1);
    assert forall|id: u32| channel_ids(longer).contains(id) == channel_ids(shorter).insert(
        channels[count].ch_id,
    ).contains(id) by {
        if channel_ids(longer).contains(id) {
            let k = choose|k: int| 0 <= k < longer.len() && (#[trigger] longer[k]).ch_id == id;
            if k < count {
                assert(shorter[k].ch_id == id);
            }
        }
        if channel_ids(shorter).contains(id) {
            let k = choose|k: int| 0 <= k < shorter.len() && (#[trigger] shorter[k]).ch_id == id;
            assert(longer[k].ch_id == id);
        }
        if id == channels[count].ch_id {
            assert(longer[count].ch_id == id);
        }
    }
    assert(channel_ids(longer) =~= channel_ids(shorter).insert(channels[count].ch_id));
}

/// Finds the channels of `group` that `filter` shows; `lowered` is the
/// filter in lower case.
fn matching_channels(group: &ChannelGroup, filter: &str, lowered: &str) -> (indices: Vec<usize>)
    requires
        lowered@ == lowercased(filter@),
    ensures
        indices@ == shown_channels(*group, filter@, group.channels@.len()),
{
    let show_all = filter.is_empty() || contains_text(
        to_lowercase(group.name.as_str()).as_str(),
        lowered,
    );
    let mut indices: Vec<usize> = Vec::new();
    let mut i: usize = 0;
    while i < group.channels.len()
        invariant
            i <= group.channels@.len(),
            lowered@ == lowercased(filter@),
            show_all == (filter@.len() == 0 || name_matches(group.name@, filter@)),
            indices@ == shown_channels(*group, filter@, i as nat),
        decreases group.channels@.len() - i,
    {
        if show_all || contains_text(
            to_lowercase(group.channels[i].ch_name.as_str()).as_str(),
            lowered,
        ) {
            indices.push(i);
        }
        i += 1;
    }
    indices
}

impl ChannelSelectorState {
    /// Builds the state of a selector over `groups` with `selected`
    /// selected: the focus on the groups, both cursors at the top, no
    /// filter.
    pub fn new(groups: Vec<ChannelGroup>, selected: BTreeSet<u32>) -> (state: Self)
        ensures
            state.groups == groups,
            state.selected == selected,
            state.active_pane == ActivePane::Groups,
            state.group_cursor == 0,
            state.channel_cursor == 0,
            state.input_mode == InputMode::Normal,
            state.filter@ == Seq::<char>::empty(),
            state.cache_current(),
    {
        let mut state = ChannelSelectorState {
            groups,
            selected,
            active_pane: ActivePane::Groups,
            group_cursor: 0,
            channel_cursor: 0,
            input_mode: InputMode::Normal,
            filter: String::new(),
            cache: FilterCache::new(),
        };
        state.rebuild_filter_cache();
        state
    }

    /// The indices of the channels that the filter shows for the group at
    /// `group_idx`; none for a group that it does not show.
    pub fn filtered_channels_for_group(&self, group_idx: usize) -> (indices: &[usize])
        ensures
            indices@ == match self.cached_channels(group_idx) {
                Some(shown) => shown,
                None => Seq::empty(),
            },
    {
        match self.cache.channels(group_idx) {
            Some(shown) => shown.as_slice(),
            None => &[],
        }
    }

    /// Toggles the group at `group_idx`: deselects its channels where all
    /// of them are selected, selects them all otherwise. An index that is
    /// no group changes nothing.
    pub fn toggle_group(&mut self, group_idx: usize)
        ensures
            old(self).group_toggled(final(self), group_idx),
            final(self).input_mode == old(self).input_mode,
    {
        if group_idx < self.groups.len() {
            if every_selected(&self.selected, &self.groups[group_idx].channels) {
                deselect_channels(&mut self.selected, &self.groups[group_idx].channels);
            } else {
                select_channels(&mut self.selected, &self.groups[group_idx].channels);
            }
        }
    }

    /// Toggles what is under the cursor of the active pane: the whole
    /// group in the group pane, the one channel in the channel pane.
    pub fn toggle_current(&mut self)
        ensures
            old(self).current_toggled(final(self)),
            final(self).input_mode == old(self).input_mode,
    {
        match self.active_pane {
            ActivePane::Groups => {
                if let Some(group) = self.current_group_index() {
                    self.toggle_group(group);
                }
            },
            ActivePane::Channels => {
                let group = self.current_group_index();
                let channel = self.current_channel_index();
                if let (Some(g), Some(c)) = (group, channel) {
                    if g < self.groups.len() && c < self.groups[g].channels.len() {
                        let id = self.groups[g].channels[c].ch_id;
                        if self.selected.contains(&id) {
                            self.selected.remove(&id);
                        } else {
                            self.selected.insert(id);
                        }
                    }
                }
            },
        }
    }

    /// Selects every channel of the group under the cursor.
    pub fn select_all_in_group(&mut self)
        ensures
            old(self).group_selected(final(self)),
            final(self).input_mode == old(self).input_mode,
    {
        proof {
            assert(channel_ids(Seq::<ChannelEntry>::empty()) =~= Set::<u32>::empty());
            assert(self.selected@.union(Set::<u32>::empty()) =~= self.selected@);
        }
        if let Some(group) = self.current_group_index() {
            if group < self.groups.len() {
                select_channels(&mut self.selected, &self.groups[group].channels);
            }
        }
    }

    /// Deselects every channel of the group under the cursor.
    pub fn deselect_all_in_group(&mut self)
        ensures
            old(self).group_deselected(final(self)),
            final(self).input_mode == old(self).input_mode,
    {
        proof {
            assert(channel_ids(Seq::<ChannelEntry>::empty()) =~= Set::<u32>::empty());
            assert(self.selected@.difference(Set::<u32>::empty()) =~= self.selected@);
        }
        if let Some(group) = self.current_group_index() {
            if group < self.groups.len() {
                deselect_channels(&mut self.selected, &self.groups[group].channels);
            }
        }
    }

    /// Whether `other` differs from `self` in nothing but the filter, its
    /// cache and the cursors.
    pub open spec fn same_but_filter(&self, other: &Self) -> bool {
        &&& self.groups == other.groups
        &&& self.selected == other.selected
        &&& self.active_pane == other.active_pane
    }

    /// Sets the filter and puts both cursors at the top.
    pub fn set_filter(&mut self, filter: String)
        ensures
            old(self).filter_set(final(self), filter@),
            final(self).input_mode == old(self).input_mode,
    {
        self.filter = filter;
        self.group_cursor = 0;
        self.channel_cursor = 0;
        self.rebuild_filter_cache();
    }

    /// Appends `ch` to the filter and puts both cursors at the top.
    pub fn filter_push(&mut self, ch: char)
        ensures
            old(self).filter_pushed(final(self), ch),
            final(self).input_mode == old(self).input_mode,
    {
        push_char(&mut self.filter, ch);
        self.group_cursor = 0;
        self.channel_cursor = 0;
        self.rebuild_filter_cache();
    }

    /// Removes the last character of the filter, if it has one. The
    /// cursors stay.
    pub fn filter_pop(&mut self)
        ensures
            old(self).filter_popped(final(self)),
            final(self).input_mode == old(self).input_mode,
    {
        pop_char(&mut self.filter);
        self.rebuild_filter_cache();
    }

    /// Computes what the filter shows of the groups as they stand.
    pub fn rebuild_filter_cache(&mut self)
        ensures
            old(self).cache_rebuilt(final(self)),
            final(self).input_mode == old(self).input_mode,
    {
        let lowered = to_lowercase(self.filter.as_str());
        let unfiltered = self.filter.as_str().is_empty();
        self.cache.clear();
        let mut g: usize = 0;
        while g < self.groups.len()
            invariant
                g <= self.groups@.len(),
                old(self).same_but_filter(self),
                self.input_mode == old(self).input_mode,
                self.filter == old(self).filter,
                self.group_cursor == old(self).group_cursor,
                self.channel_cursor == old(self).channel_cursor,
                lowered@ == lowercased(self.filter@),
                unfiltered == (self.filter@.len() == 0),
                self.cache.groups_shown() == shown_groups(self.groups@, self.filter@, g as nat),
                forall|k: usize|
                    #![trigger self.cache.channels_shown(k)]
                    self.cache.channels_shown(k) == if k < g && group_shown(
                        self.groups@[k as int],
                        self.filter@,
                    ) {
                        Some(
                            shown_channels(
                                self.groups@[k as int],
                                self.filter@,
                                self.groups@[k as int].channels@.len(),
                            ),
                        )
                    } else {
                        None
                    },
            decreases self.groups@.len() - g,
        {
            let indices = matching_channels(&self.groups[g], self.filter.as_str(), lowered.as_str());
            if unfiltered || indices.len() > 0 {
                self.cache.show(g, indices);
            }
            g += 1;
        }
    }
}

} // verus!
