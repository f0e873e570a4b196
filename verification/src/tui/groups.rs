//! Building the groups of the channel selector from the cached channels.

use vstd::prelude::*;

use super::state::{ChannelEntry, ChannelGroup};
use crate::db::channels::{CachedChannel, CachedChannelGroup};
use crate::db::order::{ranked, sort_ranked, Ranked};

verus! {

/// A group by its index in the list it came in, with the position that
/// puts it in order.
#[derive(Debug, Clone, Copy, PartialEq, Eq, Structural)]
pub struct GroupSlot {
    /// Position of the group in listings.
    pub order: u32,
    /// Index of the group in the list it came in.
    pub index: usize,
}

impl Ranked for GroupSlot {
    open spec fn ranks_before(&self, other: &Self) -> bool {
        self.order < other.order
    }

    fn is_ranked_before(&self, other: &Self) -> (before: bool) {
        self.order < other.order
    }

    fn duplicate(&self) -> (copy: Self) {
        *self
    }
}

impl Ranked for ChannelEntry {
    open spec fn ranks_before(&self, other: &Self) -> bool {
        self.ch_id < other.ch_id
    }

    fn is_ranked_before(&self, other: &Self) -> (before: bool) {
        self.ch_id < other.ch_id
    }

    fn duplicate(&self) -> (copy: Self) {
        self.clone()
    }
}

/// The position of the first group of `groups` with the key `ch_gid`;
/// zero where there is none.
pub open spec fn first_order(groups: Seq<CachedChannelGroup>, ch_gid: u32) -> u32
    decreases groups.len(),
{
    if groups.len() == 0 {
        0
    } else if groups[0].ch_gid == ch_gid {
        groups[0].ch_group_order
    } else {
        first_order(groups.drop_first(), ch_gid)
    }
}

/// The first `upto` groups of `groups` by index, each with the position
/// that its key has.
pub open spec fn group_slots(groups: Seq<CachedChannelGroup>, upto: nat) -> Seq<GroupSlot>
    decreases upto,
{
    if upto == 0 {
        Seq::empty()
    } else {
        let index = (upto - 1) as usize;
        group_slots(groups, (upto - 1) as nat).push(
            GroupSlot { order: first_order(groups, groups[index as int].ch_gid), index },
        )
    }
}

/// The groups of `groups` by index, in the order of their positions.
pub open spec fn listed_slots(groups: Seq<CachedChannelGroup>) -> Seq<GroupSlot> {
    ranked(group_slots(groups, groups.len()))
}

/// The channels of `channels` that belong to the group `ch_gid`, as
/// entries, in the order they came in.
pub open spec fn entries_of(channels: Seq<CachedChannel>, ch_gid: u32) -> Seq<ChannelEntry>
    decreases channels.len(),
{
    if channels.len() == 0 {
        Seq::empty()
    } else {
        let before = entries_of(channels.drop_last(), ch_gid);
        if channels.last().ch_gid == Some(ch_gid) {
            before.push(
                ChannelEntry { ch_id: channels.last().ch_id, ch_name: channels.last().ch_name },
            )
        } else {
            before
        }
    }
}

/// Whether one of the first `upto` groups of `listed` has the key
/// `ch_gid`.
pub open spec fn listed_before(listed: Seq<ChannelGroup>, upto: int, ch_gid: u32) -> bool {
    exists|k: int| 0 <= k < upto && k < listed.len() && (#[trigger] listed[k]).ch_gid == ch_gid
}

/// Whether `listed` is the list of selector groups of `groups` and
/// `channels`: the groups in the order of their positions, each with its
/// channels in the order of their keys. Where several groups share a key,
/// the first of them in the list has the channels.
pub open spec fn is_group_list(
    listed: Seq<ChannelGroup>,
    groups: Seq<CachedChannelGroup>,
    channels: Seq<CachedChannel>,
) -> bool {
    let slots = listed_slots(groups);
    &&& listed.len() == slots.len()
    &&& forall|j: int|
        #![trigger listed[j]]
        0 <= j < listed.len() ==> {
            &&& 0 <= slots[j].index < groups.len()
            &&& listed[j].ch_gid == groups[slots[j].index as int].ch_gid
            &&& listed[j].name == groups[slots[j].index as int].ch_group_name
            &&& listed[j].channels@ == if listed_before(listed, j, listed[j].ch_gid) {
                Seq::empty()
            } else {
                ranked(entries_of(channels, listed[j].ch_gid))
            }
        }
}

/// Reads the position of the first group of `groups` with the key
/// `ch_gid`.
fn order_of(groups: &[CachedChannelGroup], ch_gid: u32) -> (order: u32)
    ensures
        order == first_order(groups@, ch_gid),
{
    let mut i: usize = 0;
    proof {
        assert(groups@.skip(0) == groups@);
    }
    while i < groups.len()
        invariant
            i <= groups@.len(),
            first_order(groups@, ch_gid) == first_order(groups@.skip(i as int), ch_gid),
        decreases groups@.len() - i,
    {
        proof {
            let rest = groups@.skip(i as int);
            assert(rest[0] == groups@[i as int]);
            assert(rest.drop_first() == groups@.skip(i as int + 1));
        }
        if groups[i].ch_gid == ch_gid {
            return groups[i].ch_group_order;
        }
        i += 1;
    }
    0
}

/// Collects the channels of the group `ch_gid` as entries.
fn collect_entries(channels: &[CachedChannel], ch_gid: u32) -> (entries: Vec<ChannelEntry>)
    ensures
        entries@ == entries_of(channels@, ch_gid),
{
    let mut entries: Vec<ChannelEntry> = Vec::new();
    let mut i: usize = 0;
    while i < channels.len()
        invariant
            i <= channels@.len(),
            entries@ == entries_of(channels@.take(i as int), ch_gid),
        decreases channels@.len() - i,
    {
        proof {
            let next = channels@.take(i as int + 1);
            assert(next.drop_last() == channels@.take(i as int));
            assert(next.last() == channels@[i as int]);
        }
        if let Some(gid) = channels[i].ch_gid {
            if gid == ch_gid {
                entries.push(
                    ChannelEntry { ch_id: channels[i].ch_id, ch_name: channels[i].ch_name.clone() },
                );
            }
        }
        i += 1;
    }
    proof {
        assert(channels@.take(channels@.len() as int) == channels@);
    }
    entries
}

/// Tells whether one of `listed` has the key `ch_gid`.
fn already_listed(listed: &Vec<ChannelGroup>, ch_gid: u32) -> (found: bool)
    ensures
        found == listed_before(listed@, listed@.len() as int, ch_gid),
{
    let mut i: usize = 0;
    while i < listed.len()
        invariant
            i <= listed@.len(),
            forall|k: int| 0 <= k < i ==> (#[trigger] listed@[k]).ch_gid != ch_gid,
        decreases listed@.len() - i,
    {
        if listed[i].ch_gid == ch_gid {
            return true;
        }
        i += 1;
    }
    false
}

/// Builds the groups of the channel selector: the cached groups in the
/// order of their positions, each with its channels in the order of their
/// keys. Channels without a group, or of a group that is not cached, are
/// left out.
pub fn build_tui_groups(groups: &[CachedChannelGroup], channels: &[CachedChannel]) -> (listed: Vec<
    ChannelGroup,
>)
    ensures
        is_group_list(listed@, groups@, channels@),
{
    let mut slots: Vec<GroupSlot> = Vec::new();
    let mut i: usize = 0;
    while i < groups.len()
        invariant
            i <= groups@.len(),
            slots@ == group_slots(groups@, i as nat),
            forall|k: int| 0 <= k < slots@.len() ==> (#[trigger] slots@[k]).index < groups@.len(),
        decreases groups@.len() - i,
    {
        slots.push(GroupSlot { order: order_of(groups, groups[i].ch_gid), index: i });
        i += 1;
    }
    let ordered = sort_ranked(&slots);
    proof {
        lemma_ranked_keeps(slots@, groups@.len());
    }
    let mut listed: Vec<ChannelGroup> = Vec::new();
    let mut j: usize = 0;
    while j < ordered.len()
        invariant
            j <= ordered@.len(),
            ordered@ == listed_slots(groups@),
            forall|k: int| 0 <= k < ordered@.len() ==> (#[trigger] ordered@[k]).index < groups@.len(),
            listed@.len() == j,
            forall|k: int|
                #![trigger listed@[k]]
                0 <= k < j ==> {
                    &&& listed@[k].ch_gid == groups@[ordered@[k].index as int].ch_gid
                    &&& listed@[k].name == groups@[ordered@[k].index as int].ch_group_name
                    &&& listed@[k].channels@ == if listed_before(listed@, k, listed@[k].ch_gid) {
                        Seq::empty()
                    } else {
                        ranked(entries_of(channels@, listed@[k].ch_gid))
                    }
                },
        decreases ordered@.len() - j,
    {
        let group = &groups[ordered[j].index];
        let entries = if already_listed(&listed, group.ch_gid) {
            Vec::new()
        } else {
            sort_ranked(&collect_entries(channels, group.ch_gid))
        };
        let ghost before = listed@;
        listed.push(
            ChannelGroup { ch_gid: group.ch_gid, name: group.ch_group_name.clone(), channels: entries },
        );
        proof {
            assert forall|k: int| 0 <= k <= j implies listed_before(
                listed@,
                k,
                #[trigger] listed@[k].ch_gid,
            ) == listed_before(before, k, listed@[k].ch_gid) by {
                let gid = listed@[k].ch_gid;
                if listed_before(listed@, k, gid) {
                    let w = choose|w: int| 0 <= w < k && w < listed@.len() && (#[trigger] listed@[w]).ch_gid == gid;
                    assert(before[w].ch_gid == gid);
                }
                if listed_before(before, k, gid) {
                    let w = choose|w: int| 0 <= w < k && w < before.len() && (#[trigger] before[w]).ch_gid == gid;
                    assert(listed@[w].ch_gid == gid);
                }
            }
            assert forall|k: int| 0 <= k < j implies listed@[k] == before[k] by {}
        }
        j += 1;
    }
    listed
}

/// Putting slots in order keeps every slot within the groups.
pub proof fn lemma_ranked_keeps(slots: Seq<GroupSlot>, count: nat)
    requires
        forall|k: int| 0 <= k < slots.len() ==> (#[trigger] slots[k]).index < count,
    ensures
        forall|k: int| 0 <= k < ranked(slots).len() ==> (#[trigger] ranked(slots)[k]).index < count,
    decreases slots.len(),
{
    if slots.len() > 0 {
        let front = slots.drop_last();
        lemma_ranked_keeps(front, count);
        crate::db::order::lemma_slot_in_range(ranked(front), slots.last());
        let at = crate::db::order::slot_for(ranked(front), slots.last());
        let after = ranked(slots);
        assert(after == ranked(front).insert(at, slots.last()));
        assert forall|k: int| 0 <= k < after.len() implies (#[trigger] after[k]).index < count by {
            if k < at {
                assert(after[k] == ranked(front)[k]);
            } else if k == at {
                assert(after[k] == slots[slots.len() - 1]);
            } else {
                assert(after[k] == ranked(front)[k - 1]);
            }
        }
    }
}

} // verus!
