//! The cache of channels and channel groups. Both are replaced as a whole
//! by what a lookup returned.

use vstd::prelude::*;
use vstd::string::*;

use super::order::{
    in_order, lemma_ranked_in_order, lemma_ranked_same_rows, ranked, sort_ranked, Ranked,
};
use super::table::{has_key, Keyed, KeyedTable};
use crate::text::{decimal, decimal_text};

verus! {

/// A cached channel group.
#[derive(Debug, PartialEq, Eq)]
pub struct CachedChannelGroup {
    /// Group key.
    pub ch_gid: u32,
    /// Group name.
    pub ch_group_name: String,
    /// Position of the group in listings.
    pub ch_group_order: u32,
}

/// A cached channel.
#[derive(Debug, PartialEq, Eq)]
pub struct CachedChannel {
    /// Channel key.
    pub ch_id: u32,
    /// Key of the group the channel belongs to.
    pub ch_gid: Option<u32>,
    /// Channel name.
    pub ch_name: String,
}

/// The cached channel groups and channels.
#[derive(Debug)]
pub struct ChannelCache {
    groups: KeyedTable<CachedChannelGroup>,
    channels: KeyedTable<CachedChannel>,
}

/// Why a table could not be replaced.
#[derive(Debug, Clone, Copy, PartialEq, Eq, Structural)]
pub enum SaveError {
    /// Two channel groups carry this key.
    DuplicateChannelGroup { ch_gid: u32 },
    /// Two channels carry this key.
    DuplicateChannel { ch_id: u32 },
}

impl Clone for CachedChannelGroup {
    fn clone(&self) -> (copy: Self)
        ensures
            copy == *self,
    {
        CachedChannelGroup {
            ch_gid: self.ch_gid,
            ch_group_name: self.ch_group_name.clone(),
            ch_group_order: self.ch_group_order,
        }
    }
}

impl Clone for CachedChannel {
    fn clone(&self) -> (copy: Self)
        ensures
            copy == *self,
    {
        CachedChannel { ch_id: self.ch_id, ch_gid: self.ch_gid, ch_name: self.ch_name.clone() }
    }
}

impl Keyed for CachedChannelGroup {
    open spec fn key(&self) -> u32 {
        self.ch_gid
    }

    fn key_of(&self) -> (key: u32) {
        self.ch_gid
    }
}

impl Keyed for CachedChannel {
    open spec fn key(&self) -> u32 {
        self.ch_id
    }

    fn key_of(&self) -> (key: u32) {
        self.ch_id
    }
}

impl Ranked for CachedChannelGroup {
    open spec fn ranks_before(&self, other: &Self) -> bool {
        self.ch_group_order < other.ch_group_order
    }

    fn is_ranked_before(&self, other: &Self) -> (before: bool) {
        self.ch_group_order < other.ch_group_order
    }

    fn duplicate(&self) -> (copy: Self) {
        self.clone()
    }
}

impl SaveError {
    /// The message that describes this error.
    pub open spec fn message(self) -> Seq<char> {
        match self {
            SaveError::DuplicateChannelGroup { ch_gid } => "failed to insert channel_group "@
                + decimal_text(ch_gid as nat),
            SaveError::DuplicateChannel { ch_id } => "failed to insert channel "@ + decimal_text(
                ch_id as nat,
            ),
        }
    }

    /// Renders the error as text.
    pub fn to_string(&self) -> (text: String)
        ensures
            text@ == self.message(),
    {
        match self {
            SaveError::DuplicateChannelGroup { ch_gid } => String::from_str(
                "failed to insert channel_group ",
            ).concat(decimal(*ch_gid as u64).as_str()),
            SaveError::DuplicateChannel { ch_id } => String::from_str("failed to insert channel ")
                .concat(decimal(*ch_id as u64).as_str()),
        }
    }
}

/// The first row of `rows` whose key occurs earlier in `rows`, by index.
pub open spec fn first_repeat<R: Keyed>(rows: Seq<R>) -> Option<int>
    decreases rows.len(),
{
    if rows.len() == 0 {
        None
    } else {
        match first_repeat(rows.drop_last()) {
            Some(i) => Some(i),
            None => if has_key(rows.drop_last(), rows.last().key()) {
                Some(rows.len() - 1)
            } else {
                None
            },
        }
    }
}

/// The rows of `rows` by key, a later row in place of an earlier one with
/// the same key.
pub open spec fn rows_by_key<R: Keyed>(rows: Seq<R>) -> Map<u32, R>
    decreases rows.len(),
{
    if rows.len() == 0 {
        Map::empty()
    } else {
        rows_by_key(rows.drop_last()).insert(rows.last().key(), rows.last())
    }
}

/// The keys of `rows_by_key` are the keys that occur in `rows`.
pub proof fn lemma_rows_by_key_dom<R: Keyed>(rows: Seq<R>, key: u32)
    ensures
        rows_by_key(rows).contains_key(key) == has_key(rows, key),
    decreases rows.len(),
{
    if rows.len() > 0 {
        let front = rows.drop_last();
        lemma_rows_by_key_dom(front, key);
        if has_key(rows, key) {
            let i = choose|i: int| 0 <= i < rows.len() && (#[trigger] rows[i]).key() == key;
            if i < front.len() {
                assert(front[i].key() == key);
            }
        }
        if has_key(front, key) {
            let i = choose|i: int| 0 <= i < front.len() && (#[trigger] front[i]).key() == key;
            assert(rows[i].key() == key);
        }
        if rows.last().key() == key {
            assert(rows[rows.len() - 1].key() == key);
        }
    }
}

/// Builds the table of `rows`. Fails at the first row whose key an earlier
/// row carries, with the index of that row.
fn build_table<R: Keyed>(rows: &[R], copy: impl Fn(&R) -> R) -> (built: Result<KeyedTable<R>, usize>)
    requires
        forall|r: &R| #[trigger] copy.requires((r,)),
        forall|r: &R, c: R| #[trigger] copy.ensures((r,), c) ==> c == *r,
    ensures
        match first_repeat(rows@) {
            Some(i) => built == Err::<KeyedTable<R>, usize>(i as usize),
            None => built matches Ok(table) && table.well_formed() && table@ == rows_by_key(
                rows@,
            ),
        },
{
    let mut table: KeyedTable<R> = KeyedTable::new();
    let mut i: usize = 0;
    while i < rows.len()
        invariant
            i <= rows.len(),
            forall|r: &R| #[trigger] copy.requires((r,)),
            forall|r: &R, c: R| #[trigger] copy.ensures((r,), c) ==> c == *r,
            table.well_formed(),
            first_repeat(rows@.take(i as int)) is None,
            table@ == rows_by_key(rows@.take(i as int)),
        decreases rows.len() - i,
    {
        proof {
            let next = rows@.take(i as int + 1);
            assert(next.drop_last() == rows@.take(i as int));
            assert(next.last() == rows@[i as int]);
            lemma_rows_by_key_dom(rows@.take(i as int), rows@[i as int].key());
        }
        if table.get(rows[i].key_of()).is_some() {
            proof {
                lemma_first_repeat_stays(rows@, i as int + 1);
            }
            return Err(i);
        }
        table.put(copy(&rows[i]));
        i += 1;
    }
    proof {
        assert(rows@.take(rows.len() as int) == rows@);
    }
    Ok(table)
}

/// A repeat among the first `count` rows is the first repeat of all rows.
pub proof fn lemma_first_repeat_stays<R: Keyed>(rows: Seq<R>, count: int)
    requires
        0 <= count <= rows.len(),
        first_repeat(rows.take(count)) is Some,
    ensures
        first_repeat(rows) == first_repeat(rows.take(count)),
    decreases rows.len() - count,
{
    if count < rows.len() {
        let next = rows.take(count + 1);
        assert(next.drop_last() == rows.take(count));
        lemma_first_repeat_stays(rows, count + 1);
    } else {
        assert(rows.take(count) == rows);
    }
}

impl ChannelCache {
    /// The channel groups by key.
    pub closed spec fn groups(&self) -> Map<u32, CachedChannelGroup> {
        self.groups@
    }

    /// The channels by key.
    pub closed spec fn channels(&self) -> Map<u32, CachedChannel> {
        self.channels@
    }

    /// The channel groups in the order of their keys.
    pub closed spec fn group_rows(&self) -> Seq<CachedChannelGroup> {
        self.groups.rows()
    }

    /// The channels in the order of their keys.
    pub closed spec fn channel_rows(&self) -> Seq<CachedChannel> {
        self.channels.rows()
    }

    /// Whether both tables are well-formed.
    pub closed spec fn well_formed(&self) -> bool {
        self.groups.well_formed() && self.channels.well_formed()
    }

    /// An empty cache.
    pub fn new() -> (cache: Self)
        ensures
            cache.well_formed(),
            cache.groups() == Map::<u32, CachedChannelGroup>::empty(),
            cache.channels() == Map::<u32, CachedChannel>::empty(),
    {
        ChannelCache { groups: KeyedTable::new(), channels: KeyedTable::new() }
    }
}

/// Replaces every channel group by `groups`. The channels are cleared with
/// them, since they refer to the groups. Where two of `groups` carry one
/// key, nothing is changed and the key is the error.
pub fn save_channel_groups(cache: &mut ChannelCache, groups: &[CachedChannelGroup]) -> (saved:
    Result<(), SaveError>)
    requires
        old(cache).well_formed(),
    ensures
        final(cache).well_formed(),
        match first_repeat(groups@) {
            Some(i) => saved == Err::<(), SaveError>(
                SaveError::DuplicateChannelGroup { ch_gid: groups@[i].ch_gid },
            ) && final(cache).groups() == old(cache).groups() && final(cache).channels() == old(cache).channels(),
            None => saved is Ok && final(cache).groups() == rows_by_key(groups@) && final(cache).channels() == Map::<u32, CachedChannel>::empty(),
        },
{
    match build_table(groups, |g: &CachedChannelGroup| -> (c: CachedChannelGroup)
        ensures
            c == *g,
        { g.clone() }) {
        Err(i) => {
            proof {
                lemma_first_repeat_in_range(groups@);
            }
            Err(SaveError::DuplicateChannelGroup { ch_gid: groups[i].ch_gid })
        },
        Ok(table) => {
            cache.groups = table;
            cache.channels = KeyedTable::new();
            Ok(())
        },
    }
}

/// Replaces every channel by `channels`. Where two of `channels` carry
/// one key, nothing is changed and the key is the error.
pub fn save_channels(cache: &mut ChannelCache, channels: &[CachedChannel]) -> (saved: Result<
    (),
    SaveError,
>)
    requires
        old(cache).well_formed(),
    ensures
        final(cache).well_formed(),
        final(cache).groups() == old(cache).groups(),
        match first_repeat(channels@) {
            Some(i) => saved == Err::<(), SaveError>(
                SaveError::DuplicateChannel { ch_id: channels@[i].ch_id },
            ) && final(cache).channels() == old(cache).channels(),
            None => saved is Ok && final(cache).channels() == rows_by_key(channels@),
        },
{
    match build_table(channels, |c: &CachedChannel| -> (d: CachedChannel)
        ensures
            d == *c,
        { c.clone() }) {
        Err(i) => {
            proof {
                lemma_first_repeat_in_range(channels@);
            }
            Err(SaveError::DuplicateChannel { ch_id: channels[i].ch_id })
        },
        Ok(table) => {
            cache.channels = table;
            Ok(())
        },
    }
}

/// The first repeat of a sequence is an index of the sequence.
pub proof fn lemma_first_repeat_in_range<R: Keyed>(rows: Seq<R>)
    ensures
        first_repeat(rows) matches Some(i) ==> 0 <= i < rows.len(),
    decreases rows.len(),
{
    if rows.len() > 0 {
        lemma_first_repeat_in_range(rows.drop_last());
    }
}

/// Loads every channel group, in the order of the groups' positions;
/// groups at one position stand in the order of their keys.
pub fn load_channel_groups(cache: &ChannelCache) -> (groups: Vec<CachedChannelGroup>)
    ensures
        groups@ == ranked(cache.group_rows()),
{
    sort_ranked(cache.groups.as_rows())
}

/// Loads every channel, in the order of the channel keys.
pub fn load_channels(cache: &ChannelCache) -> (channels: Vec<CachedChannel>)
    ensures
        channels@ == cache.channel_rows(),
{
    let rows = cache.channels.as_rows();
    let mut channels: Vec<CachedChannel> = Vec::new();
    let mut i: usize = 0;
    while i < rows.len()
        invariant
            i <= rows.len(),
            channels@ == rows@.take(i as int),
        decreases rows.len() - i,
    {
        channels.push(rows[i].clone());
        proof {
            assert(channels@ == rows@.take(i as int + 1));
        }
        i += 1;
    }
    proof {
        assert(rows@.take(rows.len() as int) == rows@);
    }
    channels
}

/// Channel groups are listed by position: no group of a listing has a
/// lower position than one listed earlier, and the listing holds the
/// groups that were listed, each as often as it came.
pub proof fn lemma_groups_listed_by_position(rows: Seq<CachedChannelGroup>)
    ensures
        in_order(ranked(rows)),
        ranked(rows).to_multiset() == rows.to_multiset(),
        ranked(rows).len() == rows.len(),
{
    lemma_ranked_in_order(rows);
    lemma_ranked_same_rows(rows);
}

} // verus!
