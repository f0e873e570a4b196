//! Application settings as the configuration file holds them.

use vstd::prelude::*;

verus! {

/// The settings of the application.
#[derive(Debug, PartialEq, Eq)]
pub struct AppConfig {
    /// Channel selection.
    pub channels: ChannelsConfig,
}

/// The channel selection.
#[derive(Debug, PartialEq, Eq)]
pub struct ChannelsConfig {
    /// Keys of the selected channels.
    pub selected: Vec<u32>,
}

impl Default for ChannelsConfig {
    /// No channel selected.
    fn default() -> (config: Self)
        ensures
            config.selected@ == Seq::<u32>::empty(),
    {
        ChannelsConfig { selected: Vec::new() }
    }
}

impl Default for AppConfig {
    /// The settings of a fresh installation: no channel selected.
    fn default() -> (config: Self)
        ensures
            config.channels.selected@ == Seq::<u32>::empty(),
    {
        AppConfig { channels: ChannelsConfig::default() }
    }
}

/// The channel keys of a lookup: those given on the command line, else
/// those selected in the settings, else none at all.
pub open spec fn resolved_ch_ids(ch_ids: Option<Vec<u32>>, selected: Vec<u32>) -> Option<Vec<u32>> {
    match ch_ids {
        Some(ids) => Some(ids),
        None => if selected@.len() == 0 {
            None
        } else {
            Some(selected)
        },
    }
}

/// Resolves the channel keys of a lookup: `ch_ids` where given, else the
/// channels selected in the settings; `None`, for all channels, where
/// neither names any.
pub fn resolve_ch_ids(ch_ids: Option<Vec<u32>>, selected: Vec<u32>) -> (resolved: Option<Vec<u32>>)
    ensures
        resolved == resolved_ch_ids(ch_ids, selected),
{
    match ch_ids {
        Some(ids) => Some(ids),
        None => if selected.len() == 0 {
            None
        } else {
            Some(selected)
        },
    }
}

} // verus!
