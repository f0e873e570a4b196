//! The lookups of the schedule service, as a trait that a transport
//! implements.

use vstd::prelude::*;

use super::client::ApiError;
use super::params::ProgLookupParams;
use super::types::{SyoboiChannel, SyoboiChannelGroup, SyoboiProgram, SyoboiTitle};

verus! {

/// The four lookups of the schedule service. Nothing is promised of what an
/// implementation returns: callers are verified for every answer.
pub trait LocalSyoboiApi {
    /// Looks up titles by key, restricted to `fields` where given.
    fn lookup_titles(&mut self, tids: &[u32], fields: Option<&[&str]>) -> Result<
        Vec<SyoboiTitle>,
        ApiError,
    >;

    /// Looks up the programs that match `params`; one answer holds at most
    /// 5,000 of them.
    fn lookup_programs(&mut self, params: &ProgLookupParams) -> Result<
        Vec<SyoboiProgram>,
        ApiError,
    >;

    /// Looks up channels by key, or all of them.
    fn lookup_channels(&mut self, ch_ids: Option<&[u32]>) -> Result<Vec<SyoboiChannel>, ApiError>;

    /// Looks up channel groups by key, or all of them.
    fn lookup_channel_groups(&mut self, ch_gids: Option<&[u32]>) -> Result<
        Vec<SyoboiChannelGroup>,
        ApiError,
    >;
}

} // verus!
