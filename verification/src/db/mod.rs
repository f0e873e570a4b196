//! The local cache of channels, titles and programs: tables of rows by
//! key, and the rule by which fetched records are merged into them.

pub mod channels;
pub mod order;
pub mod programs;
pub mod table;
pub mod titles;

pub use channels::{
    load_channel_groups, load_channels, save_channel_groups, save_channels, CachedChannel,
    CachedChannelGroup, ChannelCache, SaveError,
};
pub use programs::{
    load_programs, load_programs_by_tids, upsert_programs, CachedProgram, ProgramTable,
};
pub use table::{Keyed, KeyedTable};
pub use titles::{
    load_titles, load_titles_by_tids, update_tmdb_mapping, upsert_titles, CachedTitle, TitleTable,
};
