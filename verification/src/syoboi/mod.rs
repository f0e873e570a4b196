//! Client-side logic for the schedule service: records, request
//! parameters, pacing, retries and pagination.

pub mod api;
pub mod client;
pub mod params;
pub mod rate_limiter;
pub mod types;
pub mod util;
pub mod xml;

pub use api::LocalSyoboiApi;
pub use client::{ApiError, BuildError, SyoboiClient, SyoboiClientBuilder, SYOBOI_BASE_URL};
pub use params::{
    resolve_time_range, to_naive_datetime_since, to_naive_datetime_until, CalendarTime,
    ProgLookupParams, RangeError, TimeRange,
};
pub use rate_limiter::SyoboiRateLimiter;
pub use util::{
    fetch_all_programs, lookup_all_programs, parse_sub_titles, FetchedPrograms, LookupError,
};
pub use types::{SyoboiChannel, SyoboiChannelGroup, SyoboiProgram, SyoboiTitle};
