//! Client-side logic for the metadata service: search parameters, pacing
//! and retries.

pub mod client;
pub mod rate_limiter;
pub mod types;

pub use client::{TmdbClient, TmdbClientBuilder, TmdbError};
pub use rate_limiter::TmdbRateLimiter;
pub use types::{SearchMovieParams, SearchTvParams, TmdbErrorResponse, TmdbGenre};
