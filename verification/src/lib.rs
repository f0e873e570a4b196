//! Synchronisation engine for broadcast-schedule and title metadata.
//!
//! The crate holds the decisions of the engine: request pacing, retry
//! classification, cursor-driven pagination, chunked lookups and the
//! merge-preserving cache. Transport, persistence and rendering stay with
//! the caller, which feeds plain values in and performs what comes back.

pub mod config;
pub mod db;
pub mod hello;
pub mod sync;
pub mod syoboi;
pub mod text;
pub mod tmdb;
pub mod tui;
