//! Core of a command-line client for an observability platform's REST API:
//! retry policy, error classification, time resolution, pagination, tag
//! filtering and payload trimming, and configuration merging.

pub mod config;
pub mod errors;
pub mod output;
pub mod pagination;
pub mod request;
pub mod retry;
pub mod shaping;
pub mod tags;
pub mod text;
pub mod time;
