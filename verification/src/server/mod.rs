//! The proving and relaying server: its configuration, its proof job registry,
//! and the checks and answers of its HTTP endpoints.
pub mod config;
pub mod error;
pub mod handlers;
pub mod header_cache;
pub mod jobs;
pub mod cached_proof;
