//! Resource provider pool: selection, failover, throttling, token rotation
//! and download-link caching for a fleet of storage-API accounts.

pub mod access;
pub mod availability;
pub mod bonus;
pub mod cache;
mod clock;
pub mod config;
pub mod error;
pub mod group;
pub mod hash;
pub mod json;
pub mod model;
pub mod parse;
pub mod pool;
pub mod provider;
pub mod refresh;
pub mod resolve;
pub mod select;
pub mod util;
