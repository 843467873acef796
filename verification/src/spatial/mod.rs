//! Spatial conversions: their manager, their worker and their requests.

pub mod commands;
pub mod error;
pub mod manager;
pub mod types;
pub mod worker;
