//! Conversions: the manager that schedules them, the workers' reading of
//! the tools' output, and the arguments that the tools are started with.

pub mod args;
pub mod codec;
pub mod error;
pub mod filters;
pub mod guarantees;
pub mod manager;
pub mod patterns;
pub mod probe;
pub mod process;
pub mod progress;
pub mod types;
pub mod upscale;
pub mod upscale_args;
pub mod utils;
pub mod worker;
