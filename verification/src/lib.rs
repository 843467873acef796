//! The decisions of a media converter: which job runs when, what the tools
//! are told, what their output means, and how far a job has come.
//!
//! Nothing here starts a process, touches a file or waits for anything. The
//! program around this library does that, hands in what happened, and
//! carries out what the library asks for in return.
//!
//! Times, rates and progress are fixed-point integers: times in millionths
//! of a second, rates as ratios of millionths, progress in thousandths of a
//! percent.

use vstd::prelude::*;

pub mod capabilities;
pub mod conversion;
pub mod dialog;
pub mod id_set;
pub mod matching;
pub mod paths;
pub mod pid_map;
pub mod spatial;
pub mod spatial_maker;
pub mod text;
