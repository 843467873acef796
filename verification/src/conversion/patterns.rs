//! The patterns that find position, length and frame number in the output
//! of the encoder.

use vstd::prelude::*;
use crate::matching::{capture_first_group, first_capture};

verus! {

/// The pattern that finds the number of the frame a tool works on.
pub const FRAME_PATTERN: &'static str = r"frame=\s*(\d+)";

/// The pattern that finds the length of the input in a tool's banner.
pub const DURATION_PATTERN: &'static str = r"Duration:\s*(\d+(?::\d+){0,3}(?:\.\d+)?)";

/// The pattern that finds the position a tool has reached.
pub const TIME_PATTERN: &'static str = r"time=\s*(\d+(?::\d+){0,3}(?:\.\d+)?)";

/// The position, as text, that `line` reports behind `time=`.
pub fn capture_time(line: &str) -> (captured: Option<String>)
    ensures
        match captured {
            Some(text) => first_capture(TIME_PATTERN@, line@) == Some(text@),
            None => first_capture(TIME_PATTERN@, line@) is None,
        },
{
    capture_first_group(TIME_PATTERN, line)
}

/// The length, as text, that `line` reports behind `Duration:`.
pub fn capture_duration(line: &str) -> (captured: Option<String>)
    ensures
        match captured {
            Some(text) => first_capture(DURATION_PATTERN@, line@) == Some(text@),
            None => first_capture(DURATION_PATTERN@, line@) is None,
        },
{
    capture_first_group(DURATION_PATTERN, line)
}

/// The frame number, as text, that `line` reports behind `frame=`.
pub fn capture_frame(line: &str) -> (captured: Option<String>)
    ensures
        match captured {
            Some(text) => first_capture(FRAME_PATTERN@, line@) == Some(text@),
            None => first_capture(FRAME_PATTERN@, line@) is None,
        },
{
    capture_first_group(FRAME_PATTERN, line)
}

} // verus!
