//! Progress: the duration that a task is measured against, percentages, and
//! the bands of the stages of a pipeline.

use vstd::prelude::*;
use vstd::arithmetic::div_mod::lemma_div_is_ordered;
use vstd::arithmetic::mul::lemma_mul_inequality;
use crate::conversion::types::FrameRate;
use crate::conversion::utils::{parse_time, parsed_time};

verus! {

/// Progress is counted in thousandths of a percent.
pub const PROGRESS_SCALE: u32 = 1000;

/// The progress of a finished task: one hundred percent.
pub const PROGRESS_FULL: u32 = 100_000;

/// The frame rate that is assumed where the probe names none: thirty frames
/// per second.
pub fn default_frame_rate() -> (rate: FrameRate)
    ensures
        rate == (FrameRate { numerator: 30_000_000, denominator: 1_000_000 }),
{
    FrameRate { numerator: 30_000_000, denominator: 1_000_000 }
}

/// The time between `start` and `end`, zero where `end` is not after `start`.
/// Without a `start` the active part begins at zero; without an `end` it
/// lasts to the end of the file, `full`.
pub open spec fn active_duration(start: Option<u64>, end: Option<u64>, full: u64) -> u64 {
    let from = match start {
        Some(t) => t,
        None => 0,
    };
    let to = match end {
        Some(t) => t,
        None => full,
    };
    if to >= from {
        (to - from) as u64
    } else {
        0
    }
}

/// How long the part of a file that a task works on lasts, given its trim
/// boundaries and the length of the whole file.
pub fn expected_active_duration(
    start: Option<u64>,
    end: Option<u64>,
    full_duration: u64,
) -> (active: u64)
    ensures
        active == active_duration(start, end, full_duration),
{
    let from: u64 = match start {
        Some(t) => t,
        None => 0,
    };
    let to: u64 = match end {
        Some(t) => t,
        None => full_duration,
    };
    if to >= from {
        to - from
    } else {
        0
    }
}

/// Where a trim end is given, the length of the whole file has no say in the
/// active duration.
pub proof fn lemma_end_decides(start: Option<u64>, end: u64, full_a: u64, full_b: u64)
    ensures
        active_duration(start, Some(end), full_a) == active_duration(start, Some(end), full_b),
{
}

/// The time that `text` states, where it states one.
pub open spec fn stated_time(text: Option<&str>) -> Option<u64> {
    match text {
        Some(t) => parsed_time(t@),
        None => None,
    }
}

/// The expected duration of a task with the given trim boundaries, on a file
/// whose probed duration is `probed`: texts that state no time count as
/// absent, and an absent probe as a file of length zero.
pub open spec fn expected_duration(
    start: Option<&str>,
    end: Option<&str>,
    probed: Option<&str>,
) -> u64 {
    let full = match stated_time(probed) {
        Some(t) => t,
        None => 0,
    };
    active_duration(stated_time(start), stated_time(end), full)
}

/// The duration against which a task's progress is measured, from the texts
/// of its trim boundaries and of the probed duration.
pub fn resolve_expected_duration(
    start_time: Option<&str>,
    end_time: Option<&str>,
    probed_duration: Option<&str>,
) -> (active: u64)
    ensures
        active == expected_duration(start_time, end_time, probed_duration),
{
    let start = match start_time {
        Some(t) => parse_time(t),
        None => None,
    };
    let end = match end_time {
        Some(t) => parse_time(t),
        None => None,
    };
    let full = match probed_duration {
        Some(t) => match parse_time(t) {
            Some(v) => v,
            None => 0,
        },
        None => 0,
    };
    expected_active_duration(start, end, full)
}

/// The share of `total` that `position` is, in thousandths of a percent and
/// at most one hundred percent.
pub open spec fn percent_of(position: u64, total: u64) -> u32
    recommends
        total > 0,
{
    let raw = position * 100_000 / (total as int);
    if raw > 100_000 {
        100_000
    } else {
        raw as u32
    }
}

/// How far a task has come when it works at `position` of `total`; no value
/// where the total is zero and so unknown.
pub fn progress_percent(position: u64, total: u64) -> (progress: Option<u32>)
    ensures
        total == 0 ==> progress is None,
        total > 0 ==> progress == Some(percent_of(position, total)),
        progress matches Some(p) ==> p <= PROGRESS_FULL,
{
    if total == 0 {
        return None;
    }
    let raw: u128 = (position as u128) * 100_000 / (total as u128);
    if raw > 100_000 {
        Some(PROGRESS_FULL)
    } else {
        Some(raw as u32)
    }
}

/// A later position never reports less progress, and no position reports
/// more than one hundred percent.
pub proof fn lemma_percent_monotonic(earlier: u64, later: u64, total: u64)
    requires
        earlier <= later,
        total > 0,
    ensures
        percent_of(earlier, total) <= percent_of(later, total) <= 100_000,
{
    lemma_mul_inequality(earlier as int, later as int, 100_000);
    lemma_div_is_ordered(earlier * 100_000, later * 100_000, total as int);
}

/// For positions that are reported in increasing order the percentages do
/// not decrease, and none exceeds one hundred percent.
pub proof fn lemma_percent_sequence(positions: Seq<u64>, total: u64)
    requires
        total > 0,
        forall|i: int, j: int| 0 <= i < j < positions.len() ==> positions[i] < positions[j],
    ensures
        forall|i: int, j: int|
            0 <= i <= j < positions.len() ==> percent_of(#[trigger] positions[i], total)
                <= percent_of(#[trigger] positions[j], total),
        forall|i: int| 0 <= i < positions.len() ==> percent_of(#[trigger] positions[i], total) <= 100_000,
{
    assert forall|i: int, j: int| 0 <= i <= j < positions.len() implies percent_of(
        #[trigger] positions[i],
        total,
    ) <= percent_of(#[trigger] positions[j], total) by {
        lemma_percent_monotonic(positions[i], positions[j], total);
    }
    assert forall|i: int| 0 <= i < positions.len() implies percent_of(
        #[trigger] positions[i],
        total,
    ) <= 100_000 by {
        lemma_percent_monotonic(positions[i], positions[i], total);
    }
}

/// The part of the progress scale that belongs to one stage of a pipeline:
/// the stage begins at `start`, its whole work is worth `span`, and what it
/// reports never exceeds `cap`. All three are in thousandths of a percent.
#[derive(Clone, Copy, Debug, PartialEq, Eq, Structural)]
pub struct StageBand {
    pub start: u32,
    pub span: u32,
    pub cap: u32,
}

impl StageBand {
    /// The band lies on the scale: it begins at or below its cap, and neither
    /// its end nor its cap is beyond one hundred percent.
    pub open spec fn wf(self) -> bool {
        &&& self.start <= self.cap <= 100_000
        &&& self.start + self.span <= 100_000
    }

    /// What the stage reports when `done` of `total` units of work are done.
    pub open spec fn value(self, done: u32, total: u32) -> u32
        recommends
            total > 0,
    {
        let raw = self.start + done * self.span / (total as int);
        if raw > self.cap {
            self.cap
        } else {
            raw as u32
        }
    }

    /// What the stage reports when `done` of `total` units of work are done;
    /// no value where the total is zero and so unknown.
    pub fn progress(&self, done: u32, total: u32) -> (progress: Option<u32>)
        requires
            self.wf(),
        ensures
            total == 0 ==> progress is None,
            total > 0 ==> progress == Some(self.value(done, total)),
            progress matches Some(p) ==> self.start <= p <= self.cap,
    {
        if total == 0 {
            return None;
        }
        assert(done * self.span <= 0xFFFF_FFFF * 100_000) by (nonlinear_arith)
            requires
                0 <= done <= 0xFFFF_FFFF,
                0 <= self.span <= 100_000,
        ;
        let work: u64 = (done as u64) * (self.span as u64);
        let share: u64 = work / (total as u64);
        assert(share <= work) by {
            vstd::arithmetic::div_mod::lemma_div_nonincreasing(work as int, total as int);
        }
        let raw: u64 = self.start as u64 + share;
        if raw > self.cap as u64 {
            Some(self.cap)
        } else {
            Some(raw as u32)
        }
    }
}

/// Decoding to frames: the first five percent.
pub fn decode_band() -> (band: StageBand)
    ensures
        band == (StageBand { start: 0, span: 5_000, cap: 5_000 }),
        band.wf(),
{
    StageBand { start: 0, span: 5_000, cap: 5_000 }
}

/// Processing the frames: from five to ninety percent.
pub fn upscale_band() -> (band: StageBand)
    ensures
        band == (StageBand { start: 5_000, span: 85_000, cap: 90_000 }),
        band.wf(),
{
    StageBand { start: 5_000, span: 85_000, cap: 90_000 }
}

/// Encoding the frames: from ninety to one hundred percent.
pub fn encode_band() -> (band: StageBand)
    ensures
        band == (StageBand { start: 90_000, span: 10_000, cap: 100_000 }),
        band.wf(),
{
    StageBand { start: 90_000, span: 10_000, cap: 100_000 }
}

/// Within a stage, more work done never reports less progress, and what is
/// reported stays between the start of the band and its cap.
pub proof fn lemma_band_monotonic(band: StageBand, earlier: u32, later: u32, total: u32)
    requires
        band.wf(),
        earlier <= later,
        total > 0,
    ensures
        band.start <= band.value(earlier, total) <= band.value(later, total) <= band.cap,
{
    lemma_mul_inequality(earlier as int, later as int, band.span as int);
    lemma_div_is_ordered(earlier * band.span, later * band.span, total as int);
    assert(0 <= earlier * band.span) by (nonlinear_arith)
        requires
            0 <= earlier,
            0 <= band.span,
    ;
    lemma_div_is_ordered(0, earlier * band.span, total as int);
}

/// The number of frames in `duration` millionths of a second at `rate`,
/// rounded up, and at most what 32 bits hold.
pub open spec fn frames_in(duration: u64, rate: FrameRate) -> u32
    recommends
        rate.denominator > 0,
{
    let work = duration * rate.numerator;
    let unit = rate.denominator * 1_000_000;
    let frames = work / unit + if work % unit == 0 {
        0int
    } else {
        1int
    };
    if frames > u32::MAX {
        u32::MAX
    } else {
        frames as u32
    }
}

/// How many frames a stretch of `duration` millionths of a second holds at
/// `rate`; zero where the rate has no denominator.
pub fn estimate_total_frames(duration: u64, rate: FrameRate) -> (frames: u32)
    ensures
        rate.denominator > 0 ==> frames == frames_in(duration, rate),
        rate.denominator == 0 ==> frames == 0,
{
    if rate.denominator == 0 {
        return 0;
    }
    assert(duration * rate.numerator <= 0xFFFF_FFFF_FFFF_FFFF * 0xFFFF_FFFF_FFFF_FFFF) by (nonlinear_arith)
        requires
            0 <= duration <= 0xFFFF_FFFF_FFFF_FFFF,
            0 <= rate.numerator <= 0xFFFF_FFFF_FFFF_FFFF,
    ;
    let work: u128 = (duration as u128) * (rate.numerator as u128);
    let unit: u128 = (rate.denominator as u128) * 1_000_000;
    let whole: u128 = work / unit;
    let frames: u128 = if work % unit == 0 {
        whole
    } else if whole > u32::MAX as u128 {
        whole
    } else {
        whole + 1
    };
    if frames > u32::MAX as u128 {
        u32::MAX
    } else {
        frames as u32
    }
}

/// The number of frames that the later stages work through: the number that
/// was counted after decoding where that is known and positive, the estimate
/// otherwise.
pub fn resolve_total_frames(counted: Option<u32>, estimate: u32) -> (total: u32)
    ensures
        total == match counted {
            Some(n) => if n > 0 {
                n
            } else {
                estimate
            },
            None => estimate,
        },
{
    match counted {
        Some(n) => {
            if n > 0 {
                n
            } else {
                estimate
            }
        },
        None => estimate,
    }
}

} // verus!
