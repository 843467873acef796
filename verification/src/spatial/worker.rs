//! The worker of a spatial conversion: the arguments of the tool, and what
//! its reports mean.

use vstd::prelude::*;
use vstd::string::StringExecFns;
use crate::spatial::error::{SpatialError, SpatialErrorKind};
use crate::spatial::types::SpatialTask;
use crate::text::{
    decimal_string, decimal_text, integer_text, push_integer, push_string, push_text, str_eq,
    texts,
};

verus! {

/// The arguments at the end of the command line that depend on the job:
/// the flag that skips the downscale, and the limit on the duration.
pub open spec fn optional_args(task: SpatialTask) -> Seq<Seq<char>> {
    let skip = if task.config.skip_downscale {
        seq!["--skip-downscale"@]
    } else {
        Seq::empty()
    };
    let limit = match task.config.duration {
        Some(d) => seq!["--duration"@, d@],
        None => Seq::empty(),
    };
    skip + limit
}

/// The arguments with which the tool runner starts the tool for a job.
pub open spec fn spatial_args(task: SpatialTask) -> Seq<Seq<char>> {
    seq![
        "tool"@,
        "run"@,
        "spatial-maker"@,
        task.file_path@,
        "--json-progress"@,
        "--encoder"@,
        task.config.encoder_size@,
        "--max-disparity"@,
        decimal_text(task.config.max_disparity as nat),
    ] + optional_args(task)
}

/// The arguments with which the tool runner starts the tool for a job.
pub fn build_spatial_args(task: &SpatialTask) -> (args: Vec<String>)
    ensures
        texts(args@) == spatial_args(*task),
{
    let mut args: Vec<String> = Vec::new();
    assert(texts(args@) =~= Seq::<Seq<char>>::empty());
    push_text(&mut args, "tool");
    push_text(&mut args, "run");
    push_text(&mut args, "spatial-maker");
    push_text(&mut args, task.file_path.as_str());
    push_text(&mut args, "--json-progress");
    push_text(&mut args, "--encoder");
    push_text(&mut args, task.config.encoder_size.as_str());
    push_text(&mut args, "--max-disparity");
    push_string(&mut args, decimal_string(task.config.max_disparity as u64));
    let ghost head = texts(args@);
    let ghost mut tail: Seq<Seq<char>> = Seq::empty();
    if task.config.skip_downscale {
        push_text(&mut args, "--skip-downscale");
        proof {
            tail = seq!["--skip-downscale"@];
        }
    }
    match &task.config.duration {
        Some(d) => {
            push_text(&mut args, "--duration");
            push_text(&mut args, d.as_str());
            proof {
                tail = tail + seq!["--duration"@, d@];
            }
        },
        None => {},
    }
    assert(texts(args@) =~= head + tail);
    assert(tail =~= optional_args(*task));
    args
}

/// The progress, in thousandths of a percent, at which a stage of the tool
/// begins; zero for a stage that is not known.
pub open spec fn stage_start(stage: Seq<char>) -> u32 {
    if stage == "downscale"@ {
        5_000
    } else if stage == "depth_stereo"@ {
        10_000
    } else if stage == "audio_mux"@ {
        85_000
    } else if stage == "spatial_make"@ {
        90_000
    } else {
        0
    }
}

/// The progress at which a stage of the tool begins.
pub fn stage_progress(stage: &str) -> (progress: u32)
    ensures
        progress == stage_start(stage@),
{
    if str_eq(stage, "downscale") {
        5_000
    } else if str_eq(stage, "depth_stereo") {
        10_000
    } else if str_eq(stage, "audio_mux") {
        85_000
    } else if str_eq(stage, "spatial_make") {
        90_000
    } else {
        0
    }
}

/// The progress of the whole job when the depth stage, which makes up the
/// stretch from ten to eighty-five percent, has come `stage_progress` far.
/// Both are in thousandths of a percent.
pub open spec fn depth_mapped(stage_progress: u32) -> u64 {
    (10_000 + stage_progress * 75 / 100) as u64
}

/// The progress of the whole job for a progress of the depth stage.
pub fn map_depth_progress(stage_progress: u32) -> (progress: u64)
    ensures
        progress == depth_mapped(stage_progress),
        stage_progress <= 100_000 ==> 10_000 <= progress <= 85_000,
{
    10_000 + (stage_progress as u64) * 75 / 100
}

/// The further the depth stage has come, the further has the whole job.
pub proof fn lemma_depth_monotonic(earlier: u32, later: u32)
    requires
        earlier <= later,
    ensures
        depth_mapped(earlier) <= depth_mapped(later),
{
}

/// How a job ends: in success where the tool left with success, else in a
/// worker error that names the status, `-1` where the tool gave none.
pub fn conclude(success: bool, code: Option<i32>) -> (outcome: Result<(), SpatialError>)
    ensures
        success ==> outcome is Ok,
        !success ==> (outcome matches Err(e) && e@ == (
            SpatialErrorKind::Worker,
            "spatial-maker exited with code "@ + integer_text(
                match code {
                    Some(c) => c as int,
                    None => -1,
                },
            ),
        )),
{
    if success {
        Ok(())
    } else {
        let shown: i64 = match code {
            Some(c) => c as i64,
            None => -1,
        };
        let mut text = String::from_str("spatial-maker exited with code ");
        push_integer(&mut text, shown);
        Err(SpatialError::Worker(text))
    }
}

/// What the tool reports in one line of its output, as far as the worker
/// reads it.
#[derive(Clone, Debug)]
pub struct ToolReport {
    /// The kind of report.
    pub event: Option<String>,
    /// The stage that begins.
    pub stage: Option<String>,
    /// How far the depth stage has come, in thousandths of a percent.
    pub pct: Option<u32>,
    /// Where the output was written.
    pub output: Option<String>,
    /// What went wrong.
    pub message: Option<String>,
}

/// What the worker passes on to the client for a report of the tool.
pub enum ToolAction {
    /// Progress, in thousandths of a percent, within the named stage.
    Progress { progress: u64, stage: String },
    /// The output is written at this place.
    Completed(String),
    /// A line to show.
    Log(String),
}

/// A [`ToolAction`] as a mathematical value.
pub enum ToolEffect {
    Progress { progress: u64, stage: Seq<char> },
    Completed(Seq<char>),
    Log(Seq<char>),
}

impl View for ToolAction {
    type V = ToolEffect;

    open spec fn view(&self) -> ToolEffect {
        match self {
            ToolAction::Progress { progress, stage } => ToolEffect::Progress {
                progress: *progress,
                stage: stage@,
            },
            ToolAction::Completed(path) => ToolEffect::Completed(path@),
            ToolAction::Log(line) => ToolEffect::Log(line@),
        }
    }
}

/// A text, or `fallback` where there is none.
pub open spec fn text_or(text: Option<String>, fallback: Seq<char>) -> Seq<char> {
    match text {
        Some(t) => t@,
        None => fallback,
    }
}

/// What is passed on for a report: the start of a stage becomes the
/// progress at which the stage begins; progress of the depth stage becomes
/// progress of the whole; the end becomes the place of the output; an error
/// becomes a line to show. Any other report is passed over.
pub open spec fn passed_on(report: ToolReport) -> Option<ToolEffect> {
    match report.event {
        Some(kind) => if kind@ == "stage"@ {
            let stage = text_or(report.stage, "unknown"@);
            Some(ToolEffect::Progress { progress: stage_start(stage) as u64, stage })
        } else if kind@ == "progress"@ {
            match report.pct {
                Some(pct) => Some(
                    ToolEffect::Progress { progress: depth_mapped(pct), stage: "depth_stereo"@ },
                ),
                None => None,
            }
        } else if kind@ == "done"@ {
            Some(ToolEffect::Completed(text_or(report.output, Seq::empty())))
        } else if kind@ == "error"@ {
            Some(ToolEffect::Log("[SPATIAL ERROR] "@ + text_or(report.message, "Unknown error"@)))
        } else {
            None
        },
        None => None,
    }
}

fn text_or_else(text: &Option<String>, fallback: &str) -> (out: String)
    ensures
        out@ == text_or(*text, fallback@),
{
    match text {
        Some(t) => t.clone(),
        None => String::from_str(fallback),
    }
}

/// What the worker passes on to the client for a report of the tool.
pub fn interpret_report(report: &ToolReport) -> (action: Option<ToolAction>)
    ensures
        match passed_on(*report) {
            Some(effect) => (action matches Some(a) && a@ == effect),
            None => action is None,
        },
{
    let kind = match &report.event {
        Some(kind) => kind,
        None => {
            return None;
        },
    };
    proof {
        reveal_strlit("");
        assert(""@ =~= Seq::<char>::empty());
    }
    if str_eq(kind.as_str(), "stage") {
        let stage = text_or_else(&report.stage, "unknown");
        let progress = stage_progress(stage.as_str()) as u64;
        Some(ToolAction::Progress { progress, stage })
    } else if str_eq(kind.as_str(), "progress") {
        match report.pct {
            Some(pct) => Some(
                ToolAction::Progress {
                    progress: map_depth_progress(pct),
                    stage: String::from_str("depth_stereo"),
                },
            ),
            None => None,
        }
    } else if str_eq(kind.as_str(), "done") {
        Some(ToolAction::Completed(text_or_else(&report.output, "")))
    } else if str_eq(kind.as_str(), "error") {
        let message = text_or_else(&report.message, "Unknown error");
        Some(ToolAction::Log(String::from_str("[SPATIAL ERROR] ").concat(message.as_str())))
    } else {
        None
    }
}

} // verus!
