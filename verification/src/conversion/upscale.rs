//! The pipeline that processes single frames: decoding, processing and
//! encoding, one stage after the other, with progress on one scale.

use vstd::prelude::*;
use vstd::string::StringExecFns;
use crate::conversion::error::{ConversionError, ErrorKind};
use crate::conversion::patterns::{capture_frame, FRAME_PATTERN};
use crate::matching::first_capture;
use crate::conversion::progress::{
    decode_band, encode_band, resolve_total_frames, upscale_band, StageBand,
};
use crate::conversion::worker::{exit_code_text, push_exit_code, raw_lines, split_raw_lines};
use crate::text::{
    chars_contain, chars_of, contains_text, decimal_text, is_digit, parse_u32, parsed_u32,
    push_decimal, str_eq, string_of, texts, trim, trimmed,
};

verus! {

/// The scale factor and the model that an upscale mode stands for.
pub open spec fn upscale_mode(mode: Seq<char>) -> Option<(Seq<char>, Seq<char>)> {
    if mode == "esrgan-2x"@ {
        Some(("2"@, "realesr-animevideov3-x2"@))
    } else if mode == "esrgan-4x"@ {
        Some(("4"@, "realesr-animevideov3-x4"@))
    } else {
        None
    }
}

/// The scale factor and the name of the model for an upscale mode; an
/// unknown mode is invalid input.
pub fn resolve_upscale_mode(
    mode: &str,
) -> (resolved: Result<(&'static str, &'static str), ConversionError>)
    ensures
        match upscale_mode(mode@) {
            Some((scale, model)) => (resolved matches Ok(pair) && pair.0@ == scale && pair.1@ == model),
            None => (resolved matches Err(e) && e@ == (
                ErrorKind::InvalidInput,
                "Invalid upscale mode: "@ + mode@,
            )),
        },
{
    if str_eq(mode, "esrgan-2x") {
        Ok(("2", "realesr-animevideov3-x2"))
    } else if str_eq(mode, "esrgan-4x") {
        Ok(("4", "realesr-animevideov3-x4"))
    } else {
        Err(ConversionError::InvalidInput(String::from_str("Invalid upscale mode: ").concat(mode)))
    }
}

/// How many frames the frame processor works on at once: one where the
/// output has more pixels than a 4K picture, two where it has more than a
/// 1080p picture, four otherwise.
pub open spec fn inference_slots(source_width: u32, source_height: u32, scale: u32) -> u64 {
    let pixels = (source_width * scale) * (source_height * scale);
    if pixels > 8_294_400 {
        1
    } else if pixels > 2_073_600 {
        2
    } else {
        4
    }
}

/// How many threads read and write frames: half the processors, rounded up,
/// but at least one and at most four.
pub open spec fn io_threads(cpus: u32) -> u64 {
    let half = (cpus + 1) / 2;
    if half < 1 {
        1
    } else if half > 4 {
        4
    } else {
        half as u64
    }
}

/// The thread setting of the frame processor: threads that load, frames in
/// flight, threads that save, with colons between them.
pub open spec fn upscale_threads(
    source_width: u32,
    source_height: u32,
    scale: u32,
    cpus: u32,
) -> Seq<char> {
    decimal_text(io_threads(cpus) as nat) + ":"@ + decimal_text(
        inference_slots(source_width, source_height, scale) as nat,
    ) + ":"@ + decimal_text(io_threads(cpus) as nat)
}

/// The thread setting of the frame processor for a source of the given size
/// that is enlarged `scale` times, on a machine with `cpus` processors.
pub fn compute_upscale_threads(
    source_width: u32,
    source_height: u32,
    scale: u32,
    cpus: u32,
) -> (setting: String)
    ensures
        setting@ == upscale_threads(source_width, source_height, scale, cpus),
{
    assert(source_width * scale <= 0xFFFF_FFFF * 0xFFFF_FFFF) by (nonlinear_arith)
        requires
            0 <= source_width <= 0xFFFF_FFFF,
            0 <= scale <= 0xFFFF_FFFF,
    ;
    assert(source_height * scale <= 0xFFFF_FFFF * 0xFFFF_FFFF) by (nonlinear_arith)
        requires
            0 <= source_height <= 0xFFFF_FFFF,
            0 <= scale <= 0xFFFF_FFFF,
    ;
    let out_width: u128 = (source_width as u128) * (scale as u128);
    let out_height: u128 = (source_height as u128) * (scale as u128);
    assert(out_width * out_height <= 0xFFFF_FFFE_0000_0001 * 0xFFFF_FFFE_0000_0001) by (nonlinear_arith)
        requires
            0 <= out_width <= 0xFFFF_FFFE_0000_0001,
            0 <= out_height <= 0xFFFF_FFFE_0000_0001,
    ;
    let pixels: u128 = out_width * out_height;
    let slots: u64 = if pixels > 8_294_400 {
        1
    } else if pixels > 2_073_600 {
        2
    } else {
        4
    };
    let half: u64 = (cpus as u64 + 1) / 2;
    let io: u64 = if half < 1 {
        1
    } else if half > 4 {
        4
    } else {
        half
    };
    let mut setting = String::new();
    push_decimal(&mut setting, io);
    setting.append(":");
    push_decimal(&mut setting, slots);
    setting.append(":");
    push_decimal(&mut setting, io);
    proof {
        let a = decimal_text(io as nat);
        let b = decimal_text(slots as nat);
        assert(Seq::<char>::empty() + a + ":"@ + b + ":"@ + a =~= a + ":"@ + b + ":"@ + a);
    }
    setting
}

/// The stages of the pipeline that processes single frames.
#[derive(Clone, Copy, Debug, PartialEq, Eq, Structural)]
pub enum Stage {
    /// The encoder's decoder writes the frames of the source as pictures.
    Decode,
    /// The pictures that were written are counted.
    Count,
    /// The frame processor works through the pictures.
    Upscale,
    /// The processed pictures become the output.
    Encode,
    /// The pipeline has ended, in success or in failure.
    Finished,
}

/// What happens to a pipeline.
pub enum PipelineEvent {
    /// The process of the current stage has written a line.
    Line(String),
    /// The process of the current stage has ended with this status.
    Exited(Option<i32>),
    /// The output of the current process has ended without a status.
    Closed,
    /// The decoded pictures have been counted, where that was possible.
    FramesCounted(Option<u32>),
}

/// What a pipeline asks its surroundings to do.
pub enum PipelineAction {
    /// Show a line of text to the client.
    Log(String),
    /// Report progress, in thousandths of a percent.
    Progress(u32),
    /// Count the decoded pictures and report the number.
    CountFrames,
    /// Launch the frame processor.
    StartUpscaler,
    /// Launch the encoder on the processed pictures.
    StartEncoder,
    /// Remove the scratch directory.
    RemoveTempDir,
    /// Report that the output is written.
    Complete,
    /// Give up with this error.
    Fail(ConversionError),
}

/// A [`PipelineAction`] as a mathematical value.
pub enum PipelineEffect {
    Log(Seq<char>),
    Progress(u32),
    CountFrames,
    StartUpscaler,
    StartEncoder,
    RemoveTempDir,
    Complete,
    Fail(ErrorKind, Seq<char>),
}

impl View for PipelineAction {
    type V = PipelineEffect;

    open spec fn view(&self) -> PipelineEffect {
        match self {
            PipelineAction::Log(line) => PipelineEffect::Log(line@),
            PipelineAction::Progress(p) => PipelineEffect::Progress(*p),
            PipelineAction::CountFrames => PipelineEffect::CountFrames,
            PipelineAction::StartUpscaler => PipelineEffect::StartUpscaler,
            PipelineAction::StartEncoder => PipelineEffect::StartEncoder,
            PipelineAction::RemoveTempDir => PipelineEffect::RemoveTempDir,
            PipelineAction::Complete => PipelineEffect::Complete,
            PipelineAction::Fail(e) => PipelineEffect::Fail(e@.0, e@.1),
        }
    }
}

/// The effects that a list of actions stands for.
pub open spec fn pipeline_effects(actions: Seq<PipelineAction>) -> Seq<PipelineEffect> {
    actions.map_values(|a: PipelineAction| a@)
}

/// The raw progress of the frame processor after `completed` of `total`
/// frames, in thousandths of a percent: five percent for the decoding that
/// went before, and a share of eighty-five for its own work. It is not
/// capped: it serves to tell whether progress was made.
pub open spec fn upscale_raw(completed: u32, total: u32) -> u64
    recommends
        total > 0,
{
    (5_000 + completed * 85_000 / (total as int)) as u64
}

/// Whether a line of the frame processor only states a percentage: it ends
/// in a percent sign and begins with a digit.
pub open spec fn is_percentage_line(line: Seq<char>) -> bool {
    line.len() > 0 && line.last() == '%' && is_digit(line[0])
}

/// Whether a line of the frame processor says that a frame is done: it
/// holds an arrow, in either spelling.
pub open spec fn marks_frame_done(line: Seq<char>) -> bool {
    contains_text(line, seq!['\u{2192}']) || contains_text(line, "->"@)
}

/// The progress that a stage reports for a line in which the tool names the
/// frame `frame`: none where the line names none, where the number cannot be
/// read, or where the total is zero.
pub open spec fn frame_progress(
    band: StageBand,
    frame: Option<Seq<char>>,
    total: u32,
) -> Option<u32> {
    match frame {
        Some(text) => match parsed_u32(text) {
            Some(current) => if total > 0 {
                Some(band.value(current, total))
            } else {
                None
            },
            None => None,
        },
        None => None,
    }
}

/// The bookkeeping of a pipeline as a mathematical value.
pub struct PipelineState {
    pub stage: Stage,
    pub total_frames: u32,
    pub completed_frames: u32,
    pub last_raw: u64,
    pub last_line: Seq<char>,
}

impl PipelineState {
    /// A line with the name of its stage in front.
    pub open spec fn tagged(tag: Seq<char>, line: Seq<char>) -> Seq<char> {
        tag + trim(line)
    }

    /// A line of the decoder or of the encoder: it is shown, and the frame
    /// that it names becomes progress within the band of the stage.
    pub open spec fn frame_line(self, tag: Seq<char>, band: StageBand, line: Seq<char>) -> (
        PipelineState,
        Seq<PipelineEffect>,
    ) {
        let log = seq![PipelineEffect::Log(Self::tagged(tag, line))];
        match frame_progress(band, first_capture(FRAME_PATTERN@, line), self.total_frames) {
            Some(p) => (self, log.push(PipelineEffect::Progress(p))),
            None => (self, log),
        }
    }

    /// A line of the frame processor. It is remembered as the last line. It
    /// is shown unless it is empty or only states a percentage. Where it says
    /// that a frame is done, one more frame counts as completed, and progress
    /// is reported where the raw progress has grown; what is reported stops
    /// at ninety percent.
    pub open spec fn upscale_line(self, line: Seq<char>) -> (PipelineState, Seq<PipelineEffect>) {
        let shown = trim(line);
        let log = if !is_percentage_line(shown) && shown.len() > 0 {
            seq![PipelineEffect::Log("[UPSCALE] "@ + shown)]
        } else {
            Seq::empty()
        };
        let noted = PipelineState { last_line: line, ..self };
        if marks_frame_done(line) {
            let completed = if self.completed_frames < u32::MAX {
                (self.completed_frames + 1) as u32
            } else {
                self.completed_frames
            };
            let counted = PipelineState { completed_frames: completed, ..noted };
            if self.total_frames > 0 && upscale_raw(completed, self.total_frames) > self.last_raw {
                let raw = upscale_raw(completed, self.total_frames);
                let capped = if raw > 90_000 {
                    90_000u32
                } else {
                    raw as u32
                };
                (
                    PipelineState { last_raw: raw, ..counted },
                    log.push(PipelineEffect::Progress(capped)),
                )
            } else {
                (counted, log)
            }
        } else {
            (noted, log)
        }
    }

    /// The pipeline gives up: the scratch directory goes, and a worker error
    /// with this detail is the end.
    pub open spec fn give_up(self, detail: Seq<char>) -> (PipelineState, Seq<PipelineEffect>) {
        (
            PipelineState { stage: Stage::Finished, ..self },
            seq![PipelineEffect::RemoveTempDir, PipelineEffect::Fail(ErrorKind::Worker, detail)],
        )
    }

    /// The state after an event, and what is to be done.
    pub open spec fn next(self, event: PipelineEvent) -> (PipelineState, Seq<PipelineEffect>) {
        match (self.stage, event) {
            (Stage::Decode, PipelineEvent::Line(line)) => self.frame_line(
                "[DECODE] "@,
                StageBand { start: 0, span: 5_000, cap: 5_000 },
                line@,
            ),
            (Stage::Decode, PipelineEvent::Exited(code)) => if code == Some(0i32) {
                (PipelineState { stage: Stage::Count, ..self }, seq![PipelineEffect::CountFrames])
            } else {
                self.give_up("Frame extraction failed"@)
            },
            (Stage::Decode, PipelineEvent::Closed) => self.give_up("Frame extraction failed"@),
            (Stage::Count, PipelineEvent::FramesCounted(counted)) => {
                let total = match counted {
                    Some(n) => if n > 0 {
                        n
                    } else {
                        self.total_frames
                    },
                    None => self.total_frames,
                };
                (
                    PipelineState { stage: Stage::Upscale, total_frames: total, ..self },
                    seq![PipelineEffect::StartUpscaler],
                )
            },
            (Stage::Upscale, PipelineEvent::Line(line)) => self.upscale_line(line@),
            (Stage::Upscale, PipelineEvent::Exited(code)) => if code == Some(0i32) {
                (PipelineState { stage: Stage::Encode, ..self }, seq![PipelineEffect::StartEncoder])
            } else {
                self.give_up("Upscaling failed: "@ + self.last_line)
            },
            (Stage::Upscale, PipelineEvent::Closed) => self.give_up(
                "Upscaling failed: "@ + self.last_line,
            ),
            (Stage::Encode, PipelineEvent::Line(line)) => self.frame_line(
                "[ENCODE] "@,
                StageBand { start: 90_000, span: 10_000, cap: 100_000 },
                line@,
            ),
            (Stage::Encode, PipelineEvent::Exited(code)) => if code == Some(0i32) {
                (
                    PipelineState { stage: Stage::Finished, ..self },
                    seq![PipelineEffect::RemoveTempDir, PipelineEffect::Complete],
                )
            } else {
                self.give_up("Encoder failed with code "@ + exit_code_text(code))
            },
            (Stage::Encode, PipelineEvent::Closed) => self.give_up(
                "Encoder terminated unexpectedly before reporting exit status"@,
            ),
            _ => (self, Seq::empty()),
        }
    }
}

/// The pipeline of a job that processes single frames: which stage runs,
/// how many frames there are, how many the frame processor has done, the raw
/// progress that was last reported for it, and its last line.
pub struct UpscalePipeline {
    stage: Stage,
    total_frames: u32,
    completed_frames: u32,
    last_raw: u64,
    last_line: String,
}

impl View for UpscalePipeline {
    type V = PipelineState;

    closed spec fn view(&self) -> PipelineState {
        PipelineState {
            stage: self.stage,
            total_frames: self.total_frames,
            completed_frames: self.completed_frames,
            last_raw: self.last_raw,
            last_line: self.last_line@,
        }
    }
}

/// The progress that a stage reports for the frame number `frame`, as text.
pub fn stage_frame_progress(
    band: StageBand,
    frame: Option<&str>,
    total: u32,
) -> (progress: Option<u32>)
    requires
        band.wf(),
    ensures
        progress == frame_progress(
            band,
            match frame {
                Some(f) => Some(f@),
                None => None,
            },
            total,
        ),
        progress matches Some(p) ==> band.start <= p <= band.cap,
{
    match frame {
        Some(text) => {
            let chars = chars_of(text);
            match parse_u32(&chars) {
                Some(current) => band.progress(current, total),
                None => None,
            }
        },
        None => None,
    }
}

impl UpscalePipeline {
    /// A pipeline at the start of its first stage, with `estimate` as the
    /// number of frames until they have been counted.
    pub fn new(estimate: u32) -> (pipeline: Self)
        ensures
            pipeline@ == (PipelineState {
                stage: Stage::Decode,
                total_frames: estimate,
                completed_frames: 0,
                last_raw: 5_000,
                last_line: Seq::<char>::empty(),
            }),
    {
        UpscalePipeline {
            stage: Stage::Decode,
            total_frames: estimate,
            completed_frames: 0,
            last_raw: 5_000,
            last_line: String::new(),
        }
    }

    /// The stage that runs.
    pub fn stage(&self) -> (stage: Stage)
        ensures
            stage == self@.stage,
    {
        self.stage
    }

    /// The number of frames that the stages measure their progress against.
    pub fn total_frames(&self) -> (total: u32)
        ensures
            total == self@.total_frames,
    {
        self.total_frames
    }

    fn on_frame_line(
        &self,
        tag: &str,
        band: StageBand,
        line: &str,
        actions: &mut Vec<PipelineAction>,
    )
        requires
            band.wf(),
            old(actions)@.len() == 0,
        ensures
            pipeline_effects(final(actions)@) == self@.frame_line(tag@, band, line@).1,
    {
        let shown = trimmed(&chars_of(line));
        let text = String::from_str(tag).concat(string_of(&shown).as_str());
        actions.push(PipelineAction::Log(text));
        let frame = capture_frame(line);
        let frame_text: Option<&str> = match &frame {
            Some(f) => Some(f.as_str()),
            None => None,
        };
        let ghost log = seq![PipelineEffect::Log(PipelineState::tagged(tag@, line@))];
        assert(pipeline_effects(actions@) =~= log);
        match stage_frame_progress(band, frame_text, self.total_frames) {
            Some(p) => {
                actions.push(PipelineAction::Progress(p));
                assert(pipeline_effects(actions@) =~= log.push(PipelineEffect::Progress(p)));
            },
            None => {},
        }
    }

    fn on_upscale_line(&mut self, line: String, actions: &mut Vec<PipelineAction>)
        requires
            old(actions)@.len() == 0,
        ensures
            final(self)@ == old(self)@.upscale_line(line@).0,
            pipeline_effects(final(actions)@) == old(self)@.upscale_line(line@).1,
    {
        let chars = chars_of(line.as_str());
        let shown = trimmed(&chars);
        let percentage = shown.len() > 0 && shown[shown.len() - 1] == '%' && crate::text::char_is_digit(
            shown[0],
        );
        assert(pipeline_effects(actions@) =~= Seq::<PipelineEffect>::empty());
        if !percentage && shown.len() > 0 {
            let text = String::from_str("[UPSCALE] ").concat(string_of(&shown).as_str());
            actions.push(PipelineAction::Log(text));
            assert(pipeline_effects(actions@) =~= seq![PipelineEffect::Log("[UPSCALE] "@ + shown@)]);
        }
        let ghost log = pipeline_effects(actions@);
        let mut arrow: Vec<char> = Vec::new();
        arrow.push('\u{2192}');
        assert(arrow@ =~= seq!['\u{2192}']);
        let ascii_arrow = chars_of("->");
        let done = chars_contain(&chars, &arrow) || chars_contain(&chars, &ascii_arrow);
        self.last_line = line;
        if done {
            if self.completed_frames < u32::MAX {
                self.completed_frames = self.completed_frames + 1;
            }
            if self.total_frames > 0 {
                assert(self.completed_frames * 85_000 <= 0xFFFF_FFFF * 85_000) by (nonlinear_arith)
                    requires
                        0 <= self.completed_frames <= 0xFFFF_FFFF,
                ;
                let raw: u64 = 5_000 + (self.completed_frames as u64) * 85_000 / (
                self.total_frames as u64);
                if raw > self.last_raw {
                    self.last_raw = raw;
                    let capped: u32 = if raw > 90_000 {
                        90_000
                    } else {
                        raw as u32
                    };
                    actions.push(PipelineAction::Progress(capped));
                    assert(pipeline_effects(actions@) =~= log.push(PipelineEffect::Progress(capped)));
                }
            }
        }
    }

    fn fail(&mut self, detail: String, actions: &mut Vec<PipelineAction>)
        requires
            old(actions)@.len() == 0,
        ensures
            final(self)@ == old(self)@.give_up(detail@).0,
            pipeline_effects(final(actions)@) == old(self)@.give_up(detail@).1,
    {
        self.stage = Stage::Finished;
        actions.push(PipelineAction::RemoveTempDir);
        actions.push(PipelineAction::Fail(ConversionError::Worker(detail)));
        assert(pipeline_effects(actions@) =~= seq![
            PipelineEffect::RemoveTempDir,
            PipelineEffect::Fail(ErrorKind::Worker, detail@),
        ]);
    }

    /// Takes one event: brings the bookkeeping up to date and returns what is
    /// to be done, in order. An event that does not belong to the stage that
    /// runs changes nothing and asks for nothing.
    pub fn step(&mut self, event: PipelineEvent) -> (actions: Vec<PipelineAction>)
        ensures
            final(self)@ == old(self)@.next(event).0,
            pipeline_effects(actions@) == old(self)@.next(event).1,
    {
        let mut actions: Vec<PipelineAction> = Vec::new();
        assert(pipeline_effects(actions@) =~= Seq::<PipelineEffect>::empty());
        match self.stage {
            Stage::Decode => match event {
                PipelineEvent::Line(line) => {
                    self.on_frame_line("[DECODE] ", decode_band(), line.as_str(), &mut actions);
                },
                PipelineEvent::Exited(code) => {
                    if is_success(code) {
                        self.stage = Stage::Count;
                        actions.push(PipelineAction::CountFrames);
                        assert(pipeline_effects(actions@) =~= seq![PipelineEffect::CountFrames]);
                    } else {
                        self.fail(String::from_str("Frame extraction failed"), &mut actions);
                    }
                },
                PipelineEvent::Closed => {
                    self.fail(String::from_str("Frame extraction failed"), &mut actions);
                },
                PipelineEvent::FramesCounted(_) => {},
            },
            Stage::Count => match event {
                PipelineEvent::FramesCounted(counted) => {
                    self.total_frames = resolve_total_frames(counted, self.total_frames);
                    self.stage = Stage::Upscale;
                    actions.push(PipelineAction::StartUpscaler);
                    assert(pipeline_effects(actions@) =~= seq![PipelineEffect::StartUpscaler]);
                },
                _ => {},
            },
            Stage::Upscale => match event {
                PipelineEvent::Line(line) => {
                    self.on_upscale_line(line, &mut actions);
                },
                PipelineEvent::Exited(code) => {
                    if is_success(code) {
                        self.stage = Stage::Encode;
                        actions.push(PipelineAction::StartEncoder);
                        assert(pipeline_effects(actions@) =~= seq![PipelineEffect::StartEncoder]);
                    } else {
                        let detail = String::from_str("Upscaling failed: ").concat(
                            self.last_line.as_str(),
                        );
                        self.fail(detail, &mut actions);
                    }
                },
                PipelineEvent::Closed => {
                    let detail = String::from_str("Upscaling failed: ").concat(
                        self.last_line.as_str(),
                    );
                    self.fail(detail, &mut actions);
                },
                PipelineEvent::FramesCounted(_) => {},
            },
            Stage::Encode => match event {
                PipelineEvent::Line(line) => {
                    self.on_frame_line("[ENCODE] ", encode_band(), line.as_str(), &mut actions);
                },
                PipelineEvent::Exited(code) => {
                    if is_success(code) {
                        self.stage = Stage::Finished;
                        actions.push(PipelineAction::RemoveTempDir);
                        actions.push(PipelineAction::Complete);
                        assert(pipeline_effects(actions@) =~= seq![
                            PipelineEffect::RemoveTempDir,
                            PipelineEffect::Complete,
                        ]);
                    } else {
                        let mut detail = String::from_str("Encoder failed with code ");
                        push_exit_code(&mut detail, code);
                        self.fail(detail, &mut actions);
                    }
                },
                PipelineEvent::Closed => {
                    self.fail(
                        String::from_str(
                            "Encoder terminated unexpectedly before reporting exit status",
                        ),
                        &mut actions,
                    );
                },
                PipelineEvent::FramesCounted(_) => {},
            },
            Stage::Finished => {},
        }
        actions
    }
}

impl PipelineState {
    /// What a line of output does to the pipeline: what the event of that
    /// line does, where a process runs that writes lines; nothing else.
    pub open spec fn line_step(self, line: Seq<char>) -> (PipelineState, Seq<PipelineEffect>) {
        match self.stage {
            Stage::Decode => self.frame_line(
                "[DECODE] "@,
                StageBand { start: 0, span: 5_000, cap: 5_000 },
                line,
            ),
            Stage::Upscale => self.upscale_line(line),
            Stage::Encode => self.frame_line(
                "[ENCODE] "@,
                StageBand { start: 90_000, span: 10_000, cap: 100_000 },
                line,
            ),
            _ => (self, Seq::empty()),
        }
    }

    /// The state after the lines have been taken one after the other.
    pub open spec fn after_lines(self, lines: Seq<Seq<char>>) -> PipelineState
        decreases lines.len(),
    {
        if lines.len() == 0 {
            self
        } else {
            self.after_lines(lines.drop_last()).line_step(lines.last()).0
        }
    }

    /// Everything that is asked for while the lines are taken, in order.
    pub open spec fn line_effects(self, lines: Seq<Seq<char>>) -> Seq<PipelineEffect>
        decreases lines.len(),
    {
        if lines.len() == 0 {
            Seq::empty()
        } else {
            self.line_effects(lines.drop_last()) + self.after_lines(lines.drop_last()).line_step(
                lines.last(),
            ).1
        }
    }
}

/// A line of output is taken as the event of that line is.
pub proof fn lemma_line_step_is_next(s: PipelineState, line: String)
    ensures
        s.line_step(line@) == s.next(PipelineEvent::Line(line)),
{
}

impl UpscalePipeline {
    /// Takes a piece of the output of the process that runs: every line of
    /// it that is not empty is taken as an event of its own. Returns what is
    /// to be done, in order.
    pub fn on_chunk(&mut self, raw: &str) -> (actions: Vec<PipelineAction>)
        ensures
            final(self)@ == old(self)@.after_lines(raw_lines(raw@)),
            pipeline_effects(actions@) == old(self)@.line_effects(raw_lines(raw@)),
    {
        let mut lines = split_raw_lines(raw);
        let ghost all = texts(lines@);
        let mut actions: Vec<PipelineAction> = Vec::new();
        let mut taken: usize = 0;
        let total: usize = lines.len();
        assert(all.subrange(0, 0) =~= Seq::<Seq<char>>::empty());
        assert(pipeline_effects(actions@) =~= Seq::<PipelineEffect>::empty());
        while lines.len() > 0
            invariant
                taken + lines@.len() == total,
                total == all.len(),
                texts(lines@) == all.subrange(taken as int, total as int),
                self@ == old(self)@.after_lines(all.subrange(0, taken as int)),
                pipeline_effects(actions@) == old(self)@.line_effects(all.subrange(0, taken as int)),
            decreases lines@.len(),
        {
            let ghost before = texts(lines@);
            let line = lines.remove(0);
            proof {
                assert(texts(lines@) =~= before.drop_first());
                assert(before[0] == line@);
                assert(all[taken as int] == line@);
                let upto = all.subrange(0, taken + 1);
                assert(upto.drop_last() =~= all.subrange(0, taken as int));
                assert(upto.last() == line@);
                lemma_line_step_is_next(self@, line);
                assert(texts(lines@) =~= all.subrange(taken + 1, total as int));
            }
            let mut asked = self.step(PipelineEvent::Line(line));
            append_actions(&mut actions, &mut asked);
            taken += 1;
        }
        assert(all.subrange(0, total as int) =~= all);
        actions
    }
}

/// Moves the actions of `more` behind those of `actions`.
fn append_actions(actions: &mut Vec<PipelineAction>, more: &mut Vec<PipelineAction>)
    ensures
        pipeline_effects(final(actions)@) == pipeline_effects(old(actions)@) + pipeline_effects(
            old(more)@,
        ),
{
    let ghost first = pipeline_effects(actions@);
    let ghost second = pipeline_effects(more@);
    actions.append(more);
    assert(pipeline_effects(actions@) =~= first + second);
}

/// Whether a process that ended with this status succeeded.
pub fn is_success(code: Option<i32>) -> (ok: bool)
    ensures
        ok == (code == Some(0i32)),
{
    match code {
        Some(0) => true,
        _ => false,
    }
}

/// Whether an effect ends a job: it reports completion or failure.
pub open spec fn is_terminal(effect: PipelineEffect) -> bool {
    effect is Complete || effect is Fail
}

/// How many of the effects end the job.
pub open spec fn terminal_count(effects: Seq<PipelineEffect>) -> nat
    decreases effects.len(),
{
    if effects.len() == 0 {
        0
    } else {
        terminal_count(effects.drop_last()) + if is_terminal(effects.last()) {
            1nat
        } else {
            0nat
        }
    }
}

/// A pipeline that has ended stays as it is and asks for nothing more.
pub proof fn lemma_finished_is_final(s: PipelineState, event: PipelineEvent)
    requires
        s.stage == Stage::Finished,
    ensures
        s.next(event) == (s, Seq::<PipelineEffect>::empty()),
{
}

/// A job is ended exactly once: an event reports completion or failure
/// exactly when it brings the pipeline to its end, and then only once, as
/// the last thing it asks for and after the scratch directory has gone.
pub proof fn lemma_one_terminal_report(s: PipelineState, event: PipelineEvent)
    ensures
        ({
            let (after, effects) = s.next(event);
            let ends = s.stage != Stage::Finished && after.stage == Stage::Finished;
            &&& terminal_count(effects) == if ends {
                1nat
            } else {
                0nat
            }
            &&& ends ==> effects.len() == 2 && effects[0] == PipelineEffect::RemoveTempDir
                && is_terminal(effects[1])
        }),
{
    let (after, effects) = s.next(event);
    reveal_with_fuel(terminal_count, 4);
    if effects.len() == 1 {
        assert(effects.drop_last() =~= Seq::<PipelineEffect>::empty());
    } else if effects.len() == 2 {
        assert(effects.drop_last().drop_last() =~= Seq::<PipelineEffect>::empty());
        assert(effects.drop_last().last() == effects[0]);
    }
}

/// The band of the progress scale that belongs to a stage: the first five
/// percent to decoding, five to ninety to the processing of frames, ninety
/// to one hundred to encoding. Counting the frames and the end have none.
pub open spec fn stage_band(stage: Stage) -> Option<StageBand> {
    match stage {
        Stage::Decode => Some(StageBand { start: 0, span: 5_000, cap: 5_000 }),
        Stage::Upscale => Some(StageBand { start: 5_000, span: 85_000, cap: 90_000 }),
        Stage::Encode => Some(StageBand { start: 90_000, span: 10_000, cap: 100_000 }),
        _ => None,
    }
}

/// The band of the progress scale that belongs to a stage.
pub fn band_of(stage: Stage) -> (band: Option<StageBand>)
    ensures
        band == stage_band(stage),
        band matches Some(b) ==> b.wf(),
{
    match stage {
        Stage::Decode => Some(decode_band()),
        Stage::Upscale => Some(upscale_band()),
        Stage::Encode => Some(encode_band()),
        _ => None,
    }
}

/// The bands follow one another without a gap: each begins where the one
/// before it ends, the first at nothing, and the last ends at the whole.
pub proof fn lemma_bands_tile()
    ensures
        stage_band(Stage::Decode)->0.start == 0,
        stage_band(Stage::Decode)->0.start + stage_band(Stage::Decode)->0.span == stage_band(
            Stage::Upscale,
        )->0.start,
        stage_band(Stage::Upscale)->0.start + stage_band(Stage::Upscale)->0.span == stage_band(
            Stage::Encode,
        )->0.start,
        stage_band(Stage::Encode)->0.start + stage_band(Stage::Encode)->0.span == 100_000,
{
}

/// What is reported while the frames are processed is what the band of that
/// stage gives for the number of completed frames.
pub proof fn lemma_upscale_report_in_band(completed: u32, total: u32)
    requires
        total > 0,
    ensures
        (if upscale_raw(completed, total) > 90_000 {
            90_000u32
        } else {
            upscale_raw(completed, total) as u32
        }) == stage_band(Stage::Upscale)->0.value(completed, total),
{
    assert(0 <= completed * 85_000 / (total as int)) by (nonlinear_arith)
        requires
            completed >= 0,
            total > 0,
    ;
    assert(completed * 85_000 / (total as int) <= completed * 85_000) by (nonlinear_arith)
        requires
            completed >= 0,
            total > 0,
    ;
}

/// The band in which a stage reports progress, as its two ends.
pub open spec fn stage_range(stage: Stage) -> (u32, u32) {
    match stage_band(stage) {
        Some(band) => (band.start, band.cap),
        None => (0, 0),
    }
}

/// Whatever progress an event reports lies in the band of the stage that
/// runs.
pub proof fn lemma_progress_in_band(s: PipelineState, event: PipelineEvent, i: int)
    requires
        0 <= i < s.next(event).1.len(),
        s.next(event).1[i] is Progress,
    ensures
        stage_range(s.stage).0 <= s.next(event).1[i]->Progress_0 <= stage_range(s.stage).1,
{
    match (s.stage, event) {
        (Stage::Decode, PipelineEvent::Line(line)) => {},
        (Stage::Upscale, PipelineEvent::Line(line)) => {},
        (Stage::Encode, PipelineEvent::Line(line)) => {},
        _ => {},
    }
}

/// While the frames are processed, progress is reported only where it has
/// grown: the raw progress that is remembered never falls, and it rises
/// with every report.
pub proof fn lemma_upscale_progress_grows(s: PipelineState, line: Seq<char>)
    ensures
        s.upscale_line(line).0.last_raw >= s.last_raw,
        (exists|i: int|
            0 <= i < s.upscale_line(line).1.len() && s.upscale_line(line).1[i] is Progress)
            ==> s.upscale_line(line).0.last_raw > s.last_raw,
{
}

} // verus!
